//! One stage of the mapping pipeline, and the rebuild of the designator map
//! it induces.
//!
//! A pixel mapper presents a visible rectangle over an underlying matrix.
//! Applying one to a designator map copies, for every visible coordinate,
//! the designator of the matrix coordinate it maps to; a mapper that leaves
//! the matrix rectangle is rejected.

use vstd::prelude::*;
use crate::canvas::{PixelDesignator, PixelDesignatorMap};
use crate::config::RGBMatrixConfig;
use crate::error::MatrixCreationError;
use crate::multiplex_mapper::{
    spec_multiplex_map,
    spec_panel_geometry_ok,
    MultiplexMapper,
};
use crate::named_pixel_mapper::{
    spec_named_geometry_ok,
    spec_named_map,
    spec_named_size,
    NamedPixelMapper,
};

verus! {

/// One stage of the pipeline: the multiplex mapper comes first, then the
/// arrangement mappers in user order.
pub enum PixelMapper {
    Multiplex(MultiplexMapper),
    Named(NamedPixelMapper),
}

/// The geometry under which this stage is meaningful over a matrix of the
/// given size.
pub open spec fn spec_mapper_geometry_ok(pm: PixelMapper, w: int, h: int) -> bool {
    &&& 0 < w <= 0x1000_0000
    &&& 0 < h <= 0x1000_0000
    &&& match pm {
        PixelMapper::Multiplex(m) => spec_panel_geometry_ok(m),
        PixelMapper::Named(n) => spec_named_geometry_ok(n, w, h),
    }
}

/// The visible rectangle this stage presents over a matrix of the given
/// size.
pub open spec fn spec_mapper_size(pm: PixelMapper, w: int, h: int) -> (int, int) {
    match pm {
        PixelMapper::Multiplex(m) => (
            w / m.kind.spec_stretch_factor() as int,
            h * m.kind.spec_stretch_factor() as int,
        ),
        PixelMapper::Named(n) => spec_named_size(n, w, h),
    }
}

/// Where a visible coordinate of this stage lands on the matrix.
pub open spec fn spec_mapper_map(pm: PixelMapper, w: int, h: int, x: int, y: int) -> (int, int) {
    match pm {
        PixelMapper::Multiplex(m) => spec_multiplex_map(m, x, y),
        PixelMapper::Named(n) => spec_named_map(n, w, h, x, y),
    }
}

/// Entry `(x, y)` of a rebuilt map of width `nw` was copied from the old
/// map's designator of the coordinate the stage maps to, which lies inside
/// the old rectangle.
pub open spec fn spec_copied_entry(
    pm: PixelMapper,
    shared: PixelDesignatorMap,
    buf: Seq<PixelDesignator>,
    nw: int,
    x: int,
    y: int,
) -> bool {
    let mapped = spec_mapper_map(pm, shared.width as int, shared.height as int, x, y);
    &&& 0 <= mapped.0 < shared.width
    &&& 0 <= mapped.1 < shared.height
    &&& buf[y * nw + x] == shared.buffer@[mapped.1 * (shared.width as int) + mapped.0]
}

impl PixelMapper {
    /// The visible size after the mapping; the U-arrangement rejects a
    /// height that does not split over its parallel chains.
    pub fn get_size_mapping(&self, matrix_width: usize, matrix_height: usize) -> (r: Result<
        [usize; 2],
        MatrixCreationError,
    >)
        requires
            matrix_width <= 0x1000_0000,
            matrix_height <= 0x1000_0000,
            *self matches PixelMapper::Named(NamedPixelMapper::UArrange { parallel })
                ==> parallel > 0,
        ensures
            match r {
                Ok(size) => {
                    &&& size[0] == spec_mapper_size(
                        *self,
                        matrix_width as int,
                        matrix_height as int,
                    ).0
                    &&& size[1] == spec_mapper_size(
                        *self,
                        matrix_width as int,
                        matrix_height as int,
                    ).1
                    &&& (*self matches PixelMapper::Named(NamedPixelMapper::UArrange { parallel })
                        ==> matrix_height as int % parallel as int == 0)
                },
                Err(e) => {
                    &&& e is PixelMapperError
                    &&& (*self matches PixelMapper::Named(NamedPixelMapper::UArrange { parallel })
                        && matrix_height as int % parallel as int != 0)
                },
            },
    {
        match self {
            PixelMapper::Multiplex(mapper) => {
                proof {
                    assert(matrix_height as int * (mapper.kind.spec_stretch_factor() as int)
                        <= 0x1000_0000 * 4) by (nonlinear_arith)
                        requires
                            0 <= matrix_height as int <= 0x1000_0000,
                            0 <= mapper.kind.spec_stretch_factor() as int <= 4,
                    ;
                }
                Ok(mapper.get_size_mapping(matrix_width, matrix_height))
            },
            PixelMapper::Named(mapper) => mapper.get_size_mapping(matrix_width, matrix_height),
        }
    }

    /// Where a visible coordinate lands on the matrix.
    pub fn map_visible_to_matrix(
        &self,
        matrix_width: usize,
        matrix_height: usize,
        visible_x: usize,
        visible_y: usize,
    ) -> (r: [usize; 2])
        requires
            spec_mapper_geometry_ok(*self, matrix_width as int, matrix_height as int),
            (visible_x as int) < spec_mapper_size(
                *self,
                matrix_width as int,
                matrix_height as int,
            ).0,
            (visible_y as int) < spec_mapper_size(
                *self,
                matrix_width as int,
                matrix_height as int,
            ).1,
        ensures
            r[0] == spec_mapper_map(
                *self,
                matrix_width as int,
                matrix_height as int,
                visible_x as int,
                visible_y as int,
            ).0,
            r[1] == spec_mapper_map(
                *self,
                matrix_width as int,
                matrix_height as int,
                visible_x as int,
                visible_y as int,
            ).1,
    {
        match self {
            PixelMapper::Multiplex(mapper) => {
                proof {
                    assert(visible_x as int <= 0x1000_0000);
                    assert(visible_y as int <= matrix_height as int
                        * mapper.kind.spec_stretch_factor() as int);
                    assert(matrix_height as int * (mapper.kind.spec_stretch_factor() as int)
                        <= 0x1000_0000 * 4) by (nonlinear_arith)
                        requires
                            0 <= matrix_height as int <= 0x1000_0000,
                            0 <= mapper.kind.spec_stretch_factor() as int <= 4,
                    ;
                }
                mapper.map_visible_to_matrix(matrix_width, matrix_height, visible_x, visible_y)
            },
            PixelMapper::Named(mapper) => mapper.map_visible_to_matrix(
                matrix_width,
                matrix_height,
                visible_x,
                visible_y,
            ),
        }
    }
}

/// Rebuild the designator map under one mapping stage: the designator of
/// every visible coordinate of the new map is the old map's designator of
/// the matrix coordinate it maps to. A stage that maps any visible
/// coordinate outside the old rectangle is rejected.
pub fn apply_pixel_mapper(
    shared_mapper: &PixelDesignatorMap,
    mapper: &PixelMapper,
    config: &RGBMatrixConfig,
    pixel_designator: PixelDesignator,
    Ghost(cols): Ghost<int>,
    Ghost(double_rows): Ghost<int>,
) -> (r: Result<PixelDesignatorMap, MatrixCreationError>)
    requires
        shared_mapper.wf_for(cols, double_rows),
        shared_mapper.width > 0,
        shared_mapper.height > 0,
        spec_mapper_geometry_ok(
            *mapper,
            shared_mapper.width as int,
            shared_mapper.height as int,
        ),
        *mapper matches PixelMapper::Named(NamedPixelMapper::UArrange { parallel }) ==> parallel
            > 0,
        0 < spec_mapper_size(*mapper, shared_mapper.width as int, shared_mapper.height as int).0
            <= 0x1000_0000,
        0 < spec_mapper_size(*mapper, shared_mapper.width as int, shared_mapper.height as int).1
            <= 0x1000_0000,
        spec_mapper_size(*mapper, shared_mapper.width as int, shared_mapper.height as int).0
            * spec_mapper_size(*mapper, shared_mapper.width as int, shared_mapper.height as int).1
            <= 0x1000_0000,
        config.rows as int * 6 >= spec_mapper_size(
            *mapper,
            shared_mapper.width as int,
            shared_mapper.height as int,
        ).1,
        0 < config.spec_double_rows(),
        config.spec_double_rows() * (spec_mapper_size(
            *mapper,
            shared_mapper.width as int,
            shared_mapper.height as int,
        ).0 * 11) <= usize::MAX,
    ensures
        match r {
            Ok(new_map) => {
                let ow = shared_mapper.width as int;
                let oh = shared_mapper.height as int;
                let nw = spec_mapper_size(*mapper, ow, oh).0;
                let nh = spec_mapper_size(*mapper, ow, oh).1;
                &&& new_map.width == nw
                &&& new_map.height == nh
                &&& new_map.pixel_designator == pixel_designator
                &&& new_map.wf_for(cols, double_rows)
                &&& forall|x: int, y: int|
                    0 <= x < nw && 0 <= y < nh ==> #[trigger] spec_copied_entry(
                        *mapper,
                        *shared_mapper,
                        new_map.buffer@,
                        nw,
                        x,
                        y,
                    )
            },
            Err(e) => {
                let ow = shared_mapper.width as int;
                let oh = shared_mapper.height as int;
                let nw = spec_mapper_size(*mapper, ow, oh).0;
                let nh = spec_mapper_size(*mapper, ow, oh).1;
                &&& e is PixelMapperError
                &&& ((*mapper matches PixelMapper::Named(NamedPixelMapper::UArrange { .. }))
                    || (exists|x: int, y: int|
                    0 <= x < nw && 0 <= y < nh && {
                        let mapped = #[trigger] spec_mapper_map(*mapper, ow, oh, x, y);
                        mapped.0 >= ow || mapped.1 >= oh
                    }))
            },
        },
{
    let old_width = shared_mapper.width();
    let old_height = shared_mapper.height();
    let size = match mapper.get_size_mapping(old_width, old_height) {
        Ok(size) => size,
        Err(e) => {
            return Err(e);
        },
    };
    let new_width = size[0];
    let new_height = size[1];
    let ghost ow = old_width as int;
    let ghost oh = old_height as int;
    let ghost nw = new_width as int;
    let ghost nh = new_height as int;
    let mut new_mapper = PixelDesignatorMap::new(
        pixel_designator,
        new_width,
        new_height,
        config,
    );
    let mut y: usize = 0;
    while y < new_height
        invariant
            0 <= y <= new_height,
            nw == new_width as int,
            nh == new_height as int,
            ow == shared_mapper.width as int,
            oh == shared_mapper.height as int,
            old_width == shared_mapper.width,
            old_height == shared_mapper.height,
            0 < new_width <= 0x1000_0000,
            0 < new_height <= 0x1000_0000,
            new_width * new_height <= 0x1000_0000,
            shared_mapper.wf_for(cols, double_rows),
            shared_mapper.width > 0,
            shared_mapper.height > 0,
            spec_mapper_geometry_ok(*mapper, ow, oh),
            nw == spec_mapper_size(*mapper, ow, oh).0,
            nh == spec_mapper_size(*mapper, ow, oh).1,
            new_mapper.width == new_width,
            new_mapper.height == new_height,
            new_mapper.pixel_designator == pixel_designator,
            new_mapper.buffer@.len() == new_width * new_height,
            forall|xx: int, yy: int|
                0 <= xx < nw && 0 <= yy < y ==> #[trigger] spec_copied_entry(
                    *mapper,
                    *shared_mapper,
                    new_mapper.buffer@,
                    nw,
                    xx,
                    yy,
                ),
        decreases new_height - y,
    {
        let mut x: usize = 0;
        while x < new_width
            invariant
                0 <= x <= new_width,
                0 <= y < new_height,
                nw == new_width as int,
                nh == new_height as int,
                ow == shared_mapper.width as int,
                oh == shared_mapper.height as int,
                old_width == shared_mapper.width,
                old_height == shared_mapper.height,
                0 < new_width <= 0x1000_0000,
                0 < new_height <= 0x1000_0000,
                new_width * new_height <= 0x1000_0000,
                shared_mapper.wf_for(cols, double_rows),
                shared_mapper.width > 0,
                shared_mapper.height > 0,
                spec_mapper_geometry_ok(*mapper, ow, oh),
                nw == spec_mapper_size(*mapper, ow, oh).0,
                nh == spec_mapper_size(*mapper, ow, oh).1,
                new_mapper.width == new_width,
                new_mapper.height == new_height,
                new_mapper.pixel_designator == pixel_designator,
                new_mapper.buffer@.len() == new_width * new_height,
                forall|xx: int, yy: int|
                    0 <= xx < nw && 0 <= yy < y ==> #[trigger] spec_copied_entry(
                        *mapper,
                        *shared_mapper,
                        new_mapper.buffer@,
                        nw,
                        xx,
                        yy,
                    ),
                forall|xx: int|
                    0 <= xx < x ==> #[trigger] spec_copied_entry(
                        *mapper,
                        *shared_mapper,
                        new_mapper.buffer@,
                        nw,
                        xx,
                        y as int,
                    ),
            decreases new_width - x,
        {
            let mapped = mapper.map_visible_to_matrix(old_width, old_height, x, y);
            let orig_x = mapped[0];
            let orig_y = mapped[1];
            if orig_x >= old_width || orig_y >= old_height {
                proof {
                    let mapped_spec = spec_mapper_map(*mapper, ow, oh, x as int, y as int);
                    assert(0 <= (x as int) < nw && 0 <= (y as int) < nh && (mapped_spec.0 >= ow
                        || mapped_spec.1 >= oh));
                }
                return Err(
                    MatrixCreationError::PixelMapperError(
                        "a pixel mapper left the matrix rectangle".to_owned(),
                    ),
                );
            }
            let orig_designator = match shared_mapper.get(orig_x, orig_y) {
                Some(d) => *d,
                None => {
                    proof {
                        assert((orig_y as int) * ow + (orig_x as int) < oh * ow)
                            by (nonlinear_arith)
                            requires
                                0 <= orig_x as int,
                                orig_x < ow,
                                0 <= orig_y as int,
                                orig_y < oh,
                        ;
                        assert(oh * ow == ow * oh) by (nonlinear_arith);
                    }
                    return Err(
                        MatrixCreationError::PixelMapperError(
                            "a pixel mapper left the matrix rectangle".to_owned(),
                        ),
                    );
                },
            };
            proof {
                assert((orig_y as int) * ow + (orig_x as int) < oh * ow) by (nonlinear_arith)
                    requires
                        0 <= orig_x as int,
                        orig_x < ow,
                        0 <= orig_y as int,
                        orig_y < oh,
                ;
                assert(oh * ow == ow * oh) by (nonlinear_arith);
            }
            let ghost prev_buf = new_mapper.buffer@;
            new_mapper.set_designator(x, y, orig_designator);
            proof {
                let pos = y as int * nw + x as int;
                assert(new_mapper.buffer@.len() == prev_buf.len());
                assert(new_mapper.buffer@.len() == new_width * new_height);
                assert(new_mapper.buffer@ == prev_buf.update(pos, orig_designator));
                assert forall|xx: int, yy: int|
                    0 <= xx < nw && 0 <= yy < y as int implies #[trigger] spec_copied_entry(
                    *mapper,
                    *shared_mapper,
                    new_mapper.buffer@,
                    nw,
                    xx,
                    yy,
                ) by {
                    assert(spec_copied_entry(*mapper, *shared_mapper, prev_buf, nw, xx, yy));
                    assert(0 <= yy * nw + xx && yy * nw + xx < pos && pos < nw * nh)
                        by (nonlinear_arith)
                        requires
                            0 <= xx < nw,
                            0 <= yy < y as int,
                            0 <= x as int,
                            (x as int) < nw,
                            (y as int) < nh,
                            0 < nw,
                            pos == y as int * nw + x as int,
                    ;
                    assert(prev_buf.len() == nw * nh);
                    assert(new_mapper.buffer@[yy * nw + xx] == prev_buf[yy * nw + xx]);
                }
                assert forall|xx: int|
                    0 <= xx < x as int + 1 implies #[trigger] spec_copied_entry(
                    *mapper,
                    *shared_mapper,
                    new_mapper.buffer@,
                    nw,
                    xx,
                    y as int,
                ) by {
                    assert(0 <= y as int * nw + xx && y as int * nw + xx <= pos && pos < nw * nh)
                        by (nonlinear_arith)
                        requires
                            0 <= xx <= x as int,
                            0 <= y as int,
                            (x as int) < nw,
                            (y as int) < nh,
                            0 < nw,
                            pos == y as int * nw + x as int,
                    ;
                    assert(prev_buf.len() == nw * nh);
                    if xx < x as int {
                        assert(y as int * nw + xx != pos);
                        assert(spec_copied_entry(*mapper, *shared_mapper, prev_buf, nw, xx, y as int));
                        assert(new_mapper.buffer@[y as int * nw + xx] == prev_buf[y as int * nw
                            + xx]);
                    } else {
                        assert(xx == x as int);
                        assert(new_mapper.buffer@[y as int * nw + xx] == orig_designator);
                        assert(orig_designator == shared_mapper.buffer@[(orig_y as int) * ow + (
                        orig_x as int)]);
                        assert(spec_mapper_map(*mapper, ow, oh, x as int, y as int).0 == orig_x
                            as int);
                        assert(spec_mapper_map(*mapper, ow, oh, x as int, y as int).1 == orig_y
                            as int);
                    }
                }
            }
            x = x + 1;
        }
        y = y + 1;
    }
    proof {
        lemma_copied_map_wf(*shared_mapper, new_mapper, *mapper, cols, double_rows);
    }
    Ok(new_mapper)
}

/// A map whose every entry was copied from a well-formed map is itself
/// well-formed for the same canvas.
proof fn lemma_copied_map_wf(
    shared: PixelDesignatorMap,
    new_map: PixelDesignatorMap,
    mapper: PixelMapper,
    cols: int,
    double_rows: int,
)
    requires
        shared.wf_for(cols, double_rows),
        new_map.buffer@.len() == new_map.width * new_map.height,
        0 < new_map.width <= 0x1000_0000,
        0 < new_map.height <= 0x1000_0000,
        new_map.width * new_map.height <= usize::MAX,
        forall|x: int, y: int|
            0 <= x < new_map.width && 0 <= y < new_map.height ==> #[trigger] spec_copied_entry(
                mapper,
                shared,
                new_map.buffer@,
                new_map.width as int,
                x,
                y,
            ),
    ensures
        new_map.wf_for(cols, double_rows),
{
    let nw = new_map.width as int;
    let nh = new_map.height as int;
    let ow = shared.width as int;
    let oh = shared.height as int;
    assert forall|i: int| 0 <= i < new_map.buffer@.len() implies crate::canvas::spec_designator_wf(
        #[trigger] new_map.buffer@[i],
        cols,
        double_rows,
    ) by {
        let y = i / nw;
        let x = i % nw;
        vstd::arithmetic::div_mod::lemma_fundamental_div_mod(i, nw);
        assert(0 <= y < nh && 0 <= x < nw && i == y * nw + x) by (nonlinear_arith)
            requires
                0 <= i < nw * nh,
                0 < nw,
                y == i / nw,
                x == i % nw,
                i == nw * y + x,
        ;
        assert(spec_copied_entry(mapper, shared, new_map.buffer@, nw, x, y));
        let mapped = spec_mapper_map(mapper, ow, oh, x, y);
        assert(0 <= mapped.1 * ow + mapped.0 < ow * oh) by (nonlinear_arith)
            requires
                0 <= mapped.0,
                mapped.0 < ow,
                0 <= mapped.1,
                mapped.1 < oh,
        ;
        assert(ow * oh == oh * ow) by (nonlinear_arith);
    }
}

} // verus!
