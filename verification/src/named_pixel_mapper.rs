//! Arrangement mappers: coordinate transforms applied after the multiplex
//! mapper, in the order the user lists them.
//!
//! `Mirror` flips the canvas, `Rotate` turns it by a multiple of 90 degrees,
//! and the U-arrangement folds a long chain of panels into two rows.

use vstd::prelude::*;
use vstd::string::StringSliceAdditionalSpecFns;
use crate::error::MatrixCreationError;
use crate::utils::{find_byte, parse_dec_u32, range_matches, spec_find_byte, spec_parse_dec, str_matches};

verus! {

/// The arrangement mappers a configuration can name.
#[derive(Debug, Clone, Copy, PartialEq, Eq, Hash)]
pub enum NamedPixelMapperType {
    /// Mirror the output; `true` flips horizontally, `false` vertically.
    Mirror(bool),
    /// Rotate the canvas by the given angle in degrees (a multiple of 90,
    /// already reduced to 0, 90, 180 or 270).
    Rotate(usize),
    /// Fold a long chain into two rows of panels: a chain of `2n` panels
    /// shows as a display of half the width and twice the height.
    UMapper,
}

/// The arrangement mapper a name selects: `Mirror` with an `H` or `V`
/// parameter after a colon, `Rotate` with an angle that is a multiple of
/// ninety degrees, or the parameterless `U-mapper`.
pub open spec fn spec_named_mapper_type_of(bytes: Seq<u8>) -> Option<NamedPixelMapperType> {
    let mirror = seq![77u8, 105u8, 114u8, 114u8, 111u8, 114u8];
    let rotate = seq![82u8, 111u8, 116u8, 97u8, 116u8, 101u8];
    let u_mapper = seq![85u8, 45u8, 109u8, 97u8, 112u8, 112u8, 101u8, 114u8];
    match spec_find_byte(bytes, 58u8, 0) {
        Some(i) => {
            let command = bytes.subrange(0, i);
            let param = bytes.subrange(i + 1, bytes.len() as int);
            if command =~= mirror {
                if param =~= seq![72u8] || param =~= seq![104u8] {
                    Some(NamedPixelMapperType::Mirror(true))
                } else if param =~= seq![86u8] || param =~= seq![118u8] {
                    Some(NamedPixelMapperType::Mirror(false))
                } else {
                    None
                }
            } else if command =~= rotate {
                if param.len() == 0 {
                    None
                } else {
                    match spec_parse_dec(bytes, i + 1, bytes.len() as int, 0u32) {
                        None => None,
                        Some(angle) => if angle as int % 90 != 0 {
                            None
                        } else {
                            Some(
                                NamedPixelMapperType::Rotate(
                                    ((angle as int + 360) % 360) as usize,
                                ),
                            )
                        },
                    }
                }
            } else {
                None
            }
        },
        None => if bytes =~= u_mapper {
            Some(NamedPixelMapperType::UMapper)
        } else {
            None
        },
    }
}

impl NamedPixelMapperType {
    /// Parse a mapper name such as `Mirror:H`, `Rotate:90` or `U-mapper`.
    pub fn parse(s: &str) -> (r: Result<NamedPixelMapperType, MatrixCreationError>)
        ensures
            match spec_named_mapper_type_of(s.spec_bytes()) {
                Some(v) => r == Ok::<NamedPixelMapperType, MatrixCreationError>(v),
                None => r matches Err(MatrixCreationError::PixelMapperError(_)),
            },
    {
        let mirror: Vec<u8> = vec![77, 105, 114, 114, 111, 114];
        let rotate: Vec<u8> = vec![82, 111, 116, 97, 116, 101];
        let u_mapper: Vec<u8> = vec![85, 45, 109, 97, 112, 112, 101, 114];
        proof {
            assert(mirror@ =~= seq![77u8, 105u8, 114u8, 114u8, 111u8, 114u8]);
            assert(rotate@ =~= seq![82u8, 111u8, 116u8, 97u8, 116u8, 101u8]);
            assert(u_mapper@ =~= seq![85u8, 45u8, 109u8, 97u8, 112u8, 112u8, 101u8, 114u8]);
        }
        let bytes = s.as_bytes();
        if let Some(i) = find_byte(bytes, 58) {
            if range_matches(bytes, 0, i, &mirror) {
                let upper_h = bytes.len() == i + 2 && bytes[i + 1] == 72;
                let lower_h = bytes.len() == i + 2 && bytes[i + 1] == 104;
                let upper_v = bytes.len() == i + 2 && bytes[i + 1] == 86;
                let lower_v = bytes.len() == i + 2 && bytes[i + 1] == 118;
                proof {
                    let param = bytes@.subrange(i + 1, bytes@.len() as int);
                    assert(param.len() == bytes@.len() - (i + 1));
                    if bytes@.len() == i + 2 {
                        assert(param[0] == bytes@[i + 1]);
                        assert(param.len() == 1);
                        assert((param =~= seq![72u8]) == (bytes@[i + 1] == 72));
                        assert((param =~= seq![104u8]) == (bytes@[i + 1] == 104));
                        assert((param =~= seq![86u8]) == (bytes@[i + 1] == 86));
                        assert((param =~= seq![118u8]) == (bytes@[i + 1] == 118));
                    } else {
                        assert(param.len() != 1);
                        assert(!(param =~= seq![72u8]) && !(param =~= seq![104u8]) && !(param
                            =~= seq![86u8]) && !(param =~= seq![118u8]));
                    }
                }
                if upper_h || lower_h {
                    Ok(NamedPixelMapperType::Mirror(true))
                } else if upper_v || lower_v {
                    Ok(NamedPixelMapperType::Mirror(false))
                } else {
                    Err(
                        MatrixCreationError::PixelMapperError(
                            "the mirror direction must be H or V".to_owned(),
                        ),
                    )
                }
            } else if range_matches(bytes, 0, i, &rotate) {
                if bytes.len() == i + 1 {
                    return Err(
                        MatrixCreationError::PixelMapperError(
                            "the rotation angle is missing".to_owned(),
                        ),
                    );
                }
                match parse_dec_u32(bytes, i + 1, bytes.len()) {
                    None => Err(
                        MatrixCreationError::PixelMapperError(
                            "the rotation angle is missing or invalid".to_owned(),
                        ),
                    ),
                    Some(angle) => {
                        if angle % 90 != 0 {
                            return Err(
                                MatrixCreationError::PixelMapperError(
                                    "the rotation must be a multiple of ninety degrees".to_owned(),
                                ),
                            );
                        }
                        Ok(
                            NamedPixelMapperType::Rotate(
                                (((angle as u64) + 360) % 360) as usize,
                            ),
                        )
                    },
                }
            } else {
                Err(
                    MatrixCreationError::PixelMapperError(
                        "the pixel mappers are Mirror, Rotate and U-mapper".to_owned(),
                    ),
                )
            }
        } else {
            if str_matches(s, &u_mapper) {
                Ok(NamedPixelMapperType::UMapper)
            } else {
                Err(
                    MatrixCreationError::PixelMapperError(
                        "the pixel mappers are Mirror, Rotate and U-mapper".to_owned(),
                    ),
                )
            }
        }
    }
}

/// One configured arrangement mapper.
#[derive(Debug, Clone, Copy, PartialEq, Eq, Hash)]
pub enum NamedPixelMapper {
    Mirror { horizontal: bool },
    Rotate { angle: usize },
    UArrange { parallel: usize },
}

impl NamedPixelMapperType {
    /// Instantiate the mapper; the U-arrangement demands an even chain of at
    /// least two panels.
    pub fn create(self, chain: usize, parallel: usize) -> (r: Result<
        NamedPixelMapper,
        MatrixCreationError,
    >)
        ensures
            match self {
                NamedPixelMapperType::Mirror(h) => r == Ok::<_, MatrixCreationError>(
                    NamedPixelMapper::Mirror { horizontal: h },
                ),
                NamedPixelMapperType::Rotate(a) => r == Ok::<_, MatrixCreationError>(
                    NamedPixelMapper::Rotate { angle: a },
                ),
                NamedPixelMapperType::UMapper => if chain >= 2 && chain % 2 == 0 {
                    r == Ok::<_, MatrixCreationError>(
                        NamedPixelMapper::UArrange { parallel },
                    )
                } else {
                    r matches Err(MatrixCreationError::PixelMapperError(_))
                },
            },
    {
        match self {
            NamedPixelMapperType::Mirror(horizontal) => Ok(
                NamedPixelMapper::Mirror { horizontal },
            ),
            NamedPixelMapperType::Rotate(angle) => Ok(NamedPixelMapper::Rotate { angle }),
            NamedPixelMapperType::UMapper => {
                if chain < 2 {
                    return Err(
                        MatrixCreationError::PixelMapperError(
                            "the U-arrangement needs a chain of at least two panels to fold".to_owned(),
                        ),
                    );
                }
                if chain % 2 != 0 {
                    return Err(
                        MatrixCreationError::PixelMapperError(
                            "the U-arrangement needs a chain length divisible by two".to_owned(),
                        ),
                    );
                }
                Ok(NamedPixelMapper::UArrange { parallel })
            },
        }
    }
}

/// The geometry under which an arrangement mapper is meaningful; the bounds
/// keep the coordinate arithmetic away from overflow.
pub open spec fn spec_named_geometry_ok(m: NamedPixelMapper, w: int, h: int) -> bool {
    &&& 0 < w <= 0x1000_0000
    &&& 0 < h <= 0x1000_0000
    &&& match m {
        NamedPixelMapper::Mirror { .. } => true,
        NamedPixelMapper::Rotate { angle } => angle == 0 || angle == 90 || angle == 180 || angle
            == 270,
        NamedPixelMapper::UArrange { parallel } => 0 < parallel && h % parallel as int == 0 && h
            / parallel as int > 0,
    }
}

/// The visible rectangle an arrangement mapper presents over a matrix of the
/// given size.
pub open spec fn spec_named_size(m: NamedPixelMapper, w: int, h: int) -> (int, int) {
    match m {
        NamedPixelMapper::Mirror { .. } => (w, h),
        NamedPixelMapper::Rotate { angle } => if angle % 180 == 0 {
            (w, h)
        } else {
            (h, w)
        },
        NamedPixelMapper::UArrange { .. } => ((w / 64) * 32, 2 * h),
    }
}

/// Where a visible coordinate lands on the matrix.
pub open spec fn spec_named_map(m: NamedPixelMapper, w: int, h: int, x: int, y: int) -> (
    int,
    int,
) {
    match m {
        NamedPixelMapper::Mirror { horizontal } => if horizontal {
            (w - 1 - x, y)
        } else {
            (x, h - 1 - y)
        },
        NamedPixelMapper::Rotate { angle } => if angle == 0 {
            (x, y)
        } else if angle == 90 {
            (w - y - 1, x)
        } else if angle == 180 {
            (w - x - 1, h - y - 1)
        } else {
            (y, h - x - 1)
        },
        NamedPixelMapper::UArrange { parallel } => {
            let panel_height = h / parallel as int;
            let visible_width = (w / 64) * 32;
            let slab_height = 2 * panel_height;
            let base_y = (y / slab_height) * panel_height;
            let y_in_slab = y % slab_height;
            if y_in_slab < panel_height {
                (x + w / 2, base_y + y_in_slab)
            } else {
                (visible_width - x - 1, base_y + slab_height - y_in_slab - 1)
            }
        },
    }
}

impl NamedPixelMapper {
    /// The visible size this mapper presents; the U-arrangement also checks
    /// that the height splits evenly over the parallel chains.
    pub fn get_size_mapping(&self, matrix_width: usize, matrix_height: usize) -> (r: Result<
        [usize; 2],
        MatrixCreationError,
    >)
        requires
            matrix_width <= 0x1000_0000,
            matrix_height <= 0x1000_0000,
            self matches NamedPixelMapper::UArrange { parallel } ==> parallel > 0,
        ensures
            match r {
                Ok(size) => {
                    &&& (self matches NamedPixelMapper::UArrange { parallel } ==> matrix_height as int
                        % parallel as int == 0)
                    &&& size[0] == spec_named_size(*self, matrix_width as int, matrix_height as int).0
                    &&& size[1] == spec_named_size(*self, matrix_width as int, matrix_height as int).1
                },
                Err(e) => {
                    &&& self matches NamedPixelMapper::UArrange { parallel }
                    &&& e is PixelMapperError
                },
            },
            (self matches NamedPixelMapper::Mirror { .. }) ==> r is Ok,
            (self matches NamedPixelMapper::Rotate { .. }) ==> r is Ok,
            (self matches NamedPixelMapper::UArrange { parallel } && matrix_height as int
                % parallel as int == 0) ==> r is Ok,
    {
        match self {
            NamedPixelMapper::Mirror { .. } => Ok([matrix_width, matrix_height]),
            NamedPixelMapper::Rotate { angle } => {
                if *angle % 180 == 0 {
                    Ok([matrix_width, matrix_height])
                } else {
                    Ok([matrix_height, matrix_width])
                }
            },
            NamedPixelMapper::UArrange { parallel } => {
                if matrix_height % *parallel != 0 {
                    return Err(
                        MatrixCreationError::PixelMapperError(
                            "the U-arrangement needs the height to split evenly over the parallel chains".to_owned(),
                        ),
                    );
                }
                Ok([(matrix_width / 64) * 32, 2 * matrix_height])
            },
        }
    }

    /// Map a visible coordinate to the matrix coordinate it drives.
    pub fn map_visible_to_matrix(
        &self,
        matrix_width: usize,
        matrix_height: usize,
        x: usize,
        y: usize,
    ) -> (r: [usize; 2])
        requires
            spec_named_geometry_ok(*self, matrix_width as int, matrix_height as int),
            (x as int) < spec_named_size(*self, matrix_width as int, matrix_height as int).0,
            (y as int) < spec_named_size(*self, matrix_width as int, matrix_height as int).1,
        ensures
            r[0] == spec_named_map(*self, matrix_width as int, matrix_height as int, x as int, y as int).0,
            r[1] == spec_named_map(*self, matrix_width as int, matrix_height as int, x as int, y as int).1,
    {
        let w = matrix_width;
        let h = matrix_height;
        match self {
            NamedPixelMapper::Mirror { horizontal } => {
                if *horizontal {
                    [w - 1 - x, y]
                } else {
                    [x, h - 1 - y]
                }
            },
            NamedPixelMapper::Rotate { angle } => {
                if *angle == 0 {
                    [x, y]
                } else if *angle == 90 {
                    [w - y - 1, x]
                } else if *angle == 180 {
                    [w - x - 1, h - y - 1]
                } else {
                    [y, h - x - 1]
                }
            },
            NamedPixelMapper::UArrange { parallel } => {
                let panel_height = h / *parallel;
                let visible_width = (w / 64) * 32;
                let slab_height = 2 * panel_height;
                proof {
                    lemma_u_arrange_bounds(
                        w as int,
                        h as int,
                        *parallel as int,
                        x as int,
                        y as int,
                    );
                }
                let base_y = (y / slab_height) * panel_height;
                let y_in_slab = y % slab_height;
                if y_in_slab < panel_height {
                    [x + w / 2, base_y + y_in_slab]
                } else {
                    [visible_width - x - 1, base_y + slab_height - y_in_slab - 1]
                }
            },
        }
    }
}

/// Arithmetic bounds of the U-arrangement: the slab index times the panel
/// height stays below the matrix height, and the visible width is at most
/// half the matrix width.
proof fn lemma_u_arrange_bounds(w: int, h: int, parallel: int, x: int, y: int)
    requires
        0 < w <= 0x1000_0000,
        0 < h <= 0x1000_0000,
        0 < parallel,
        h % parallel == 0,
        h / parallel > 0,
        0 <= x < (w / 64) * 32,
        0 <= y < 2 * h,
    ensures
        0 <= (y / (2 * (h / parallel))) * (h / parallel),
        (y / (2 * (h / parallel))) * (h / parallel) + (h / parallel) <= h,
        (w / 64) * 32 <= w / 2,
        (w / 64) * 32 <= w,
{
    let hp = h / parallel;
    assert(hp * parallel == h) by (nonlinear_arith)
        requires
            0 < parallel,
            h % parallel == 0,
            hp == h / parallel,
    ;
    let q = y / (2 * hp);
    assert(q < parallel) by (nonlinear_arith)
        requires
            0 < hp,
            0 < parallel,
            0 <= y < 2 * (hp * parallel),
            q == y / (2 * hp),
    ;
    assert(0 <= q * hp && q * hp + hp <= parallel * hp) by (nonlinear_arith)
        requires
            0 <= q,
            q < parallel,
            0 < hp,
    ;
    assert(parallel * hp == h) by (nonlinear_arith)
        requires
            hp * parallel == h,
    ;
    assert((w / 64) * 32 * 2 == (w / 64) * 64) by (nonlinear_arith);
    assert((w / 64) * 64 <= w) by (nonlinear_arith)
        requires
            0 <= w,
    ;
}

/// Every arrangement mapper is total on its visible rectangle and lands
/// inside the matrix rectangle.
pub proof fn lemma_named_mapper_in_range(m: NamedPixelMapper, w: int, h: int, x: int, y: int)
    requires
        spec_named_geometry_ok(m, w, h),
        0 <= x < spec_named_size(m, w, h).0,
        0 <= y < spec_named_size(m, w, h).1,
    ensures
        0 <= spec_named_map(m, w, h, x, y).0 < w,
        0 <= spec_named_map(m, w, h, x, y).1 < h,
{
    match m {
        NamedPixelMapper::Mirror { .. } => {
        },
        NamedPixelMapper::Rotate { .. } => {
        },
        NamedPixelMapper::UArrange { parallel } => {
            lemma_u_arrange_bounds(w, h, parallel as int, x, y);
            let hp = h / parallel as int;
            assert(x + w / 2 < w);
        },
    }
}

} // verus!
