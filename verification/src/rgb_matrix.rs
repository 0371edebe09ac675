//! The pure build stage of a matrix controller: validating the
//! configuration and running the pixel-mapping pipeline to the shared
//! designator map. The threads, channels and memory maps around it live
//! outside this crate.

use vstd::prelude::*;
use crate::canvas::{spec_designator_at, PixelDesignator, PixelDesignatorMap};
use crate::config::RGBMatrixConfig;
use crate::error::MatrixCreationError;
use crate::multiplex_mapper::panel_geometry_ok;
use crate::named_pixel_mapper::NamedPixelMapper;
use crate::pixel_mapper::{apply_pixel_mapper, spec_mapper_size, PixelMapper};

verus! {

/// The per-frame floors of the time-dithered planes, by frame number
/// modulo four; the dither depth must be zero, one or two.
pub fn dither_start_bits(dither_bits: usize) -> (r: Result<Vec<usize>, MatrixCreationError>)
    ensures
        dither_bits == 0 ==> (r matches Ok(v) && v@ =~= seq![0usize, 0usize, 0usize, 0usize]),
        dither_bits == 1 ==> (r matches Ok(v) && v@ =~= seq![0usize, 1usize, 0usize, 1usize]),
        dither_bits == 2 ==> (r matches Ok(v) && v@ =~= seq![0usize, 1usize, 2usize, 2usize]),
        dither_bits > 2 ==> r == Err::<Vec<usize>, MatrixCreationError>(
            MatrixCreationError::InvalidDitherBits(dither_bits),
        ),
{
    let mut v: Vec<usize> = Vec::new();
    if dither_bits == 0 {
        v.push(0);
        v.push(0);
        v.push(0);
        v.push(0);
        proof {
            assert(v@ =~= seq![0usize, 0usize, 0usize, 0usize]);
        }
        Ok(v)
    } else if dither_bits == 1 {
        v.push(0);
        v.push(1);
        v.push(0);
        v.push(1);
        proof {
            assert(v@ =~= seq![0usize, 1usize, 0usize, 1usize]);
        }
        Ok(v)
    } else if dither_bits == 2 {
        v.push(0);
        v.push(1);
        v.push(2);
        v.push(2);
        proof {
            assert(v@ =~= seq![0usize, 1usize, 2usize, 2usize]);
        }
        Ok(v)
    } else {
        Err(MatrixCreationError::InvalidDitherBits(dither_bits))
    }
}

/// Whether a mapping stage keeps the designator map inside the sizes this
/// crate's address arithmetic is proven for.
fn stage_size_ok(config: &RGBMatrixConfig, new_width: usize, new_height: usize) -> (r: bool)
    requires
        config.rows <= 0x1000_0000,
        0 < config.spec_double_rows(),
    ensures
        r == {
            &&& 0 < new_width <= 0x1000_0000
            &&& 0 < new_height <= 0x1000_0000
            &&& new_width * new_height <= 0x1000_0000
            &&& config.rows as int * 6 >= new_height
            &&& config.spec_double_rows() * (new_width as int * 11) <= usize::MAX
        },
{
    if new_width == 0 || new_width > 0x1000_0000 || new_height == 0 || new_height > 0x1000_0000 {
        proof {
            assert(0 < new_width <= 0x1000_0000 ==> !(new_width == 0 || new_width > 0x1000_0000));
        }
        return false;
    }
    proof {
        assert((new_width as u64) as int * (new_height as u64) as int <= 0x1000_0000
            * 0x1000_0000) by (nonlinear_arith)
            requires
                0 <= (new_width as u64) as int <= 0x1000_0000,
                0 <= (new_height as u64) as int <= 0x1000_0000,
        ;
    }
    let wh = (new_width as u64) * (new_height as u64);
    if wh > 0x1000_0000 {
        return false;
    }
    let rows6 = (config.rows as u64) * 6;
    if rows6 < new_height as u64 {
        return false;
    }
    let dr = config.double_rows();
    proof {
        assert((dr as u64) as int * ((new_width as u64) as int * 11) <= 0x1000_0000 * (0x1000_0000
            * 11)) by (nonlinear_arith)
            requires
                0 <= (dr as u64) as int <= 0x1000_0000,
                0 <= (new_width as u64) as int <= 0x1000_0000,
        ;
    }
    let span = (dr as u64) * ((new_width as u64) * 11);
    if span > usize::MAX as u64 {
        return false;
    }
    true
}

/// Build the shared designator map of a configuration: validate the
/// parallel-chain count, let the multiplex mapper re-shape the declared
/// geometry, build the fresh map and push it through every mapping stage.
/// A stage that would leave the matrix rectangle, or grow the map beyond
/// the sizes the address arithmetic covers, is rejected.
pub fn build_designator_map(config: &mut RGBMatrixConfig) -> (r: Result<
    PixelDesignatorMap,
    MatrixCreationError,
>)
    requires
        2 <= old(config).rows <= 0x1_0000,
        0 < old(config).cols,
        0 < old(config).chain_length,
        old(config).cols * old(config).chain_length <= 0x0400_0000,
        0 < old(config).parallel <= 6,
        old(config).rows * old(config).parallel <= 0x1000_0000,
    ensures
        match r {
            Ok(map) => {
                &&& map.wf_for(
                    (final(config).cols * final(config).chain_length) as int,
                    final(config).spec_double_rows(),
                )
                &&& 0 < map.width <= 0x1000_0000
                &&& 0 < map.height <= 0x1000_0000
                &&& 0 < final(config).spec_double_rows()
                &&& 0 < final(config).cols * final(config).chain_length <= 0x1000_0000
                &&& final(config).spec_double_rows() * ((final(config).cols
                    * final(config).chain_length) as int * 11) <= usize::MAX
                &&& old(config).parallel <= old(
                    config,
                ).hardware_mapping.spec_max_parallel_chains()
                &&& (old(config).multiplexing is None && old(config).pixelmapper@.len() == 0
                    ==> {
                    &&& *final(config) == *old(config)
                    &&& map.width == old(config).cols * old(config).chain_length
                    &&& map.height == old(config).rows * old(config).parallel
                    &&& forall|x: int, y: int|
                        0 <= x < map.width && 0 <= y < map.height ==> map.buffer@[y * map.width
                            + x] == spec_designator_at(*old(config), map.width as int, x, y)
                })
            },
            Err(e) => {
                e is TooManyParallelChains || e is PixelMapperError
            },
        },
        (old(config).parallel <= old(config).hardware_mapping.spec_max_parallel_chains() && old(
            config,
        ).multiplexing is None && old(config).pixelmapper@.len() == 0 && old(config).cols * old(
            config,
        ).chain_length <= 0x1000_0000 && old(config).rows * old(config).parallel <= 0x1000_0000
            && (old(config).cols * old(config).chain_length) * (old(config).rows * old(
            config,
        ).parallel) <= 0x1000_0000 && old(config).spec_double_rows() * ((old(config).cols * old(
            config,
        ).chain_length) as int * 11) <= usize::MAX) ==> r is Ok,
{
    let max_parallel = config.hardware_mapping.max_parallel_chains();
    if config.parallel > max_parallel {
        return Err(MatrixCreationError::TooManyParallelChains(max_parallel));
    }
    // The multiplexer might choose a different physical layout; configure
    // that first.
    let multiplex_mapper = match config.multiplexing {
        Some(mapper_type) => {
            let mut mapper = mapper_type.create();
            let mut rows = config.rows;
            let mut cols = config.cols;
            proof {
                assert(cols as int <= cols as int * config.chain_length as int)
                    by (nonlinear_arith)
                    requires
                        0 < config.chain_length as int,
                        0 <= cols as int,
                ;
                assert(cols as int * 4 <= 0x0400_0000 * 4) by (nonlinear_arith)
                    requires
                        0 <= cols as int <= 0x0400_0000,
                ;
                assert(cols as int * mapper.kind.spec_stretch_factor() as int <= cols as int * 4)
                    by (nonlinear_arith)
                    requires
                        0 <= cols as int,
                        mapper.kind.spec_stretch_factor() as int <= 4,
                ;
            }
            let ghost rows0 = old(config).rows as int;
            let ghost cols0 = old(config).cols as int;
            let ghost chain0 = config.chain_length as int;
            let ghost stretch0 = mapper.kind.spec_stretch_factor() as int;
            mapper.edit_rows_cols(&mut rows, &mut cols);
            proof {
                assert(rows as int <= rows0) by (nonlinear_arith)
                    requires
                        rows as int == rows0 / stretch0,
                        2 <= stretch0,
                        0 <= rows0,
                ;
                assert(cols as int * chain0 == (cols0 * stretch0) * chain0);
                assert((cols0 * stretch0) * chain0 == (cols0 * chain0) * stretch0)
                    by (nonlinear_arith);
                assert((cols0 * chain0) * stretch0 <= 0x0400_0000 * 4) by (nonlinear_arith)
                    requires
                        0 <= cols0 * chain0 <= 0x0400_0000,
                        0 <= stretch0 <= 4,
                ;
                assert(0 < cols as int) by (nonlinear_arith)
                    requires
                        cols as int == cols0 * stretch0,
                        0 < cols0,
                        2 <= stretch0,
                ;
                assert(cols as int <= cols as int * chain0) by (nonlinear_arith)
                    requires
                        0 < chain0,
                        0 <= cols as int,
                ;
            }
            config.rows = rows;
            config.cols = cols;
            if !panel_geometry_ok(&mapper) {
                return Err(
                    MatrixCreationError::PixelMapperError(
                        "the multiplex mapper does not fit the declared panel geometry".to_owned(),
                    ),
                );
            }
            if config.rows < 2 {
                return Err(
                    MatrixCreationError::PixelMapperError(
                        "the multiplex mapper leaves no double-row to drive".to_owned(),
                    ),
                );
            }
            Some(mapper)
        },
        None => None,
    };
    let pixel_designator = PixelDesignator::new(&config.hardware_mapping, config.led_sequence);
    proof {
        assert(0 < config.cols as int * config.chain_length as int) by (nonlinear_arith)
            requires
                0 < config.cols as int,
                0 < config.chain_length as int,
        ;
        let rows_now = config.rows as int;
        let rows_start = old(config).rows as int;
        let par = config.parallel as int;
        assert(rows_now * par <= rows_start * par) by (nonlinear_arith)
            requires
                0 <= rows_now <= rows_start,
                0 < par,
        ;
        assert(0 < config.rows as int * config.parallel as int) by (nonlinear_arith)
            requires
                0 < config.rows as int,
                0 < config.parallel as int,
        ;
    }
    let width = config.cols * config.chain_length;
    let height = config.rows * config.parallel;
    if !stage_size_ok(config, width, height) {
        return Err(
            MatrixCreationError::PixelMapperError(
                "the display is larger than this driver supports".to_owned(),
            ),
        );
    }
    proof {
        assert(height as int <= config.rows as int * 6) by (nonlinear_arith)
            requires
                0 < config.parallel <= 6,
                height as int == config.rows as int * config.parallel as int,
                0 <= config.rows as int,
        ;
    }
    let mut shared_mapper = PixelDesignatorMap::new(pixel_designator, width, height, config);
    let ghost phys_cols = width as int;
    let ghost phys_dr = config.spec_double_rows();
    // Apply the panel-level mapping first.
    if let Some(mapper) = multiplex_mapper {
        let stage = PixelMapper::Multiplex(mapper);
        let size = match stage.get_size_mapping(shared_mapper.width(), shared_mapper.height()) {
            Ok(size) => size,
            Err(e) => {
                return Err(e);
            },
        };
        if !stage_size_ok(config, size[0], size[1]) {
            return Err(
                MatrixCreationError::PixelMapperError(
                    "the display is larger than this driver supports".to_owned(),
                ),
            );
        }
        shared_mapper = match apply_pixel_mapper(
            &shared_mapper,
            &stage,
            config,
            pixel_designator,
            Ghost(phys_cols),
            Ghost(phys_dr),
        ) {
            Ok(m) => m,
            Err(e) => {
                return Err(e);
            },
        };
    }
    // Apply the higher-level mappers that arrange whole panels.
    let ghost cfg = *config;
    let ghost map0 = shared_mapper;
    let mut i: usize = 0;
    while i < config.pixelmapper.len()
        invariant
            *config == cfg,
            cfg.pixelmapper@ == old(config).pixelmapper@,
            0 <= i <= config.pixelmapper.len(),
            cfg.pixelmapper@.len() == 0 ==> shared_mapper == map0,
            shared_mapper.wf_for(phys_cols, phys_dr),
            0 < shared_mapper.width <= 0x1000_0000,
            0 < shared_mapper.height <= 0x1000_0000,
            phys_cols == config.cols * config.chain_length,
            phys_dr == config.spec_double_rows(),
            0 < phys_dr,
            config.rows <= 0x1_0000,
            0 < config.parallel <= 6,
            0 < phys_cols <= 0x1000_0000,
            phys_dr * (phys_cols * 11) <= usize::MAX,
        decreases config.pixelmapper.len() - i,
    {
        let mapper_type = config.pixelmapper[i];
        let named = match mapper_type.create(config.chain_length, config.parallel) {
            Ok(n) => n,
            Err(e) => {
                return Err(e);
            },
        };
        let angle_ok = match named {
            NamedPixelMapper::Rotate { angle } => angle == 0 || angle == 90 || angle == 180
                || angle == 270,
            _ => true,
        };
        if !angle_ok {
            return Err(
                MatrixCreationError::PixelMapperError(
                    "a rotation must be a multiple of ninety degrees".to_owned(),
                ),
            );
        }
        let stage = PixelMapper::Named(named);
        let size = match stage.get_size_mapping(shared_mapper.width(), shared_mapper.height()) {
            Ok(size) => size,
            Err(e) => {
                return Err(e);
            },
        };
        if !stage_size_ok(config, size[0], size[1]) {
            return Err(
                MatrixCreationError::PixelMapperError(
                    "the display is larger than this driver supports".to_owned(),
                ),
            );
        }
        proof {
            let h = shared_mapper.height as int;
            match stage {
                PixelMapper::Named(NamedPixelMapper::UArrange { parallel }) => {
                    assert(h % parallel as int == 0);
                    assert(h / parallel as int > 0) by (nonlinear_arith)
                        requires
                            0 < h,
                            0 < parallel as int,
                            h % parallel as int == 0,
                    ;
                },
                _ => {
                },
            }
        }
        shared_mapper = match apply_pixel_mapper(
            &shared_mapper,
            &stage,
            config,
            pixel_designator,
            Ghost(phys_cols),
            Ghost(phys_dr),
        ) {
            Ok(m) => m,
            Err(e) => {
                return Err(e);
            },
        };
        i = i + 1;
    }
    Ok(shared_mapper)
}

} // verus!
