use rpi_led_panels::{
    MatrixCreationError, MultiplexMapperType, NamedPixelMapper, NamedPixelMapperType,
};

#[test]
fn rotate_ninety_sends_the_top_row_to_the_last_column() {
    // A 64x64 matrix turned by 90 degrees: visible (5, 0) drives (w-1, 5).
    let mapper = NamedPixelMapper::Rotate { angle: 90 };
    assert_eq!(mapper.get_size_mapping(64, 64).unwrap(), [64, 64]);
    assert_eq!(mapper.map_visible_to_matrix(64, 64, 5, 0), [63, 5]);
}

#[test]
fn mirror_horizontal_flips_the_column() {
    // Width 64: visible (10, y) drives (53, y).
    let mapper = NamedPixelMapper::Mirror { horizontal: true };
    for y in 0..32 {
        assert_eq!(mapper.map_visible_to_matrix(64, 32, 10, y), [53, y]);
    }
}

#[test]
fn mirror_vertical_flips_the_row() {
    let mapper = NamedPixelMapper::Mirror { horizontal: false };
    assert_eq!(mapper.map_visible_to_matrix(64, 32, 10, 0), [10, 31]);
}

#[test]
fn u_arrangement_folds_a_chain_of_four_panels() {
    // Four 32x32 panels in one chain: the matrix is 128x32 and shows as
    // 64x64. Visible (0,0) drives (w/2, 0); visible (0,32) drives the end
    // of the folded row.
    let mapper = NamedPixelMapperType::UMapper.create(4, 1).unwrap();
    assert_eq!(mapper.get_size_mapping(128, 32).unwrap(), [64, 64]);
    assert_eq!(mapper.map_visible_to_matrix(128, 32, 0, 0), [64, 0]);
    assert_eq!(mapper.map_visible_to_matrix(128, 32, 0, 32), [63, 31]);
}

#[test]
fn u_arrangement_needs_an_even_chain_of_at_least_two() {
    assert!(matches!(
        NamedPixelMapperType::UMapper.create(1, 1),
        Err(MatrixCreationError::PixelMapperError(_))
    ));
    assert!(matches!(
        NamedPixelMapperType::UMapper.create(3, 1),
        Err(MatrixCreationError::PixelMapperError(_))
    ));
    assert!(NamedPixelMapperType::UMapper.create(2, 1).is_ok());
}

#[test]
fn arrangement_mappers_stay_inside_the_matrix() {
    let w = 64;
    let h = 32;
    let mappers = [
        NamedPixelMapper::Mirror { horizontal: true },
        NamedPixelMapper::Mirror { horizontal: false },
        NamedPixelMapper::Rotate { angle: 0 },
        NamedPixelMapper::Rotate { angle: 180 },
    ];
    for mapper in mappers.iter() {
        let size = mapper.get_size_mapping(w, h).unwrap();
        for y in 0..size[1] {
            for x in 0..size[0] {
                let m = mapper.map_visible_to_matrix(w, h, x, y);
                assert!(m[0] < w && m[1] < h);
            }
        }
    }
    let rotate = NamedPixelMapper::Rotate { angle: 90 };
    let size = rotate.get_size_mapping(w, h).unwrap();
    assert_eq!(size, [h, w]);
    for y in 0..size[1] {
        for x in 0..size[0] {
            let m = rotate.map_visible_to_matrix(w, h, x, y);
            assert!(m[0] < w && m[1] < h);
        }
    }
}

#[test]
fn stripe_multiplexing_halves_the_rows_and_doubles_the_columns() {
    let mut mapper = MultiplexMapperType::Stripe.create();
    let mut rows = 32;
    let mut cols = 32;
    mapper.edit_rows_cols(&mut rows, &mut cols);
    assert_eq!((rows, cols), (16, 64));
    assert_eq!(mapper.get_size_mapping(64, 16), [32, 32]);
    // Top stripe rows move right by one panel width.
    assert_eq!(mapper.map_single_panel(3, 0), [3 + 32, 0]);
    assert_eq!(mapper.map_single_panel(3, 8), [3, 0]);
}

#[test]
fn z_stripe_shifts_odd_blocks() {
    let mut mapper = MultiplexMapperType::ZStripe08.create();
    let mut rows = 16;
    let mut cols = 32;
    mapper.edit_rows_cols(&mut rows, &mut cols);
    // Even vertical block: no shift beyond the tile fold.
    assert_eq!(mapper.map_single_panel(0, 0), [0, 0]);
    // Odd vertical block: shifted by eight columns.
    assert_eq!(mapper.map_single_panel(0, 4), [8, 0]);
}

#[test]
fn whole_arrangement_composes_chained_and_parallel_panels() {
    let mut mapper = MultiplexMapperType::Stripe.create();
    let mut rows = 32;
    let mut cols = 32;
    mapper.edit_rows_cols(&mut rows, &mut cols);
    // Second chained panel: its origin moves by the stretched panel width.
    let m = mapper.map_visible_to_matrix(64, 16, 32 + 3, 0);
    assert_eq!(m, [2 * 32 + 3 + 32, 0]);
}

#[test]
fn mapper_names_parse_to_their_mappers() {
    assert_eq!(
        NamedPixelMapperType::parse("Mirror:H").unwrap(),
        NamedPixelMapperType::Mirror(true)
    );
    assert_eq!(
        NamedPixelMapperType::parse("Mirror:v").unwrap(),
        NamedPixelMapperType::Mirror(false)
    );
    assert_eq!(
        NamedPixelMapperType::parse("Rotate:90").unwrap(),
        NamedPixelMapperType::Rotate(90)
    );
    assert_eq!(
        NamedPixelMapperType::parse("Rotate:450").unwrap(),
        NamedPixelMapperType::Rotate(90)
    );
    assert_eq!(
        NamedPixelMapperType::parse("U-mapper").unwrap(),
        NamedPixelMapperType::UMapper
    );
    assert!(NamedPixelMapperType::parse("Rotate:45").is_err());
    assert!(NamedPixelMapperType::parse("Rotate:").is_err());
    assert!(NamedPixelMapperType::parse("Mirror:X").is_err());
    assert!(NamedPixelMapperType::parse("Swirl").is_err());
}

#[test]
fn scan_pattern_names_parse_to_their_patterns() {
    assert_eq!(
        MultiplexMapperType::parse("Stripe").unwrap(),
        MultiplexMapperType::Stripe
    );
    assert_eq!(
        MultiplexMapperType::parse("ZStripe44").unwrap(),
        MultiplexMapperType::ZStripe44
    );
    assert_eq!(
        MultiplexMapperType::parse("P10Outdoor32x16HalfScan").unwrap(),
        MultiplexMapperType::P10Outdoor32x16HalfScan
    );
    assert!(MultiplexMapperType::parse("stripe").is_err());
    assert!(MultiplexMapperType::parse("ZStripe").is_err());
}
