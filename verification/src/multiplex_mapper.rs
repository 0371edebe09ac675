//! Multiplex mappers: per-panel coordinate scrambles that undo the scan
//! wiring of a physical module.
//!
//! A multiplex mapper stretches the declared geometry (`rows / stretch`,
//! `cols * stretch`) and then maps each visible coordinate within a panel to
//! the matrix coordinate the wiring expects. The per-panel formulas are part
//! of the wire contract of each module type and are stated verbatim as spec
//! functions.

use vstd::prelude::*;
use vstd::string::StringSliceAdditionalSpecFns;
use crate::error::InvalidVariantError;
use crate::utils::str_matches;

verus! {

/// The supported scan patterns.
#[derive(Debug, Clone, Copy, PartialEq, Eq, Hash)]
pub enum MultiplexMapperType {
    Stripe,
    Checkered,
    Spiral,
    ZStripe08,
    ZStripe44,
    ZStripe80,
    Coreman,
    Kaler2Scan,
    P10Z,
    QiangLiQ8,
    InversedZStripe,
    P10Outdoor1R1G1B1,
    P10Outdoor1R1G1B2,
    P10Outdoor1R1G1B3,
    P10Coreman,
    P8Outdoor1R1G1B,
    FlippedStripe,
    P10Outdoor32x16HalfScan,
}

/// One multiplex mapper: the scan pattern plus the panel geometry it was
/// configured with. The Z-stripe patterns carry their two block offsets.
#[derive(Debug, Clone, Copy, PartialEq, Eq, Hash)]
pub struct MultiplexMapper {
    pub kind: MultiplexMapperType,
    pub panel_rows: usize,
    pub panel_cols: usize,
    pub even_vblock_offset: usize,
    pub odd_vblock_offset: usize,
}

impl MultiplexMapperType {
    /// How much this pattern stretches the panel: the declared rows shrink
    /// and the declared columns grow by this factor.
    pub open spec fn spec_stretch_factor(self) -> usize {
        match self {
            MultiplexMapperType::Kaler2Scan => 4usize,
            MultiplexMapperType::P10Z => 4usize,
            MultiplexMapperType::P10Coreman => 4usize,
            MultiplexMapperType::P10Outdoor32x16HalfScan => 4usize,
            _ => 2usize,
        }
    }

    /// The block offsets of the Z-stripe flavors; zero for every other kind.
    pub open spec fn spec_vblock_offsets(self) -> (usize, usize) {
        match self {
            MultiplexMapperType::ZStripe08 => (0usize, 8usize),
            MultiplexMapperType::ZStripe44 => (4usize, 4usize),
            MultiplexMapperType::ZStripe80 => (8usize, 0usize),
            _ => (0usize, 0usize),
        }
    }

    /// Instantiate the mapper for this pattern, with the geometry still
    /// unset.
    pub fn create(self) -> (r: MultiplexMapper)
        ensures
            r.kind == self,
            r.panel_rows == 0,
            r.panel_cols == 0,
            r.even_vblock_offset == self.spec_vblock_offsets().0,
            r.odd_vblock_offset == self.spec_vblock_offsets().1,
    {
        let (even, odd): (usize, usize) = match self {
            MultiplexMapperType::ZStripe08 => (0, 8),
            MultiplexMapperType::ZStripe44 => (4, 4),
            MultiplexMapperType::ZStripe80 => (8, 0),
            _ => (0, 0),
        };
        MultiplexMapper {
            kind: self,
            panel_rows: 0,
            panel_cols: 0,
            even_vblock_offset: even,
            odd_vblock_offset: odd,
        }
    }
}

/// Geometry every mapper needs, plus what the fixed-size patterns demand of
/// the panel they are wired for. The bounds keep all the address arithmetic
/// far away from overflow.
pub open spec fn spec_panel_geometry_ok(m: MultiplexMapper) -> bool {
    &&& 0 < m.panel_rows <= 0x1000_0000
    &&& 0 < m.panel_cols <= 0x1000_0000
    &&& m.even_vblock_offset <= 8
    &&& m.odd_vblock_offset <= 8
    &&& match m.kind {
        MultiplexMapperType::Stripe => m.panel_rows >= 4,
        MultiplexMapperType::FlippedStripe => m.panel_rows >= 4,
        MultiplexMapperType::Checkered => m.panel_rows >= 4 && m.panel_cols >= 2,
        MultiplexMapperType::Spiral => m.panel_rows >= 4 && m.panel_cols >= 4,
        MultiplexMapperType::Coreman => m.panel_rows >= 4 && m.panel_cols >= 2,
        MultiplexMapperType::P10Z => m.panel_rows <= 16 && m.panel_cols <= 32,
        MultiplexMapperType::P8Outdoor1R1G1B => m.panel_rows <= 20 && m.panel_cols <= 40,
        _ => true,
    }
}

/// The scan pattern an exact name selects.
pub open spec fn spec_multiplex_type_of(bytes: Seq<u8>) -> Option<MultiplexMapperType> {
    if bytes =~= seq![83u8, 116u8, 114u8, 105u8, 112u8, 101u8] {
        Some(MultiplexMapperType::Stripe)
    } else if bytes =~= seq![67u8, 104u8, 101u8, 99u8, 107u8, 101u8, 114u8, 101u8, 100u8] {
        Some(MultiplexMapperType::Checkered)
    } else if bytes =~= seq![83u8, 112u8, 105u8, 114u8, 97u8, 108u8] {
        Some(MultiplexMapperType::Spiral)
    } else if bytes =~= seq![90u8, 83u8, 116u8, 114u8, 105u8, 112u8, 101u8, 48u8, 56u8] {
        Some(MultiplexMapperType::ZStripe08)
    } else if bytes =~= seq![90u8, 83u8, 116u8, 114u8, 105u8, 112u8, 101u8, 52u8, 52u8] {
        Some(MultiplexMapperType::ZStripe44)
    } else if bytes =~= seq![90u8, 83u8, 116u8, 114u8, 105u8, 112u8, 101u8, 56u8, 48u8] {
        Some(MultiplexMapperType::ZStripe80)
    } else if bytes =~= seq![67u8, 111u8, 114u8, 101u8, 109u8, 97u8, 110u8] {
        Some(MultiplexMapperType::Coreman)
    } else if bytes =~= seq![75u8, 97u8, 108u8, 101u8, 114u8, 50u8, 83u8, 99u8, 97u8, 110u8] {
        Some(MultiplexMapperType::Kaler2Scan)
    } else if bytes =~= seq![80u8, 49u8, 48u8, 90u8] {
        Some(MultiplexMapperType::P10Z)
    } else if bytes =~= seq![81u8, 105u8, 97u8, 110u8, 103u8, 76u8, 105u8, 81u8, 56u8] {
        Some(MultiplexMapperType::QiangLiQ8)
    } else if bytes =~= seq![73u8, 110u8, 118u8, 101u8, 114u8, 115u8, 101u8, 100u8, 90u8, 83u8, 116u8, 114u8, 105u8, 112u8, 101u8] {
        Some(MultiplexMapperType::InversedZStripe)
    } else if bytes =~= seq![80u8, 49u8, 48u8, 79u8, 117u8, 116u8, 100u8, 111u8, 111u8, 114u8, 49u8, 82u8, 49u8, 71u8, 49u8, 66u8, 49u8] {
        Some(MultiplexMapperType::P10Outdoor1R1G1B1)
    } else if bytes =~= seq![80u8, 49u8, 48u8, 79u8, 117u8, 116u8, 100u8, 111u8, 111u8, 114u8, 49u8, 82u8, 49u8, 71u8, 49u8, 66u8, 50u8] {
        Some(MultiplexMapperType::P10Outdoor1R1G1B2)
    } else if bytes =~= seq![80u8, 49u8, 48u8, 79u8, 117u8, 116u8, 100u8, 111u8, 111u8, 114u8, 49u8, 82u8, 49u8, 71u8, 49u8, 66u8, 51u8] {
        Some(MultiplexMapperType::P10Outdoor1R1G1B3)
    } else if bytes =~= seq![80u8, 49u8, 48u8, 67u8, 111u8, 114u8, 101u8, 109u8, 97u8, 110u8] {
        Some(MultiplexMapperType::P10Coreman)
    } else if bytes =~= seq![80u8, 56u8, 79u8, 117u8, 116u8, 100u8, 111u8, 111u8, 114u8, 49u8, 82u8, 49u8, 71u8, 49u8, 66u8] {
        Some(MultiplexMapperType::P8Outdoor1R1G1B)
    } else if bytes =~= seq![70u8, 108u8, 105u8, 112u8, 112u8, 101u8, 100u8, 83u8, 116u8, 114u8, 105u8, 112u8, 101u8] {
        Some(MultiplexMapperType::FlippedStripe)
    } else if bytes =~= seq![80u8, 49u8, 48u8, 79u8, 117u8, 116u8, 100u8, 111u8, 111u8, 114u8, 51u8, 50u8, 120u8, 49u8, 54u8, 72u8, 97u8, 108u8, 102u8, 83u8, 99u8, 97u8, 110u8] {
        Some(MultiplexMapperType::P10Outdoor32x16HalfScan)
    } else {
        None
    }
}

impl MultiplexMapperType {
    /// Parse a scan pattern name such as `Stripe` or `ZStripe08`.
    pub fn parse(s: &str) -> (r: Result<MultiplexMapperType, InvalidVariantError>)
        ensures
            match spec_multiplex_type_of(s.spec_bytes()) {
                Some(v) => r == Ok::<MultiplexMapperType, InvalidVariantError>(v),
                None => r is Err,
            },
    {
        let n_stripe: Vec<u8> = vec![83, 116, 114, 105, 112, 101];
        let n_checkered: Vec<u8> = vec![67, 104, 101, 99, 107, 101, 114, 101, 100];
        let n_spiral: Vec<u8> = vec![83, 112, 105, 114, 97, 108];
        let n_z_stripe08: Vec<u8> = vec![90, 83, 116, 114, 105, 112, 101, 48, 56];
        let n_z_stripe44: Vec<u8> = vec![90, 83, 116, 114, 105, 112, 101, 52, 52];
        let n_z_stripe80: Vec<u8> = vec![90, 83, 116, 114, 105, 112, 101, 56, 48];
        let n_coreman: Vec<u8> = vec![67, 111, 114, 101, 109, 97, 110];
        let n_kaler2_scan: Vec<u8> = vec![75, 97, 108, 101, 114, 50, 83, 99, 97, 110];
        let n_p10_z: Vec<u8> = vec![80, 49, 48, 90];
        let n_qiang_li_q8: Vec<u8> = vec![81, 105, 97, 110, 103, 76, 105, 81, 56];
        let n_inversed_z_stripe: Vec<u8> = vec![73, 110, 118, 101, 114, 115, 101, 100, 90, 83, 116, 114, 105, 112, 101];
        let n_p10_outdoor1_r1_g1_b1: Vec<u8> = vec![80, 49, 48, 79, 117, 116, 100, 111, 111, 114, 49, 82, 49, 71, 49, 66, 49];
        let n_p10_outdoor1_r1_g1_b2: Vec<u8> = vec![80, 49, 48, 79, 117, 116, 100, 111, 111, 114, 49, 82, 49, 71, 49, 66, 50];
        let n_p10_outdoor1_r1_g1_b3: Vec<u8> = vec![80, 49, 48, 79, 117, 116, 100, 111, 111, 114, 49, 82, 49, 71, 49, 66, 51];
        let n_p10_coreman: Vec<u8> = vec![80, 49, 48, 67, 111, 114, 101, 109, 97, 110];
        let n_p8_outdoor1_r1_g1_b: Vec<u8> = vec![80, 56, 79, 117, 116, 100, 111, 111, 114, 49, 82, 49, 71, 49, 66];
        let n_flipped_stripe: Vec<u8> = vec![70, 108, 105, 112, 112, 101, 100, 83, 116, 114, 105, 112, 101];
        let n_p10_outdoor32x16_half_scan: Vec<u8> = vec![80, 49, 48, 79, 117, 116, 100, 111, 111, 114, 51, 50, 120, 49, 54, 72, 97, 108, 102, 83, 99, 97, 110];
        proof {
            assert(n_stripe@ =~= seq![83u8, 116u8, 114u8, 105u8, 112u8, 101u8]);
            assert(n_checkered@ =~= seq![67u8, 104u8, 101u8, 99u8, 107u8, 101u8, 114u8, 101u8, 100u8]);
            assert(n_spiral@ =~= seq![83u8, 112u8, 105u8, 114u8, 97u8, 108u8]);
            assert(n_z_stripe08@ =~= seq![90u8, 83u8, 116u8, 114u8, 105u8, 112u8, 101u8, 48u8, 56u8]);
            assert(n_z_stripe44@ =~= seq![90u8, 83u8, 116u8, 114u8, 105u8, 112u8, 101u8, 52u8, 52u8]);
            assert(n_z_stripe80@ =~= seq![90u8, 83u8, 116u8, 114u8, 105u8, 112u8, 101u8, 56u8, 48u8]);
            assert(n_coreman@ =~= seq![67u8, 111u8, 114u8, 101u8, 109u8, 97u8, 110u8]);
            assert(n_kaler2_scan@ =~= seq![75u8, 97u8, 108u8, 101u8, 114u8, 50u8, 83u8, 99u8, 97u8, 110u8]);
            assert(n_p10_z@ =~= seq![80u8, 49u8, 48u8, 90u8]);
            assert(n_qiang_li_q8@ =~= seq![81u8, 105u8, 97u8, 110u8, 103u8, 76u8, 105u8, 81u8, 56u8]);
            assert(n_inversed_z_stripe@ =~= seq![73u8, 110u8, 118u8, 101u8, 114u8, 115u8, 101u8, 100u8, 90u8, 83u8, 116u8, 114u8, 105u8, 112u8, 101u8]);
            assert(n_p10_outdoor1_r1_g1_b1@ =~= seq![80u8, 49u8, 48u8, 79u8, 117u8, 116u8, 100u8, 111u8, 111u8, 114u8, 49u8, 82u8, 49u8, 71u8, 49u8, 66u8, 49u8]);
            assert(n_p10_outdoor1_r1_g1_b2@ =~= seq![80u8, 49u8, 48u8, 79u8, 117u8, 116u8, 100u8, 111u8, 111u8, 114u8, 49u8, 82u8, 49u8, 71u8, 49u8, 66u8, 50u8]);
            assert(n_p10_outdoor1_r1_g1_b3@ =~= seq![80u8, 49u8, 48u8, 79u8, 117u8, 116u8, 100u8, 111u8, 111u8, 114u8, 49u8, 82u8, 49u8, 71u8, 49u8, 66u8, 51u8]);
            assert(n_p10_coreman@ =~= seq![80u8, 49u8, 48u8, 67u8, 111u8, 114u8, 101u8, 109u8, 97u8, 110u8]);
            assert(n_p8_outdoor1_r1_g1_b@ =~= seq![80u8, 56u8, 79u8, 117u8, 116u8, 100u8, 111u8, 111u8, 114u8, 49u8, 82u8, 49u8, 71u8, 49u8, 66u8]);
            assert(n_flipped_stripe@ =~= seq![70u8, 108u8, 105u8, 112u8, 112u8, 101u8, 100u8, 83u8, 116u8, 114u8, 105u8, 112u8, 101u8]);
            assert(n_p10_outdoor32x16_half_scan@ =~= seq![80u8, 49u8, 48u8, 79u8, 117u8, 116u8, 100u8, 111u8, 111u8, 114u8, 51u8, 50u8, 120u8, 49u8, 54u8, 72u8, 97u8, 108u8, 102u8, 83u8, 99u8, 97u8, 110u8]);
        }
        if str_matches(s, &n_stripe) {
            Ok(MultiplexMapperType::Stripe)
        } else if str_matches(s, &n_checkered) {
            Ok(MultiplexMapperType::Checkered)
        } else if str_matches(s, &n_spiral) {
            Ok(MultiplexMapperType::Spiral)
        } else if str_matches(s, &n_z_stripe08) {
            Ok(MultiplexMapperType::ZStripe08)
        } else if str_matches(s, &n_z_stripe44) {
            Ok(MultiplexMapperType::ZStripe44)
        } else if str_matches(s, &n_z_stripe80) {
            Ok(MultiplexMapperType::ZStripe80)
        } else if str_matches(s, &n_coreman) {
            Ok(MultiplexMapperType::Coreman)
        } else if str_matches(s, &n_kaler2_scan) {
            Ok(MultiplexMapperType::Kaler2Scan)
        } else if str_matches(s, &n_p10_z) {
            Ok(MultiplexMapperType::P10Z)
        } else if str_matches(s, &n_qiang_li_q8) {
            Ok(MultiplexMapperType::QiangLiQ8)
        } else if str_matches(s, &n_inversed_z_stripe) {
            Ok(MultiplexMapperType::InversedZStripe)
        } else if str_matches(s, &n_p10_outdoor1_r1_g1_b1) {
            Ok(MultiplexMapperType::P10Outdoor1R1G1B1)
        } else if str_matches(s, &n_p10_outdoor1_r1_g1_b2) {
            Ok(MultiplexMapperType::P10Outdoor1R1G1B2)
        } else if str_matches(s, &n_p10_outdoor1_r1_g1_b3) {
            Ok(MultiplexMapperType::P10Outdoor1R1G1B3)
        } else if str_matches(s, &n_p10_coreman) {
            Ok(MultiplexMapperType::P10Coreman)
        } else if str_matches(s, &n_p8_outdoor1_r1_g1_b) {
            Ok(MultiplexMapperType::P8Outdoor1R1G1B)
        } else if str_matches(s, &n_flipped_stripe) {
            Ok(MultiplexMapperType::FlippedStripe)
        } else if str_matches(s, &n_p10_outdoor32x16_half_scan) {
            Ok(MultiplexMapperType::P10Outdoor32x16HalfScan)
        } else {
            Err(
                InvalidVariantError::new(
                    "Stripe Checkered Spiral ZStripe08 ZStripe44 ZStripe80 Coreman Kaler2Scan P10Z QiangLiQ8 InversedZStripe P10Outdoor1R1G1B1 P10Outdoor1R1G1B2 P10Outdoor1R1G1B3 P10Coreman P8Outdoor1R1G1B FlippedStripe P10Outdoor32x16HalfScan".to_owned(),
                ),
            )
        }
    }
}

/// Runtime check of `spec_panel_geometry_ok`.
pub fn panel_geometry_ok(m: &MultiplexMapper) -> (r: bool)
    ensures
        r == spec_panel_geometry_ok(*m),
{
    let basic = 0 < m.panel_rows && m.panel_rows <= 0x1000_0000 && 0 < m.panel_cols
        && m.panel_cols <= 0x1000_0000 && m.even_vblock_offset <= 8 && m.odd_vblock_offset <= 8;
    let specific = match m.kind {
        MultiplexMapperType::Stripe => m.panel_rows >= 4,
        MultiplexMapperType::FlippedStripe => m.panel_rows >= 4,
        MultiplexMapperType::Checkered => m.panel_rows >= 4 && m.panel_cols >= 2,
        MultiplexMapperType::Spiral => m.panel_rows >= 4 && m.panel_cols >= 4,
        MultiplexMapperType::Coreman => m.panel_rows >= 4 && m.panel_cols >= 2,
        MultiplexMapperType::P10Z => m.panel_rows <= 16 && m.panel_cols <= 32,
        MultiplexMapperType::P8Outdoor1R1G1B => m.panel_rows <= 20 && m.panel_cols <= 40,
        _ => true,
    };
    basic && specific
}

/// The per-panel formula of each pattern, over unbounded integers.
pub open spec fn spec_map_single_panel(m: MultiplexMapper, x: int, y: int) -> (int, int) {
    let pr = m.panel_rows as int;
    let pc = m.panel_cols as int;
    match m.kind {
        MultiplexMapperType::Stripe => {
            let top = (y % (pr / 2)) < pr / 4;
            ((if top { x + pc } else { x }), (y / (pr / 2)) * (pr / 4) + y % (pr / 4))
        },
        MultiplexMapperType::FlippedStripe => {
            let top = (y % (pr / 2)) >= pr / 4;
            ((if top { x + pc } else { x }), (y / (pr / 2)) * (pr / 4) + y % (pr / 4))
        },
        MultiplexMapperType::Checkered => {
            let top = (y % (pr / 2)) < pr / 4;
            let left = x < pc / 2;
            let mx = if top {
                if left { x + pc / 2 } else { x + pc }
            } else {
                if left { x } else { x + pc / 2 }
            };
            (mx, (y / (pr / 2)) * (pr / 4) + y % (pr / 4))
        },
        MultiplexMapperType::Spiral => {
            let top = (y % (pr / 2)) < pr / 4;
            let quarter_w = pc / 4;
            let quarter = x / quarter_w;
            let offset = x % quarter_w;
            let mx = 2 * quarter * quarter_w + (if top {
                quarter_w - 1 - offset
            } else {
                quarter_w + offset
            });
            (mx, (y / (pr / 2)) * (pr / 4) + y % (pr / 4))
        },
        MultiplexMapperType::ZStripe08 => spec_z_stripe(m, x, y),
        MultiplexMapperType::ZStripe44 => spec_z_stripe(m, x, y),
        MultiplexMapperType::ZStripe80 => spec_z_stripe(m, x, y),
        MultiplexMapperType::Coreman => {
            let left = x < pc / 2;
            if y <= 7 || (16 <= y && y <= 23) {
                let mx = (x / (pc / 2)) * pc + x % (pc / 2);
                let my = if (y % (pr / 2)) / (pr / 4) == 0 {
                    (y / (pr / 2)) * (pr / 4) + y % (pr / 4)
                } else {
                    0
                };
                (mx, my)
            } else {
                let mx = if left { x + pc / 2 } else { x + pc };
                (mx, (y / (pr / 2)) * (pr / 4) + y % (pr / 4))
            }
        },
        MultiplexMapperType::Kaler2Scan => {
            let reverse = (y % 4) / 2 == 0;
            let delta_column = if (y % 8) / 4 == 0 { 64int } else { 0 };
            let mx = delta_column + 16 * (x / 8) + (if reverse { 7 - x % 8 } else { 8 + x % 8 });
            (mx, y % 2 + (y / 8) * 2)
        },
        MultiplexMapperType::P10Z => {
            let yc = y % 8;
            let y_comp: int = if yc == 0 || yc == 1 { 127 } else if yc == 2 || yc == 3 {
                112
            } else if yc == 4 || yc == 5 { 111 } else { 96 };
            let mx = if yc == 0 || yc == 1 || yc == 4 || yc == 5 {
                y_comp - x - 24 * (x / 8)
            } else {
                y_comp + x - 40 * (x / 8)
            };
            let my: int = if y < 8 {
                (if y % 2 == 0 { 3 } else { 2 })
            } else if y < 16 {
                (if y % 2 == 0 { 1 } else { 0 })
            } else {
                y
            };
            (mx, my)
        },
        MultiplexMapperType::QiangLiQ8 => {
            let mx = if (15 <= y && y <= 19) || (5 <= y && y <= 9) {
                x + 4 * (x / 4)
            } else {
                x + 4 + 4 * (x / 4)
            };
            (mx, y % 5 + (y / 10) * 5)
        },
        MultiplexMapperType::InversedZStripe => {
            let even = (y / 4) % 2 == 0;
            let mx = x + (x / 8) * 8 + (if even { 15 - 2 * (x % 8) } else { 0 });
            (mx, y % 4 + 4 * (y / 8))
        },
        MultiplexMapperType::P10Outdoor1R1G1B1 => {
            let even = (y / 4) % 2 == 0;
            let mx = 8 * (1 + (if even { 1int } else { 0 }) + 2 * (x / 8)) - (x % 8) - 1;
            (mx, y % 4 + 4 * (y / 8))
        },
        MultiplexMapperType::P10Outdoor1R1G1B2 => {
            let even = (y / 4) % 2 == 0;
            let mx = if even {
                8 * (1 + 2 * (x / 8)) - (x % 8) - 1
            } else {
                x + (x / 8) * 8 + 8
            };
            (mx, y % 4 + 4 * (y / 8))
        },
        MultiplexMapperType::P10Outdoor1R1G1B3 => {
            let even = (y / 4) % 2 == 0;
            let mx = if even {
                x + (x / 8) * 8 + 8
            } else {
                8 * (2 + 2 * (x / 8)) - (x % 8) - 1
            };
            (mx, y % 4 + 4 * (y / 8))
        },
        MultiplexMapperType::P10Coreman => {
            let mul_y = (if (y / 4) % 2 == 1 { 0int } else { 8 }) + (if (y / 2) % 2 == 0 {
                1int
            } else {
                0
            }) + 2 * (x / 8);
            (mul_y * 8 + x % 8, y % 2 + 2 * (y / 8))
        },
        MultiplexMapperType::P8Outdoor1R1G1B => {
            let even = (y / 4) % 2 == 0;
            let mx = if even {
                8 * (1 + 8 - 2 * (x / 8)) + 8 - (x % 8) - 1
            } else {
                8 * (1 + 8 - 2 * (x / 8)) - 8 + (x % 8)
            };
            let my = (5 - y % 5) + 5 * (1 - y / 10) - 1;
            (mx, my)
        },
        MultiplexMapperType::P10Outdoor32x16HalfScan => {
            let base = (x / 8) * 32;
            let reverse = (y % 4) / 2 == 0;
            let offset = (3 - (y % 8) / 2) * 8;
            let dx = x % 8;
            let my: int = if y / 8 == 0 {
                (if y % 2 == 0 { 0 } else { 1 })
            } else {
                (if y % 2 == 0 { 2 } else { 3 })
            };
            (base + offset + (if reverse { 7 - dx } else { dx }), my)
        },
    }
}

/// The Z-stripe formula, parameterized over the two block offsets.
pub open spec fn spec_z_stripe(m: MultiplexMapper, x: int, y: int) -> (int, int) {
    let odd = (y / 4) % 2;
    let even_shift = (1 - odd) * (m.even_vblock_offset as int);
    let odd_shift = odd * (m.odd_vblock_offset as int);
    (x + ((x + even_shift) / 8) * 8 + odd_shift, y % 4 + 4 * (y / 8))
}

impl MultiplexMapper {
    /// See `MultiplexMapperType::spec_stretch_factor`.
    pub fn panel_stretch_factor(&self) -> (r: usize)
        ensures
            r == self.kind.spec_stretch_factor(),
    {
        match self.kind {
            MultiplexMapperType::Kaler2Scan => 4,
            MultiplexMapperType::P10Z => 4,
            MultiplexMapperType::P10Coreman => 4,
            MultiplexMapperType::P10Outdoor32x16HalfScan => 4,
            _ => 2,
        }
    }

    /// Record the declared panel geometry, then stretch it: the mapper works
    /// on a matrix with fewer rows and more columns.
    pub fn edit_rows_cols(&mut self, rows: &mut usize, cols: &mut usize)
        requires
            *old(cols) * old(self).kind.spec_stretch_factor() <= usize::MAX,
        ensures
            final(self).panel_rows == *old(rows),
            final(self).panel_cols == *old(cols),
            final(self).kind == old(self).kind,
            final(self).even_vblock_offset == old(self).even_vblock_offset,
            final(self).odd_vblock_offset == old(self).odd_vblock_offset,
            *final(rows) == *old(rows) as int / old(self).kind.spec_stretch_factor() as int,
            *final(cols) == *old(cols) * old(self).kind.spec_stretch_factor(),
    {
        self.panel_rows = *rows;
        self.panel_cols = *cols;
        let stretch = self.panel_stretch_factor();
        *rows = *rows / stretch;
        *cols = *cols * stretch;
    }

    /// The visible size of a matrix of the given (already stretched) size:
    /// the stretch is undone.
    pub fn get_size_mapping(&self, matrix_width: usize, matrix_height: usize) -> (r: [usize; 2])
        requires
            matrix_height * self.kind.spec_stretch_factor() <= usize::MAX,
        ensures
            r[0] == matrix_width as int / self.kind.spec_stretch_factor() as int,
            r[1] == matrix_height * self.kind.spec_stretch_factor(),
    {
        let stretch = self.panel_stretch_factor();
        [matrix_width / stretch, matrix_height * stretch]
    }


    /// Where a visible coordinate within one panel lands on the matrix.
    pub fn map_single_panel(&self, x: usize, y: usize) -> (r: [usize; 2])
        requires
            spec_panel_geometry_ok(*self),
            x < self.panel_cols,
            y < self.panel_rows,
        ensures
            r[0] == spec_map_single_panel(*self, x as int, y as int).0,
            r[1] == spec_map_single_panel(*self, x as int, y as int).1,
    {
        match self.kind {
            MultiplexMapperType::Stripe => self.map_stripe(x, y),
            MultiplexMapperType::FlippedStripe => self.map_flipped_stripe(x, y),
            MultiplexMapperType::Checkered => self.map_checkered(x, y),
            MultiplexMapperType::Spiral => self.map_spiral(x, y),
            MultiplexMapperType::ZStripe08 => self.map_z_stripe(x, y),
            MultiplexMapperType::ZStripe44 => self.map_z_stripe(x, y),
            MultiplexMapperType::ZStripe80 => self.map_z_stripe(x, y),
            MultiplexMapperType::Coreman => self.map_coreman(x, y),
            MultiplexMapperType::Kaler2Scan => self.map_kaler2scan(x, y),
            MultiplexMapperType::P10Z => self.map_p10z(x, y),
            MultiplexMapperType::QiangLiQ8 => self.map_qiangli_q8(x, y),
            MultiplexMapperType::InversedZStripe => self.map_inversed_z_stripe(x, y),
            MultiplexMapperType::P10Outdoor1R1G1B1 => self.map_p10outdoor1(x, y),
            MultiplexMapperType::P10Outdoor1R1G1B2 => self.map_p10outdoor2(x, y),
            MultiplexMapperType::P10Outdoor1R1G1B3 => self.map_p10outdoor3(x, y),
            MultiplexMapperType::P10Coreman => self.map_p10coreman(x, y),
            MultiplexMapperType::P8Outdoor1R1G1B => self.map_p8outdoor(x, y),
            MultiplexMapperType::P10Outdoor32x16HalfScan => self.map_p10halfscan(x, y),
        }
    }

    fn map_stripe(&self, x: usize, y: usize) -> (r: [usize; 2])
        requires
            self.kind == MultiplexMapperType::Stripe,
            spec_panel_geometry_ok(*self),
            x < self.panel_cols,
            y < self.panel_rows,
        ensures
            r[0] == spec_map_single_panel(*self, x as int, y as int).0,
            r[1] == spec_map_single_panel(*self, x as int, y as int).1,
    {
        let pr = self.panel_rows;
        let pc = self.panel_cols;
        let top = (y % (pr / 2)) < pr / 4;
        let mx = if top { x + pc } else { x };
        proof {
            lemma_quartered_row_bound(pr as int, y as int);
        }
        [mx, (y / (pr / 2)) * (pr / 4) + y % (pr / 4)]
    }

    fn map_flipped_stripe(&self, x: usize, y: usize) -> (r: [usize; 2])
        requires
            self.kind == MultiplexMapperType::FlippedStripe,
            spec_panel_geometry_ok(*self),
            x < self.panel_cols,
            y < self.panel_rows,
        ensures
            r[0] == spec_map_single_panel(*self, x as int, y as int).0,
            r[1] == spec_map_single_panel(*self, x as int, y as int).1,
    {
        let pr = self.panel_rows;
        let pc = self.panel_cols;
        let top = (y % (pr / 2)) >= pr / 4;
        let mx = if top { x + pc } else { x };
        proof {
            lemma_quartered_row_bound(pr as int, y as int);
        }
        [mx, (y / (pr / 2)) * (pr / 4) + y % (pr / 4)]
    }

    fn map_checkered(&self, x: usize, y: usize) -> (r: [usize; 2])
        requires
            self.kind == MultiplexMapperType::Checkered,
            spec_panel_geometry_ok(*self),
            x < self.panel_cols,
            y < self.panel_rows,
        ensures
            r[0] == spec_map_single_panel(*self, x as int, y as int).0,
            r[1] == spec_map_single_panel(*self, x as int, y as int).1,
    {
        let pr = self.panel_rows;
        let pc = self.panel_cols;
        let top = (y % (pr / 2)) < pr / 4;
        let left = x < pc / 2;
        let mx = if top {
            if left {
                x + pc / 2
            } else {
                x + pc
            }
        } else {
            if left {
                x
            } else {
                x + pc / 2
            }
        };
        proof {
            lemma_quartered_row_bound(pr as int, y as int);
        }
        [mx, (y / (pr / 2)) * (pr / 4) + y % (pr / 4)]
    }

    fn map_spiral(&self, x: usize, y: usize) -> (r: [usize; 2])
        requires
            self.kind == MultiplexMapperType::Spiral,
            spec_panel_geometry_ok(*self),
            x < self.panel_cols,
            y < self.panel_rows,
        ensures
            r[0] == spec_map_single_panel(*self, x as int, y as int).0,
            r[1] == spec_map_single_panel(*self, x as int, y as int).1,
    {
        let pr = self.panel_rows;
        let pc = self.panel_cols;
        let top = (y % (pr / 2)) < pr / 4;
        let quarter_w = pc / 4;
        let quarter = x / quarter_w;
        let offset = x % quarter_w;
        proof {
            assert(2 * (x as int / (pc as int / 4)) * (pc as int / 4) <= 2 * x as int)
                by (nonlinear_arith)
                requires
                    4 <= pc as int,
                    0 <= x,
            ;
            lemma_quartered_row_bound(pr as int, y as int);
        }
        let mx = 2 * quarter * quarter_w + (if top {
            quarter_w - 1 - offset
        } else {
            quarter_w + offset
        });
        [mx, (y / (pr / 2)) * (pr / 4) + y % (pr / 4)]
    }

    /// The shared Z-stripe body.
    fn map_z_stripe(&self, x: usize, y: usize) -> (r: [usize; 2])
        requires
            x <= 0x1000_0000,
            y <= 0x1000_0000,
            self.even_vblock_offset <= 8,
            self.odd_vblock_offset <= 8,
        ensures
            r[0] == spec_z_stripe(*self, x as int, y as int).0,
            r[1] == spec_z_stripe(*self, x as int, y as int).1,
    {
        let odd: usize = (y / 4) % 2;
        proof {
            assert((1 - odd as int) * self.even_vblock_offset as int <= 8 && 0 <= (1 - odd as int)
                * self.even_vblock_offset as int && odd as int * self.odd_vblock_offset as int <= 8
                && 0 <= odd as int * self.odd_vblock_offset as int) by (nonlinear_arith)
                requires
                    odd as int == 0 || odd as int == 1,
                    0 <= self.even_vblock_offset as int <= 8,
                    0 <= self.odd_vblock_offset as int <= 8,
            ;
        }
        let even_shift = (1 - odd) * self.even_vblock_offset;
        let odd_shift = odd * self.odd_vblock_offset;
        [x + ((x + even_shift) / 8) * 8 + odd_shift, y % 4 + 4 * (y / 8)]
    }

    fn map_coreman(&self, x: usize, y: usize) -> (r: [usize; 2])
        requires
            self.kind == MultiplexMapperType::Coreman,
            spec_panel_geometry_ok(*self),
            x < self.panel_cols,
            y < self.panel_rows,
        ensures
            r[0] == spec_map_single_panel(*self, x as int, y as int).0,
            r[1] == spec_map_single_panel(*self, x as int, y as int).1,
    {
        let pr = self.panel_rows;
        let pc = self.panel_cols;
        let left = x < pc / 2;
        if y <= 7 || (16 <= y && y <= 23) {
            proof {
                let q = x as int / (pc as int / 2);
                assert(q <= 2) by (nonlinear_arith)
                    requires
                        2 <= pc as int,
                        0 <= x < pc as int,
                        q == x as int / (pc as int / 2),
                ;
                assert(q * pc as int <= 2 * pc as int && 0 <= q * pc as int) by (nonlinear_arith)
                    requires
                        0 <= q <= 2,
                        0 <= pc as int,
                ;
                lemma_quartered_row_bound(pr as int, y as int);
            }
            let mx = (x / (pc / 2)) * pc + x % (pc / 2);
            let my = if (y % (pr / 2)) / (pr / 4) == 0 {
                (y / (pr / 2)) * (pr / 4) + y % (pr / 4)
            } else {
                0
            };
            [mx, my]
        } else {
            let mx = if left { x + pc / 2 } else { x + pc };
            proof {
                lemma_quartered_row_bound(pr as int, y as int);
            }
            [mx, (y / (pr / 2)) * (pr / 4) + y % (pr / 4)]
        }
    }

    fn map_kaler2scan(&self, x: usize, y: usize) -> (r: [usize; 2])
        requires
            self.kind == MultiplexMapperType::Kaler2Scan,
            spec_panel_geometry_ok(*self),
            x < self.panel_cols,
            y < self.panel_rows,
        ensures
            r[0] == spec_map_single_panel(*self, x as int, y as int).0,
            r[1] == spec_map_single_panel(*self, x as int, y as int).1,
    {
        let reverse = (y % 4) / 2 == 0;
        let delta_column: usize = if (y % 8) / 4 == 0 { 64 } else { 0 };
        let mx = delta_column + 16 * (x / 8) + (if reverse { 7 - x % 8 } else { 8 + x % 8 });
        [mx, y % 2 + (y / 8) * 2]
    }

    fn map_p10z(&self, x: usize, y: usize) -> (r: [usize; 2])
        requires
            self.kind == MultiplexMapperType::P10Z,
            spec_panel_geometry_ok(*self),
            x < self.panel_cols,
            y < self.panel_rows,
        ensures
            r[0] == spec_map_single_panel(*self, x as int, y as int).0,
            r[1] == spec_map_single_panel(*self, x as int, y as int).1,
    {
        let yc = y % 8;
        let y_comp: usize = if yc == 0 || yc == 1 {
            127
        } else if yc == 2 || yc == 3 {
            112
        } else if yc == 4 || yc == 5 {
            111
        } else {
            96
        };
        let mx = if yc == 0 || yc == 1 || yc == 4 || yc == 5 {
            y_comp - x - 24 * (x / 8)
        } else {
            y_comp + x - 40 * (x / 8)
        };
        let my: usize = if y < 8 {
            if y % 2 == 0 {
                3
            } else {
                2
            }
        } else {
            if y % 2 == 0 {
                1
            } else {
                0
            }
        };
        [mx, my]
    }

    fn map_qiangli_q8(&self, x: usize, y: usize) -> (r: [usize; 2])
        requires
            self.kind == MultiplexMapperType::QiangLiQ8,
            spec_panel_geometry_ok(*self),
            x < self.panel_cols,
            y < self.panel_rows,
        ensures
            r[0] == spec_map_single_panel(*self, x as int, y as int).0,
            r[1] == spec_map_single_panel(*self, x as int, y as int).1,
    {
        let mx = if (15 <= y && y <= 19) || (5 <= y && y <= 9) {
            x + 4 * (x / 4)
        } else {
            x + 4 + 4 * (x / 4)
        };
        [mx, y % 5 + (y / 10) * 5]
    }

    fn map_inversed_z_stripe(&self, x: usize, y: usize) -> (r: [usize; 2])
        requires
            self.kind == MultiplexMapperType::InversedZStripe,
            spec_panel_geometry_ok(*self),
            x < self.panel_cols,
            y < self.panel_rows,
        ensures
            r[0] == spec_map_single_panel(*self, x as int, y as int).0,
            r[1] == spec_map_single_panel(*self, x as int, y as int).1,
    {
        let even = (y / 4) % 2 == 0;
        let mx = x + (x / 8) * 8 + (if even { 15 - 2 * (x % 8) } else { 0 });
        [mx, y % 4 + 4 * (y / 8)]
    }

    fn map_p10outdoor1(&self, x: usize, y: usize) -> (r: [usize; 2])
        requires
            self.kind == MultiplexMapperType::P10Outdoor1R1G1B1,
            spec_panel_geometry_ok(*self),
            x < self.panel_cols,
            y < self.panel_rows,
        ensures
            r[0] == spec_map_single_panel(*self, x as int, y as int).0,
            r[1] == spec_map_single_panel(*self, x as int, y as int).1,
    {
        let even = (y / 4) % 2 == 0;
        let lead: usize = if even { 2 } else { 1 };
        let mx = 8 * (lead + 2 * (x / 8)) - (x % 8) - 1;
        [mx, y % 4 + 4 * (y / 8)]
    }

    fn map_p10outdoor2(&self, x: usize, y: usize) -> (r: [usize; 2])
        requires
            self.kind == MultiplexMapperType::P10Outdoor1R1G1B2,
            spec_panel_geometry_ok(*self),
            x < self.panel_cols,
            y < self.panel_rows,
        ensures
            r[0] == spec_map_single_panel(*self, x as int, y as int).0,
            r[1] == spec_map_single_panel(*self, x as int, y as int).1,
    {
        let even = (y / 4) % 2 == 0;
        let mx = if even {
            8 * (1 + 2 * (x / 8)) - (x % 8) - 1
        } else {
            x + (x / 8) * 8 + 8
        };
        [mx, y % 4 + 4 * (y / 8)]
    }

    fn map_p10outdoor3(&self, x: usize, y: usize) -> (r: [usize; 2])
        requires
            self.kind == MultiplexMapperType::P10Outdoor1R1G1B3,
            spec_panel_geometry_ok(*self),
            x < self.panel_cols,
            y < self.panel_rows,
        ensures
            r[0] == spec_map_single_panel(*self, x as int, y as int).0,
            r[1] == spec_map_single_panel(*self, x as int, y as int).1,
    {
        let even = (y / 4) % 2 == 0;
        let mx = if even {
            x + (x / 8) * 8 + 8
        } else {
            8 * (2 + 2 * (x / 8)) - (x % 8) - 1
        };
        [mx, y % 4 + 4 * (y / 8)]
    }

    fn map_p10coreman(&self, x: usize, y: usize) -> (r: [usize; 2])
        requires
            self.kind == MultiplexMapperType::P10Coreman,
            spec_panel_geometry_ok(*self),
            x < self.panel_cols,
            y < self.panel_rows,
        ensures
            r[0] == spec_map_single_panel(*self, x as int, y as int).0,
            r[1] == spec_map_single_panel(*self, x as int, y as int).1,
    {
        let high: usize = if (y / 4) % 2 == 1 { 0 } else { 8 };
        let low: usize = if (y / 2) % 2 == 0 { 1 } else { 0 };
        let mul_y = high + low + 2 * (x / 8);
        [mul_y * 8 + x % 8, y % 2 + 2 * (y / 8)]
    }

    fn map_p8outdoor(&self, x: usize, y: usize) -> (r: [usize; 2])
        requires
            self.kind == MultiplexMapperType::P8Outdoor1R1G1B,
            spec_panel_geometry_ok(*self),
            x < self.panel_cols,
            y < self.panel_rows,
        ensures
            r[0] == spec_map_single_panel(*self, x as int, y as int).0,
            r[1] == spec_map_single_panel(*self, x as int, y as int).1,
    {
        let even = (y / 4) % 2 == 0;
        let mx = if even {
            8 * (1 + 8 - 2 * (x / 8)) + 8 - (x % 8) - 1
        } else {
            8 * (1 + 8 - 2 * (x / 8)) - 8 + (x % 8)
        };
        let my = (5 - y % 5) + 5 * (1 - y / 10) - 1;
        [mx, my]
    }

    fn map_p10halfscan(&self, x: usize, y: usize) -> (r: [usize; 2])
        requires
            self.kind == MultiplexMapperType::P10Outdoor32x16HalfScan,
            spec_panel_geometry_ok(*self),
            x < self.panel_cols,
            y < self.panel_rows,
        ensures
            r[0] == spec_map_single_panel(*self, x as int, y as int).0,
            r[1] == spec_map_single_panel(*self, x as int, y as int).1,
    {
        let base = (x / 8) * 32;
        let reverse = (y % 4) / 2 == 0;
        let offset = (3 - (y % 8) / 2) * 8;
        let dx = x % 8;
        let my: usize = if y / 8 == 0 {
            if y % 2 == 0 {
                0
            } else {
                1
            }
        } else {
            if y % 2 == 0 {
                2
            } else {
                3
            }
        };
        [base + offset + (if reverse { 7 - dx } else { dx }), my]
    }
}

/// Where a visible coordinate of the whole (chained, parallel) arrangement
/// lands on the matrix: the coordinate within its panel goes through the
/// panel formula, and the panel's own origin is stretched.
pub open spec fn spec_multiplex_map(m: MultiplexMapper, x: int, y: int) -> (int, int) {
    let pc = m.panel_cols as int;
    let pr = m.panel_rows as int;
    let stretch = m.kind.spec_stretch_factor() as int;
    let chained = x / pc;
    let parallel = y / pr;
    let inner = spec_map_single_panel(m, x % pc, y % pr);
    (chained * stretch * pc + inner.0, parallel * pr / stretch + inner.1)
}

/// Coarse bounds on the per-panel formulas, enough to keep the composed
/// coordinate arithmetic inside `usize`.
pub proof fn lemma_map_single_panel_bounds(m: MultiplexMapper, x: int, y: int)
    requires
        spec_panel_geometry_ok(m),
        0 <= x < m.panel_cols,
        0 <= y < m.panel_rows,
    ensures
        spec_map_single_panel(m, x, y).0 <= 4 * x + 4 * (m.panel_cols as int) + 200,
        spec_map_single_panel(m, x, y).1 <= y + (m.panel_rows as int) + 11,
{
    let pc = m.panel_cols as int;
    let pr = m.panel_rows as int;
    match m.kind {
        MultiplexMapperType::Stripe => {
            lemma_quartered_row_bound(pr, y);
        },
        MultiplexMapperType::FlippedStripe => {
            lemma_quartered_row_bound(pr, y);
        },
        MultiplexMapperType::Checkered => {
            lemma_quartered_row_bound(pr, y);
        },
        MultiplexMapperType::Spiral => {
            lemma_quartered_row_bound(pr, y);
            assert(2 * (x / (pc / 4)) * (pc / 4) <= 2 * x) by (nonlinear_arith)
                requires
                    4 <= pc,
                    0 <= x,
            ;
        },
        MultiplexMapperType::Coreman => {
            lemma_quartered_row_bound(pr, y);
            let q = x / (pc / 2);
            assert(q <= 2) by (nonlinear_arith)
                requires
                    2 <= pc,
                    0 <= x < pc,
                    q == x / (pc / 2),
            ;
            assert(q * pc <= 2 * pc) by (nonlinear_arith)
                requires
                    0 <= q <= 2,
                    0 <= pc,
            ;
        },
        MultiplexMapperType::ZStripe08 => {
            lemma_z_stripe_bounds(m, x, y);
        },
        MultiplexMapperType::ZStripe44 => {
            lemma_z_stripe_bounds(m, x, y);
        },
        MultiplexMapperType::ZStripe80 => {
            lemma_z_stripe_bounds(m, x, y);
        },
        _ => {
        },
    }
}

/// The Z-stripe shifts are at most eight columns each.
proof fn lemma_z_stripe_bounds(m: MultiplexMapper, x: int, y: int)
    requires
        m.even_vblock_offset <= 8,
        m.odd_vblock_offset <= 8,
        0 <= x,
        0 <= y,
    ensures
        spec_z_stripe(m, x, y).0 <= 2 * x + 24,
        spec_z_stripe(m, x, y).1 <= y + 3,
{
    let odd = (y / 4) % 2;
    let es = (1 - odd) * (m.even_vblock_offset as int);
    let os = odd * (m.odd_vblock_offset as int);
    assert(0 <= es <= 8 && 0 <= os <= 8) by (nonlinear_arith)
        requires
            odd == 0 || odd == 1,
            0 <= m.even_vblock_offset as int <= 8,
            0 <= m.odd_vblock_offset as int <= 8,
            es == (1 - odd) * (m.even_vblock_offset as int),
            os == odd * (m.odd_vblock_offset as int),
    ;
    assert(((x + es) / 8) * 8 <= x + es) by (nonlinear_arith)
        requires
            0 <= x + es,
    ;
    assert(4 * (y / 8) <= y) by (nonlinear_arith)
        requires
            0 <= y,
    ;
}

/// The stripe-family patterns are total on the panel they are declared for
/// and land inside the stretched panel rectangle: the column stays below
/// twice the declared width and the row below half the declared height.
/// The patterns wired to fixed panel sizes have no such bound for other
/// geometries, so they are not covered here.
pub proof fn lemma_stripe_family_in_range(m: MultiplexMapper, x: int, y: int)
    requires
        spec_panel_geometry_ok(m),
        m.kind == MultiplexMapperType::Stripe || m.kind == MultiplexMapperType::FlippedStripe
            || m.kind == MultiplexMapperType::Checkered,
        m.panel_rows % 4 == 0,
        0 <= x < m.panel_cols,
        0 <= y < m.panel_rows,
    ensures
        0 <= spec_map_single_panel(m, x, y).0 < 2 * m.panel_cols,
        0 <= spec_map_single_panel(m, x, y).1 < m.panel_rows as int / 2,
{
    let pr = m.panel_rows as int;
    let pc = m.panel_cols as int;
    lemma_quartered_row_bound(pr, y);
    assert(y / (pr / 2) <= 1 && (y / (pr / 2)) * (pr / 4) <= pr / 4 && pr / 4 + pr / 4 == pr / 2)
        by (nonlinear_arith)
        requires
            4 <= pr,
            pr % 4 == 0,
            0 <= y < pr,
    ;
}

/// The panel origin of a chained panel stays proportional to the visible
/// coordinate.
proof fn lemma_chained_origin_bound(x: int, pc: int, stretch: int)
    requires
        0 < pc,
        0 <= x,
        0 <= stretch <= 4,
    ensures
        0 <= (x / pc) * stretch * pc <= 4 * x,
{
    let q = x / pc;
    assert(0 <= q * stretch * pc <= 4 * x) by (nonlinear_arith)
        requires
            0 < pc,
            0 <= x,
            0 <= stretch <= 4,
            q == x / pc,
    ;
}

impl MultiplexMapper {
    /// Where a visible coordinate of the whole arrangement lands on the
    /// matrix.
    pub fn map_visible_to_matrix(
        &self,
        matrix_width: usize,
        matrix_height: usize,
        visible_x: usize,
        visible_y: usize,
    ) -> (r: [usize; 2])
        requires
            spec_panel_geometry_ok(*self),
            visible_x <= 0x1000_0000,
            visible_y <= 0x4000_0000,
        ensures
            r[0] == spec_multiplex_map(*self, visible_x as int, visible_y as int).0,
            r[1] == spec_multiplex_map(*self, visible_x as int, visible_y as int).1,
    {
        let chained_panel = visible_x / self.panel_cols;
        let parallel_panel = visible_y / self.panel_rows;
        let within_panel_x = visible_x % self.panel_cols;
        let within_panel_y = visible_y % self.panel_rows;
        let inner = self.map_single_panel(within_panel_x, within_panel_y);
        proof {
            lemma_map_single_panel_bounds(
                *self,
                within_panel_x as int,
                within_panel_y as int,
            );
            lemma_chained_origin_bound(
                visible_x as int,
                self.panel_cols as int,
                self.kind.spec_stretch_factor() as int,
            );
            assert(0 <= (visible_y as int / self.panel_rows as int) * (self.panel_rows as int)
                <= visible_y as int) by (nonlinear_arith)
                requires
                    0 < self.panel_rows as int,
                    0 <= visible_y as int,
            ;
        }
        let stretch = self.panel_stretch_factor();
        let matrix_x = chained_panel * stretch * self.panel_cols + inner[0];
        let matrix_y = parallel_panel * self.panel_rows / stretch + inner[1];
        [matrix_x, matrix_y]
    }
}

/// For a panel of `pr` rows, the folded row index stays below the row count:
/// the product of the half-row quotient and the quarter height is bounded by
/// the row itself.
proof fn lemma_quartered_row_bound(pr: int, y: int)
    requires
        4 <= pr,
        0 <= y,
    ensures
        0 <= (y / (pr / 2)) * (pr / 4) <= y,
{
    assert((y / (pr / 2)) * (pr / 4) <= y && 0 <= (y / (pr / 2)) * (pr / 4)) by (nonlinear_arith)
        requires
            4 <= pr,
            0 <= y,
    ;
}

} // verus!
