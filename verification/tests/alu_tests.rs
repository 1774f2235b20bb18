use gbcore::alu::{alu_add, alu_adc, alu_add16};

#[test]
fn add_matches_reference_formulas_exhaustively() {
    for lhs in 0..=255u16 {
        for rhs in 0..=255u16 {
            let l = lhs as u8;
            let r = rhs as u8;
            let (value, carry, half) = alu_add(l, r);
            let wide = lhs + rhs;
            assert_eq!(value, (wide % 0x100) as u8);
            assert_eq!(carry, wide > 0xFF);
            assert_eq!(half, (l & 0xF) as u16 + (r & 0xF) as u16 & 0x10 == 0x10);
        }
    }
}

#[test]
fn adc_includes_carry_in() {
    assert_eq!(alu_adc(0x0F, 0x00, true), (0x10, false, true));
    assert_eq!(alu_adc(0xFF, 0x00, true), (0x00, true, true));
    assert_eq!(alu_adc(0x10, 0x2F, false), (0x3F, false, false));
    assert_eq!(alu_adc(0xFF, 0xFF, true), (0xFF, true, true));
}

#[test]
fn add16_carries_out_of_bit_15() {
    // the pair half-carry follows the second-nibble formula, which stays
    // clear here: 0xF + 0x0 does not pass 0xF
    assert_eq!(alu_add16(0xFFFF, 0x0001), (0x0000, true, false));
    assert_eq!(alu_add16(0x1234, 0x0111), (0x1345, false, false));
    // the pair half-carry tests the second nibbles alone
    assert_eq!(alu_add16(0x0090, 0x0090), (0x0120, false, true));
}
