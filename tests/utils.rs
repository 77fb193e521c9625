use lc3emu::utils::{extend_sign, extract_dr, extract_offset9, extract_sr1};

#[test]
fn sign_extend_negative_five_bit() {
    assert_eq!(extend_sign(0b11111, 5), 0xFFFF);
    assert_eq!(extend_sign(0b10000, 5), 0xFFF0);
}

#[test]
fn sign_extend_positive_five_bit() {
    assert_eq!(extend_sign(0b01111, 5), 0x000F);
    assert_eq!(extend_sign(0, 5), 0);
}

#[test]
fn sign_extend_six_and_nine_bit() {
    assert_eq!(extend_sign(0x20, 6), 0xFFE0);
    assert_eq!(extend_sign(0x1F, 6), 0x001F);
    assert_eq!(extend_sign(0x100, 9), 0xFF00);
    assert_eq!(extend_sign(0x1FF, 9), 0xFFFF);
    assert_eq!(extend_sign(0x0FF, 9), 0x00FF);
}

#[test]
fn sign_extend_edge_widths() {
    assert_eq!(extend_sign(1, 1), 0xFFFF);
    assert_eq!(extend_sign(0, 1), 0);
    assert_eq!(extend_sign(0x4000, 15), 0xC000);
    assert_eq!(extend_sign(0x8001, 16), 0x8001);
}

#[test]
fn sign_extend_keeps_low_bits_and_copies_top_bit() {
    for n in 1u8..16 {
        for x in 0u16..(1u16 << n) {
            let r = extend_sign(x, n);
            let low = (1u16 << n) - 1;
            assert_eq!(r & low, x);
            let top = (x >> (n - 1)) & 1;
            let high = r >> n;
            if top == 1 {
                assert_eq!(high, 0xFFFF >> n);
            } else {
                assert_eq!(high, 0);
            }
        }
    }
}

#[test]
fn field_extraction() {
    // ADD R3, R5, R7
    let instruction: u16 = 0b0001_011_101_000_111;
    assert_eq!(extract_dr(instruction), 3);
    assert_eq!(extract_sr1(instruction), 5);
    assert_eq!(extract_offset9(0xFFFF), 0x1FF);
    assert_eq!(extract_offset9(0x2E05), 0x005);
}
