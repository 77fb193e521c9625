use lc3emu::loader::load_image;
use lc3emu::mem::Memory;

#[test]
fn empty_image_has_no_origin() {
    let mut m = Memory::new();
    assert_eq!(load_image(&mut m, &vec![]), None);
    assert_eq!(load_image(&mut m, &vec![0x30]), None);
    assert_eq!(m.read_word(0x3000), 0);
}

#[test]
fn words_are_big_endian_from_origin() {
    let mut m = Memory::new();
    let image: Vec<u8> = vec![0x40, 0x00, 0x12, 0x34, 0xAB, 0xCD, 0x77];
    assert_eq!(load_image(&mut m, &image), Some(0x4000));
    assert_eq!(m.read_word(0x4000), 0x1234);
    assert_eq!(m.read_word(0x4001), 0xABCD);
    assert_eq!(m.read_word(0x4002), 0);
}

#[test]
fn origin_zero_is_an_origin() {
    let mut m = Memory::new();
    let image: Vec<u8> = vec![0x00, 0x00, 0x00, 0x05];
    assert_eq!(load_image(&mut m, &image), Some(0));
    assert_eq!(m.read_word(0), 5);
}

#[test]
fn load_wraps_past_top_address() {
    let mut m = Memory::new();
    let image: Vec<u8> = vec![0xFF, 0xFF, 0x00, 0x01, 0x00, 0x02];
    assert_eq!(load_image(&mut m, &image), Some(0xFFFF));
    assert_eq!(m.read_word(0xFFFF), 1);
    assert_eq!(m.read_word(0), 2);
}
