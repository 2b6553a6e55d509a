use haxo::audio::get_device;
use haxo::fingerings::generate;
use haxo::keyscan::{clear_bit_at, get_bit_at, scan_keys, set_bit_at};
use haxo::pressure::{calibrate, decode_reading};

#[test]
fn test_get_device() {
    let cards = vec![
        (0, String::from("bcm2835 Headphones")),
        (12, String::from("MAX98357A")),
        (13, String::from("MAX98357A")),
    ];
    assert_eq!(get_device(&cards), Some(String::from("hw:12")));
    assert_eq!(get_device(&vec![(0, String::from("vc4hdmi"))]), None);
    assert_eq!(get_device(&vec![]), None);
    assert_eq!(get_device(&vec![(-3, String::from("MAX98357A"))]), Some(String::from("hw:-3")));
}

#[test]
fn bits() {
    assert!(get_bit_at(0x124, 2));
    assert!(!get_bit_at(0x124, 3));
    assert!(!get_bit_at(u32::MAX, 32));
    let mut x: u32 = 0;
    set_bit_at(&mut x, 31);
    set_bit_at(&mut x, 0);
    set_bit_at(&mut x, 40);
    assert_eq!(x, 0x8000_0001);
    clear_bit_at(&mut x, 31);
    clear_bit_at(&mut x, 33);
    assert_eq!(x, 1);
}

#[test]
fn scan_bitmask() {
    let mut pressed = vec![false; 32];
    pressed[4] = true;
    pressed[9] = true;
    assert_eq!(scan_keys(&pressed), 528);
    assert_eq!(scan_keys(&vec![true; 32]), u32::MAX);
    assert_eq!(scan_keys(&vec![]), 0);
}

#[test]
fn pressure_decoding() {
    assert_eq!(decode_reading(0, 0, 0), 0);
    assert_eq!(decode_reading(0x01, 0x02, 0x03), 0x010203);
    assert_eq!(decode_reading(0x3f, 0xff, 0xff), -1);
    assert_eq!(decode_reading(0x20, 0, 0), -2097152);
    assert_eq!(calibrate(1_000_000, 1_000_000), 0);
    assert_eq!(calibrate(1_015_000, 1_000_000), 10);
    assert_eq!(calibrate(1_000_000 - 1_499, 1_000_000), 0);
    assert_eq!(calibrate(1_000_000 - 15_000, 1_000_000), -10);
    assert_eq!(calibrate(i32::MAX, i32::MIN), 127);
    assert_eq!(calibrate(i32::MIN, i32::MAX), -2863311);
}

#[test]
fn default_table() {
    let m = generate();
    assert_eq!(m.len(), 22);
    assert_eq!(m.get(&528), Some(&60));
    assert_eq!(m.get(&0), Some(&0));
    assert_eq!(m.get(&71565856), Some(&-1));
    assert_eq!(m.get(&2499072), Some(&54));
}
