use smallcheck::{Cursor, Serial};

#[test]
fn fresh_cursors_stand_at_step_zero() {
    assert_eq!(<u8 as Serial>::new().position(), 0);
    assert_eq!(<u16 as Serial>::new().position(), 0);
    assert_eq!(<u32 as Serial>::new().position(), 0);
    assert_eq!(<u64 as Serial>::new().position(), 0);
    assert_eq!(<usize as Serial>::new().position(), 0);
    assert_eq!(<bool as Serial>::new().position(), 0);
    assert_eq!(<() as Serial>::new().position(), 0);
    assert_eq!(<(u8, u16) as Serial>::new().position(), 0);
}

#[test]
fn fresh_values_are_the_smallest() {
    assert_eq!(<u8 as Serial>::new(), 0);
    assert_eq!(<u64 as Serial>::new(), 0);
    assert_eq!(<bool as Serial>::new(), false);
    assert_eq!(<(u8, u16, u32) as Serial>::new(), (0, 0, 0));
    assert_eq!(<(usize,) as Serial>::new(), (0,));
}

#[test]
fn u8_is_enumerated_in_ascending_order_then_exhausted() {
    let mut cursor: u64 = Serial::new();
    let mut seen: Vec<u8> = Vec::new();
    for _ in 0..256 {
        let value: Option<u8> = Serial::next(&mut cursor);
        seen.push(value.expect("a value at every step up to 255"));
        assert!(cursor.advance());
    }
    let expected: Vec<u8> = (0..=255).collect();
    assert_eq!(seen, expected);
    let after: Option<u8> = Serial::next(&mut cursor);
    assert_eq!(after, None);
    assert!(cursor.advance());
    let later: Option<u8> = Serial::next(&mut cursor);
    assert_eq!(later, None);
}

#[test]
fn next_reads_the_cursor_without_moving_it() {
    let mut cursor: u16 = 7;
    let first: Option<u32> = Serial::next(&mut cursor);
    let second: Option<u32> = Serial::next(&mut cursor);
    assert_eq!(first, Some(7));
    assert_eq!(second, Some(7));
    assert_eq!(cursor, 7);
    assert_eq!(cursor.position(), 7);
}

#[test]
fn every_unsigned_type_yields_its_step() {
    let mut cursor: u64 = 300;
    assert_eq!(<u8 as Serial>::next(&mut cursor), None);
    assert_eq!(<u16 as Serial>::next(&mut cursor), Some(300));
    assert_eq!(<u32 as Serial>::next(&mut cursor), Some(300));
    assert_eq!(<u64 as Serial>::next(&mut cursor), Some(300));
    assert_eq!(<usize as Serial>::next(&mut cursor), Some(300));
    let mut cursor: u64 = 65_536;
    assert_eq!(<u16 as Serial>::next(&mut cursor), None);
    assert_eq!(<u32 as Serial>::next(&mut cursor), Some(65_536));
    let mut cursor: u64 = 4_294_967_296;
    assert_eq!(<u32 as Serial>::next(&mut cursor), None);
    assert_eq!(<u64 as Serial>::next(&mut cursor), Some(4_294_967_296));
    let mut cursor: u64 = u64::MAX;
    assert_eq!(<u64 as Serial>::next(&mut cursor), Some(u64::MAX));
}

#[test]
fn last_values_are_reached() {
    let mut cursor: u64 = 255;
    assert_eq!(<u8 as Serial>::next(&mut cursor), Some(255));
    let mut cursor: u64 = 65_535;
    assert_eq!(<u16 as Serial>::next(&mut cursor), Some(65_535));
    let mut cursor: u64 = 4_294_967_295;
    assert_eq!(<u32 as Serial>::next(&mut cursor), Some(4_294_967_295));
}

#[test]
fn a_cursor_stops_at_the_last_step_of_its_type() {
    let mut cursor: u8 = 254;
    assert!(cursor.advance());
    assert_eq!(cursor, 255);
    assert!(!cursor.advance());
    assert_eq!(cursor, 255);
    let mut cursor: u16 = u16::MAX;
    assert!(!cursor.advance());
    assert_eq!(cursor, u16::MAX);
    let mut cursor: u32 = u32::MAX;
    assert!(!cursor.advance());
    let mut cursor: u64 = u64::MAX;
    assert!(!cursor.advance());
    assert_eq!(cursor, u64::MAX);
    let mut cursor: usize = usize::MAX;
    assert!(!cursor.advance());
    let mut cursor: usize = 41;
    assert!(cursor.advance());
    assert_eq!(cursor, 42);
}

#[test]
fn bool_has_two_values() {
    let mut cursor: bool = Serial::new();
    assert_eq!(<bool as Serial>::next(&mut cursor), Some(false));
    assert!(cursor.advance());
    assert_eq!(cursor.position(), 1);
    assert_eq!(<bool as Serial>::next(&mut cursor), Some(true));
    assert!(!cursor.advance());
    let mut further: u8 = 2;
    assert_eq!(<bool as Serial>::next(&mut further), None);
}

#[test]
fn unit_is_exhausted_from_the_start() {
    let mut cursor: u8 = 0;
    assert_eq!(<() as Serial>::next(&mut cursor), None);
    let mut unit = ();
    assert_eq!(<() as Serial>::next(&mut unit), None);
    assert_eq!(unit.position(), 0);
    assert!(!unit.advance());
}

#[test]
fn a_pair_steps_its_components_together() {
    let mut cursor: u64 = Serial::new();
    for step in 0..256u64 {
        let pair: Option<(u8, u16)> = Serial::next(&mut cursor);
        let left: Option<u8> = Serial::next(&mut cursor);
        let right: Option<u16> = Serial::next(&mut cursor);
        assert_eq!(pair, Some((step as u8, step as u16)));
        assert_eq!(pair, Some((left.unwrap(), right.unwrap())));
        assert!(cursor.advance());
    }
}

#[test]
fn a_pair_is_exhausted_when_either_component_is() {
    let mut cursor: u64 = 256;
    assert_eq!(<(u8, u16) as Serial>::next(&mut cursor), None);
    assert_eq!(<(u16, u8) as Serial>::next(&mut cursor), None);
    assert_eq!(<(u16, u32) as Serial>::next(&mut cursor), Some((256, 256)));
    let mut cursor: u64 = 1;
    assert_eq!(<(bool, u8) as Serial>::next(&mut cursor), Some((true, 1)));
    let mut cursor: u64 = 2;
    assert_eq!(<(bool, u8) as Serial>::next(&mut cursor), None);
    assert_eq!(<(u8, ()) as Serial>::next(&mut cursor), None);
}

#[test]
fn wider_tuples_step_all_components_together() {
    let mut cursor: u32 = 9;
    assert_eq!(<(u8,) as Serial>::next(&mut cursor), Some((9,)));
    assert_eq!(<(u8, u16, u32) as Serial>::next(&mut cursor), Some((9, 9, 9)));
    let wide: Option<(u8, u16, u32, u64, usize, u8, u16, u32, u64, usize, u8, u16)> =
        Serial::next(&mut cursor);
    assert_eq!(wide, Some((9, 9, 9, 9, 9, 9, 9, 9, 9, 9, 9, 9)));
    let mut cursor: u32 = 256;
    let wide: Option<(u16, u16, u32, u64, usize, u16, u16, u32, u64, usize, u16, u8)> =
        Serial::next(&mut cursor);
    assert_eq!(wide, None);
}

#[test]
fn a_tuple_cursor_counts_with_its_first_component() {
    let mut cursor: (u8, u16) = Serial::new();
    assert!(cursor.advance());
    assert!(cursor.advance());
    assert_eq!(cursor.position(), 2);
    assert_eq!(<(u8, u16) as Serial>::next(&mut cursor), Some((2, 2)));
    let mut cursor: (u8, u16) = (255, 0);
    assert!(!cursor.advance());
    assert_eq!(cursor, (255, 0));
}
