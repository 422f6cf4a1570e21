use vn_dialog::layout::{character_name, slot_percents, CHARACTER_WIDTH_PERCENT};

#[test]
fn horizontal_slots() {
    assert_eq!(slot_percents(-1, 0).0, 25);
    assert_eq!(slot_percents(0, 0).0, 50);
    assert_eq!(slot_percents(1, 0).0, 75);
    assert_eq!(slot_percents(7, 0).0, 50);
    assert_eq!(slot_percents(i32::MIN, 0).0, 50);
}

#[test]
fn vertical_slots() {
    assert_eq!(slot_percents(0, 0).1, 40);
    assert_eq!(slot_percents(0, 1).1, 30);
    assert_eq!(slot_percents(0, 2).1, 20);
    assert_eq!(slot_percents(0, -1).1, 30);
    assert_eq!(slot_percents(0, i32::MAX).1, 30);
}

#[test]
fn sprite_width() {
    assert_eq!(CHARACTER_WIDTH_PERCENT, 20);
}

#[test]
fn known_characters() {
    assert_eq!(character_name(1), Some("CHARLOTTE"));
    assert_eq!(character_name(2), Some("FERRIS"));
    assert_eq!(character_name(0), None);
    assert_eq!(character_name(3), None);
}
