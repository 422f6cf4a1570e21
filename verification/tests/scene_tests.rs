use vn_dialog::scene::{prev_dialog, FrameInput, Placement, Scene};
use vn_dialog::script::{Dialog, Part};

fn part(id: i32, character: &str, text: &str, posx: i32, posy: i32, ts_in: i32) -> Part {
    Part {
        id,
        character: character.to_string(),
        text: text.to_string(),
        posx,
        posy,
        ts_in,
        ts_out: 0,
    }
}

fn script() -> Dialog {
    Dialog {
        dialog: vec![
            part(1, "Charlotte", "Hello.", -1, 0, 1),
            part(2, "Ferris", "Hi!", 1, 1, 0),
            part(1, "Charlotte", "Bye.", 0, 2, -1),
        ],
    }
}

fn input(toggle: bool, in_box: bool, advance: bool, back: bool) -> FrameInput {
    FrameInput {
        toggle_pressed: toggle,
        pointer_in_box: in_box,
        advance_pressed: advance,
        back_pressed: back,
    }
}

#[test]
fn prev_dialog_moves_back_one() {
    let mut i = 3;
    prev_dialog(&mut i);
    assert_eq!(i, 2);
    let mut j = 0;
    prev_dialog(&mut j);
    assert_eq!(j, -1);
}

#[test]
fn new_scene_starts_shown_at_index_zero() {
    let s = Scene::new();
    assert_eq!(s.dialog_index(), 0);
    assert!(s.dialog_shown());
    assert!(!s.is_dialog_end());
    assert!(!s.mouse_in_dialog());
    assert_eq!(s.active_char_id(), 0);
    assert_eq!(s.title(), "");
    assert_eq!(s.body_text(), "");
    assert!(s.alive_chars().is_empty());
}

#[test]
fn load_parts_shows_the_part_at_the_index() {
    let d = script();
    let mut s = Scene::new();
    s.load_parts(&d);
    assert_eq!(s.dialog_index(), 0);
    assert_eq!(s.active_char_id(), 1);
    assert_eq!(s.active_char_pos(), (-1, 0));
    assert_eq!(s.active_char(), "Charlotte");
    assert_eq!(s.active_part(), "Hello.");
    assert_eq!(s.title(), "Charlotte");
    assert_eq!(s.body_text(), "Hello.");
    assert!(!s.is_dialog_end());
}

#[test]
fn load_parts_past_the_end_shows_nobody() {
    let d = Dialog { dialog: vec![] };
    let mut s = Scene::new();
    s.load_parts(&d);
    assert_eq!(s.dialog_index(), -1);
    assert!(s.is_dialog_end());
    assert_eq!(s.active_char_id(), 0);
    assert_eq!(s.active_char_pos(), (0, 0));
    assert_eq!(s.active_char(), "None_0");
    assert_eq!(s.active_part(), ".");
    assert_eq!(s.title(), "None_0");
    assert_eq!(s.body_text(), ".");
}

#[test]
fn load_parts_twice_is_load_parts_once() {
    let d = Dialog { dialog: vec![part(4, "X", "y", 1, 2, 1)] };
    for start_past_end in [false, true] {
        let mut once = Scene::new();
        if start_past_end {
            once.load_parts(&Dialog { dialog: vec![] });
        }
        let mut twice = Scene::new();
        if start_past_end {
            twice.load_parts(&Dialog { dialog: vec![] });
        }
        once.load_parts(&d);
        twice.load_parts(&d);
        twice.load_parts(&d);
        assert_eq!(once.dialog_index(), twice.dialog_index());
        assert_eq!(once.is_dialog_end(), twice.is_dialog_end());
        assert_eq!(once.active_char_id(), twice.active_char_id());
        assert_eq!(once.title(), twice.title());
        assert_eq!(once.body_text(), twice.body_text());
    }
}

#[test]
fn next_dialog_applies_the_stage_cue() {
    let d = script();
    let mut s = Scene::new();
    s.next_dialog(&d);
    assert_eq!(s.dialog_index(), 1);
    assert_eq!(s.alive_chars().get(&1), Some(&true));
    s.next_dialog(&d);
    assert_eq!(s.dialog_index(), 2);
    assert_eq!(s.alive_chars().get(&2), Some(&false));
    assert_eq!(
        s.placement(2),
        Some(Placement { x_percent: 75, y_percent: 30, highlighted: false })
    );
    s.next_dialog(&d);
    assert_eq!(s.dialog_index(), 3);
    assert_eq!(s.alive_chars().get(&1), None);
    assert_eq!(s.placement(1), None);
    assert_eq!(s.alive_chars().get(&2), Some(&false));
    // past the end only the index moves
    s.next_dialog(&d);
    assert_eq!(s.dialog_index(), 4);
    assert_eq!(s.alive_chars().len(), 1);
}

#[test]
fn back_then_on_restores_the_index() {
    let d = script();
    let mut s = Scene::new();
    s.next_dialog(&d);
    s.next_dialog(&d);
    let mut i = s.dialog_index();
    prev_dialog(&mut i);
    assert_eq!(i, 1);
    i += 1;
    assert_eq!(i, s.dialog_index());
}

#[test]
fn a_click_in_the_box_shows_the_part_without_moving_on() {
    let d = script();
    let mut s = Scene::new();
    let v = s.step(&d, &input(false, true, true, false));
    // the box is drawn from the state before the click
    assert!(v.show_dialog);
    assert_eq!(v.name_tag, None);
    assert_eq!(v.body, "");
    assert_eq!(s.dialog_index(), 0);
    assert_eq!(s.body_text(), "Hello.");
    assert_eq!(s.title(), "Charlotte");
    assert!(s.mouse_in_dialog());
    // the move-on step never runs in a frame, so nobody comes on stage
    assert!(s.alive_chars().is_empty());
    assert_eq!(s.placement(1), None);
    let v = s.step(&d, &input(false, true, false, false));
    assert_eq!(v.name_tag, Some("Charlotte".to_string()));
    assert_eq!(v.name_column, -1);
    assert_eq!(v.caption, "Charlotte");
    assert_eq!(v.body, "Hello.");
}

#[test]
fn a_click_outside_the_box_does_nothing() {
    let d = script();
    let mut s = Scene::new();
    let _ = s.step(&d, &input(false, false, true, true));
    assert_eq!(s.dialog_index(), 0);
    assert_eq!(s.body_text(), "");
    assert!(s.alive_chars().is_empty());
}

#[test]
fn a_back_click_shows_the_part_and_moves_back() {
    let d = script();
    let mut s = Scene::new();
    let _ = s.step(&d, &input(false, true, true, false));
    let _ = s.step(&d, &input(false, true, true, false));
    assert_eq!(s.dialog_index(), 0);
    let _ = s.step(&d, &input(false, true, false, true));
    assert_eq!(s.dialog_index(), -1);
    assert_eq!(s.body_text(), "Hello.");
}

#[test]
fn both_clicks_in_one_frame() {
    let d = script();
    let mut s = Scene::new();
    let _ = s.step(&d, &input(false, true, true, true));
    // shown part 0 twice, then moved back
    assert_eq!(s.dialog_index(), -1);
    assert_eq!(s.body_text(), "Hello.");
    assert!(!s.is_dialog_end());
}

#[test]
fn primary_clicks_repeat_the_current_part() {
    let d = script();
    let mut s = Scene::new();
    for _ in 0..3 {
        let _ = s.step(&d, &input(false, true, true, false));
        assert_eq!(s.dialog_index(), 0);
        assert_eq!(s.body_text(), "Hello.");
        assert!(!s.is_dialog_end());
    }
}

#[test]
fn back_from_the_start_ends_the_dialogue() {
    let d = script();
    let mut s = Scene::new();
    let _ = s.step(&d, &input(false, true, false, true));
    assert_eq!(s.dialog_index(), -1);
    assert_eq!(s.body_text(), "Hello.");
    let _ = s.step(&d, &input(false, true, false, true));
    assert!(s.is_dialog_end());
    assert_eq!(s.dialog_index(), -2);
    let _ = s.step(&d, &input(false, true, true, false));
    assert!(s.is_dialog_end());
    assert_eq!(s.body_text(), ".");
    assert_eq!(s.title(), "None_0");
    assert_eq!(s.dialog_index(), -1);
    let _ = s.step(&d, &input(false, true, true, false));
    assert_eq!(s.dialog_index(), -1);
}

#[test]
fn hidden_box_keeps_the_last_pointer_check() {
    let d = script();
    let mut s = Scene::new();
    // hide the box while the pointer was never in it: clicks are ignored
    let v = s.step(&d, &input(true, true, true, false));
    assert!(!v.show_dialog);
    assert!(!s.dialog_shown());
    assert!(!s.mouse_in_dialog());
    assert_eq!(s.body_text(), "");
    // show it again with the pointer in it, then hide it with the pointer out
    let _ = s.step(&d, &input(true, true, false, false));
    assert!(s.mouse_in_dialog());
    let _ = s.step(&d, &input(true, false, true, false));
    // the pointer was last seen in the box, so the click still counts
    assert!(s.mouse_in_dialog());
    assert_eq!(s.body_text(), "Hello.");
    assert_eq!(s.dialog_index(), 0);
}

#[test]
fn frames_never_move_on() {
    let d = script();
    let mut s = Scene::new();
    let clicks = [(true, false), (false, true), (true, true), (true, false), (false, true)];
    for (advance, back) in clicks {
        let before = s.dialog_index();
        let _ = s.step(&d, &input(false, true, advance, back));
        assert!(s.dialog_index() <= before.max(-1));
        assert!(s.alive_chars().is_empty());
    }
}

#[test]
fn toggling_twice_restores_visibility() {
    let d = script();
    let mut s = Scene::new();
    let _ = s.step(&d, &input(true, false, false, false));
    let _ = s.step(&d, &input(true, false, false, false));
    assert!(s.dialog_shown());
}

#[test]
fn frames_keep_the_cast_placed() {
    let d = script();
    let mut s = Scene::new();
    let clicks = [(true, false), (true, false), (false, true), (true, false), (true, true)];
    for (advance, back) in clicks {
        let _ = s.step(&d, &input(false, true, advance, back));
        let ids: Vec<i32> = s.alive_chars().keys().copied().collect();
        for id in ids {
            assert!(s.placement(id).is_some());
        }
    }
}

#[test]
fn frames_keep_the_text() {
    let d = script();
    let mut s = Scene::new();
    let before = format!("{}{}", s.typed_text(), s.pending_text());
    let _ = s.step(&d, &input(false, true, true, false));
    let after = format!("{}{}", s.typed_text(), s.pending_text());
    assert_eq!(before, after);
}

#[test]
fn ordinary_frames_have_no_fault() {
    let d = script();
    let s = Scene::new();
    assert_eq!(s.frame_fault(&d, &input(false, true, true, true)), None);
}

#[test]
fn placeholder_script_reads_error() {
    let d = Dialog::placeholder();
    assert_eq!(d.dialog.len(), 1);
    assert_eq!(d.dialog[0].character, "Error_1");
    assert_eq!(d.dialog[0].text, "Error_1");
    assert_eq!(d.dialog[0].id, 0);
    assert!(d.part_at(0).is_some());
    assert!(d.part_at(1).is_none());
    assert!(d.part_at(-1).is_none());
}

#[test]
fn frames_keep_the_index_in_bounds() {
    let d = script();
    let len = d.dialog.len() as i32;
    let mut s = Scene::new();
    let clicks = [
        (false, true),
        (false, true),
        (false, true),
        (true, false),
        (true, true),
        (true, false),
        (true, false),
        (true, false),
        (true, false),
        (true, false),
        (false, true),
    ];
    for (advance, back) in clicks {
        assert_eq!(s.frame_fault(&d, &input(false, true, advance, back)), None);
        let _ = s.step(&d, &input(false, true, advance, back));
        assert!(-2 <= s.dialog_index() && s.dialog_index() <= len);
    }
}
