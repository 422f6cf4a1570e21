//! The state of a running dialogue and how one frame of input changes it.
//!
//! A frame goes: the visibility key toggles the dialogue box; while the box
//! is shown, one pending character is typed out and the pointer is checked
//! against the box; the box is drawn from the state at that point; then a
//! primary click in the box shows the current part without moving on, and a
//! secondary click (or an upward scroll) in the box shows the current part
//! and moves one part back. No frame moves on: that is `Scene::next_dialog`,
//! a step of its own, which records the speaker's stage position and applies
//! its stage cue to the cast; `Scene::step` does not call it.
use std::collections::HashMap;
use vstd::prelude::*;
use vstd::string::*;

use crate::layout::{slot_percents, slot_x_percent, slot_y_percent};
use crate::script::{in_script, Dialog, PartModel};

verus! {

broadcast use vstd::std_specs::hash::group_hash_axioms;

/// `String::push` appends the character `ch` at the end of the string.
pub assume_specification[ String::push ](string: &mut String, ch: char)
    ensures
        final(string)@ == old(string)@.push(ch),
;

/// Moves the dialogue index one part back.
pub fn prev_dialog(dialogindex: &mut i32)
    requires
        *old(dialogindex) > i32::MIN,
    ensures
        *final(dialogindex) == *old(dialogindex) - 1,
{
    *dialogindex += -1;
}

/// Everything a scene holds, as mathematical values.
pub struct SceneModel {
    /// Index of the part that the next click shows.
    pub dialog_index: i32,
    /// Whether the dialogue box is shown.
    pub dialog_shown: bool,
    /// Whether the last part shown lay past the end of the script.
    pub is_dialog_end: bool,
    /// Whether the pointer was in the dialogue box when last checked.
    pub mouse_in_dialog: bool,
    /// Text still to be typed out, one character a frame.
    pub pending_text: Seq<char>,
    /// Text typed out so far.
    pub typed_text: Seq<char>,
    /// The line shown in the dialogue box.
    pub body_text: Seq<char>,
    /// The caption of the dialogue box.
    pub title: Seq<char>,
    /// Speaker of the part last shown (0: nobody).
    pub active_char_id: i32,
    /// Stage column of that speaker.
    pub active_char_x: i32,
    /// Stage row of that speaker.
    pub active_char_y: i32,
    /// Name of that speaker.
    pub active_char: Seq<char>,
    /// Text of the part last shown.
    pub active_part: Seq<char>,
    /// The characters on stage, each with whether it is highlighted.
    pub alive: Map<i32, bool>,
    /// The last recorded stage position of each character.
    pub positions: Map<i32, (i32, i32)>,
}

/// The name shown when no part is left.
pub open spec fn nobody_name() -> Seq<char> {
    seq!['N', 'o', 'n', 'e', '_', '0']
}

/// The line shown when no part is left.
pub open spec fn nobody_line() -> Seq<char> {
    seq!['.']
}

/// Every character on stage has a recorded position.
pub open spec fn cast_placed(m: SceneModel) -> bool {
    m.alive.dom().subset_of(m.positions.dom())
}

/// The scene after showing the part at its index: that part's speaker and
/// line become the active ones; past either end of the script the speaker is
/// nobody, the dialogue is at its end and the index becomes -1.
pub open spec fn loaded(m: SceneModel, d: Seq<PartModel>) -> SceneModel {
    if in_script(m.dialog_index, d.len()) {
        let p = d[m.dialog_index as int];
        SceneModel {
            active_char_x: p.posx,
            active_char_y: p.posy,
            active_char_id: p.id,
            active_char: p.character,
            active_part: p.text,
            is_dialog_end: false,
            title: p.character,
            body_text: p.text,
            ..m
        }
    } else {
        SceneModel {
            active_char_x: 0,
            active_char_y: 0,
            active_char_id: 0,
            active_char: nobody_name(),
            active_part: nobody_line(),
            is_dialog_end: true,
            dialog_index: -1i32,
            title: nobody_name(),
            body_text: nobody_line(),
            ..m
        }
    }
}

/// The cast after applying the stage cue of part `p`.
pub open spec fn cued(alive: Map<i32, bool>, p: PartModel) -> Map<i32, bool> {
    if p.ts_in < 0 {
        alive.remove(p.id)
    } else {
        alive.insert(p.id, p.ts_in > 0)
    }
}

/// The scene after moving one part on: if the index names a part, its
/// speaker's position is recorded and its cue applied; the index grows by one.
pub open spec fn advanced(m: SceneModel, d: Seq<PartModel>) -> SceneModel {
    if in_script(m.dialog_index, d.len()) {
        let p = d[m.dialog_index as int];
        SceneModel {
            alive: cued(m.alive, p),
            positions: m.positions.insert(p.id, (p.posx, p.posy)),
            dialog_index: (m.dialog_index + 1) as i32,
            ..m
        }
    } else {
        SceneModel { dialog_index: (m.dialog_index + 1) as i32, ..m }
    }
}

/// The scene after moving one part back.
pub open spec fn retreated(m: SceneModel) -> SceneModel {
    SceneModel { dialog_index: (m.dialog_index - 1) as i32, ..m }
}

/// The scene after typing out one pending character, if there is one.
pub open spec fn typed(m: SceneModel) -> SceneModel {
    if m.pending_text.len() > 0 {
        SceneModel {
            typed_text: m.typed_text.push(m.pending_text[0]),
            pending_text: m.pending_text.drop_first(),
            ..m
        }
    } else {
        m
    }
}

/// The input of one frame.
pub struct FrameInput {
    /// The visibility key went down this frame.
    pub toggle_pressed: bool,
    /// The pointer is inside the dialogue box.
    pub pointer_in_box: bool,
    /// The primary button went down this frame.
    pub advance_pressed: bool,
    /// The secondary button went down, or the wheel turned up, this frame.
    pub back_pressed: bool,
}

/// The scene after the visibility key.
pub open spec fn toggled(m: SceneModel, input: FrameInput) -> SceneModel {
    if input.toggle_pressed {
        SceneModel { dialog_shown: !m.dialog_shown, ..m }
    } else {
        m
    }
}

/// The scene that the dialogue box of a frame is drawn from: toggled, and
/// while shown, one character typed and the pointer checked.
pub open spec fn drawn(m: SceneModel, input: FrameInput) -> SceneModel {
    let t = toggled(m, input);
    if t.dialog_shown {
        SceneModel { mouse_in_dialog: input.pointer_in_box, ..typed(t) }
    } else {
        t
    }
}

/// Whether the primary click takes effect in a frame drawn as `m`.
pub open spec fn advance_fires(m: SceneModel, input: FrameInput) -> bool {
    m.mouse_in_dialog && input.advance_pressed
}

/// Whether the secondary click takes effect in a frame drawn as `m`.
pub open spec fn back_fires(m: SceneModel, input: FrameInput) -> bool {
    m.mouse_in_dialog && input.back_pressed
}

/// The scene after the clicks of a frame drawn as `m`.
pub open spec fn clicked(m: SceneModel, d: Seq<PartModel>, input: FrameInput) -> SceneModel {
    let a = if advance_fires(m, input) {
        loaded(m, d)
    } else {
        m
    };
    if back_fires(a, input) {
        retreated(loaded(a, d))
    } else {
        a
    }
}

/// The scene after a whole frame.
pub open spec fn stepped(m: SceneModel, d: Seq<PartModel>, input: FrameInput) -> SceneModel {
    clicked(drawn(m, input), d, input)
}

/// Why a frame cannot be played.
#[derive(PartialEq, Eq, Structural, Debug)]
pub enum FrameFault {
    /// The first pending character is more than one byte long, and the text
    /// cannot be split after its first byte.
    SplitInsideCharacter,
}

/// Whether the typing of a frame would split a character.
pub open spec fn splits_character(m: SceneModel, input: FrameInput) -> bool {
    let t = toggled(m, input);
    t.dialog_shown && t.pending_text.len() > 0 && t.pending_text[0] as u32 >= 0x80
}

/// The fault a frame would meet.
pub open spec fn fault_of(m: SceneModel, d: Seq<PartModel>, input: FrameInput) -> Option<FrameFault> {
    if splits_character(m, input) {
        Some(FrameFault::SplitInsideCharacter)
    } else {
        None
    }
}

/// What the dialogue box of a frame shows.
pub struct FrameView {
    /// Whether the box is drawn at all.
    pub show_dialog: bool,
    /// The speaker's name tag, drawn above the box when there is a speaker.
    pub name_tag: Option<String>,
    /// The stage column of the speaker, which places the name tag.
    pub name_column: i32,
    /// The caption of the box.
    pub caption: String,
    /// The line in the box.
    pub body: String,
}

/// What a frame drawn as `m` shows.
pub open spec fn shows(v: FrameView, m: SceneModel) -> bool {
    &&& v.show_dialog == m.dialog_shown
    &&& (m.active_char_id != 0 ==> (v.name_tag matches Some(s) && s@ == m.active_char))
    &&& (m.active_char_id == 0 ==> v.name_tag is None)
    &&& v.name_column == m.active_char_x
    &&& v.caption@ == m.title
    &&& v.body@ == m.body_text
}

/// Where and how a character on stage is drawn.
#[derive(PartialEq, Eq, Structural, Debug, Clone, Copy)]
pub struct Placement {
    /// Horizontal slot, in percent of the screen width.
    pub x_percent: u32,
    /// Vertical slot, in percent of the screen height.
    pub y_percent: u32,
    /// Drawn at full opacity rather than dimmed.
    pub highlighted: bool,
}

/// The state of a running dialogue.
pub struct Scene {
    dialog_index: i32,
    dialog_shown: bool,
    is_dialog_end: bool,
    mouse_in_dialog: bool,
    pending_text: String,
    typed_text: String,
    body_text: String,
    title: String,
    active_char_id: i32,
    active_char_x: i32,
    active_char_y: i32,
    active_char: String,
    active_part: String,
    alive_chars: HashMap<i32, bool>,
    char_positions: HashMap<i32, (i32, i32)>,
}

impl View for Scene {
    type V = SceneModel;

    closed spec fn view(&self) -> SceneModel {
        SceneModel {
            dialog_index: self.dialog_index,
            dialog_shown: self.dialog_shown,
            is_dialog_end: self.is_dialog_end,
            mouse_in_dialog: self.mouse_in_dialog,
            pending_text: self.pending_text@,
            typed_text: self.typed_text@,
            body_text: self.body_text@,
            title: self.title@,
            active_char_id: self.active_char_id,
            active_char_x: self.active_char_x,
            active_char_y: self.active_char_y,
            active_char: self.active_char@,
            active_part: self.active_part@,
            alive: self.alive_chars@,
            positions: self.char_positions@,
        }
    }
}

impl Scene {
    /// A scene before anything happened: the box shown, index 0, nobody on
    /// stage, every text empty.
    pub fn new() -> (s: Scene)
        ensures
            s@ == (SceneModel {
                dialog_index: 0,
                dialog_shown: true,
                is_dialog_end: false,
                mouse_in_dialog: false,
                pending_text: Seq::empty(),
                typed_text: Seq::empty(),
                body_text: Seq::empty(),
                title: Seq::empty(),
                active_char_id: 0,
                active_char_x: 0,
                active_char_y: 0,
                active_char: Seq::empty(),
                active_part: Seq::empty(),
                alive: Map::empty(),
                positions: Map::empty(),
            }),
            cast_placed(s@),
    {
        Scene {
            dialog_index: 0,
            dialog_shown: true,
            is_dialog_end: false,
            mouse_in_dialog: false,
            pending_text: String::new(),
            typed_text: String::new(),
            body_text: String::new(),
            title: String::new(),
            active_char_id: 0,
            active_char_x: 0,
            active_char_y: 0,
            active_char: String::new(),
            active_part: String::new(),
            alive_chars: HashMap::new(),
            char_positions: HashMap::new(),
        }
    }

    /// Shows the part at the dialogue index (see `loaded`).
    pub fn load_parts(&mut self, dialog: &Dialog)
        ensures
            final(self)@ == loaded(old(self)@, dialog@),
    {
        match dialog.part_at(self.dialog_index) {
            Some(dialog_part) => {
                self.active_char_x = dialog_part.posx;
                self.active_char_y = dialog_part.posy;
                self.active_char_id = dialog_part.id;
                self.active_char = dialog_part.character.clone();
                self.active_part = dialog_part.text.clone();
                self.is_dialog_end = false;
                self.title = self.active_char.clone();
                self.body_text = self.active_part.clone();
            },
            None => {
                self.active_char_x = 0;
                self.active_char_y = 0;
                self.active_char_id = 0;
                self.active_char = String::from_str("None_0");
                self.active_part = String::from_str(".");
                self.is_dialog_end = true;
                self.dialog_index = -1;
                self.title = self.active_char.clone();
                self.body_text = self.active_part.clone();
                proof {
                    reveal_strlit("None_0");
                    reveal_strlit(".");
                    assert(self.active_char@ =~= nobody_name());
                    assert(self.active_part@ =~= nobody_line());
                }
            },
        }
    }

    /// Moves one part on (see `advanced`). `step` does not call it.
    pub fn next_dialog(&mut self, dialog: &Dialog)
        requires
            old(self)@.dialog_index < i32::MAX,
        ensures
            final(self)@ == advanced(old(self)@, dialog@),
    {
        if let Some(dialog_part) = dialog.part_at(self.dialog_index) {
            self.char_positions.insert(dialog_part.id, (dialog_part.posx, dialog_part.posy));
            if dialog_part.ts_in < 0 {
                self.alive_chars.remove(&dialog_part.id);
            }
            if dialog_part.ts_in > 0 {
                self.alive_chars.insert(dialog_part.id, true);
            }
            if dialog_part.ts_in == 0 {
                self.alive_chars.insert(dialog_part.id, false);
            }
        }
        self.dialog_index += 1;
    }
}


impl Scene {
    /// Types out one pending character, if there is one (see `typed`).
    fn type_one(&mut self)
        requires
            old(self)@.pending_text.len() > 0 ==> (old(self)@.pending_text[0] as u32) < 0x80,
        ensures
            final(self)@ == typed(old(self)@),
    {
        if !self.pending_text.as_str().is_empty() {
            let text = self.pending_text.as_str();
            let first = text.get_char(0);
            let rest = String::from_str(text.substring_char(1, text.unicode_len()));
            self.typed_text.push(first);
            self.pending_text = rest;
            proof {
                assert(self.pending_text@ =~= old(self)@.pending_text.drop_first());
            }
        }
    }

    /// The fault that playing `input` on this scene would meet, if any.
    pub fn frame_fault(&self, dialog: &Dialog, input: &FrameInput) -> (r: Option<FrameFault>)
        ensures
            r == fault_of(self@, dialog@, *input),
    {
        let shown = if input.toggle_pressed {
            !self.dialog_shown
        } else {
            self.dialog_shown
        };
        if shown && !self.pending_text.as_str().is_empty() {
            let first = self.pending_text.as_str().get_char(0);
            if (first as u32) >= 0x80 {
                return Some(FrameFault::SplitInsideCharacter);
            }
        }
        None
    }

    /// Plays one frame of input: returns what the dialogue box shows this
    /// frame and leaves the scene as `stepped` says. A primary click only
    /// shows the current part: the index stays where it is, and no frame
    /// changes the cast.
    pub fn step(&mut self, dialog: &Dialog, input: &FrameInput) -> (v: FrameView)
        requires
            fault_of(old(self)@, dialog@, *input) is None,
        ensures
            final(self)@ == stepped(old(self)@, dialog@, *input),
            shows(v, drawn(old(self)@, *input)),
            cast_placed(old(self)@) ==> cast_placed(final(self)@),
    {
        if input.toggle_pressed {
            self.dialog_shown = !self.dialog_shown;
        }
        if self.dialog_shown {
            self.type_one();
            self.mouse_in_dialog = input.pointer_in_box;
        }
        let ghost drawn_scene = self@;
        let name_tag = if self.active_char_id != 0 {
            Some(self.active_char.clone())
        } else {
            None
        };
        let view = FrameView {
            show_dialog: self.dialog_shown,
            name_tag,
            name_column: self.active_char_x,
            caption: self.title.clone(),
            body: self.body_text.clone(),
        };
        if self.mouse_in_dialog && input.advance_pressed {
            self.load_parts(dialog);
        }
        if self.mouse_in_dialog && input.back_pressed {
            self.load_parts(dialog);
            prev_dialog(&mut self.dialog_index);
        }
        view
    }
}


/// Where the character `id` of a scene `m` is drawn, if it is on stage and
/// has a recorded position.
pub open spec fn placement_of(m: SceneModel, id: i32) -> Option<Placement> {
    if m.alive.contains_key(id) && m.positions.contains_key(id) {
        let pos = m.positions[id];
        Some(
            Placement {
                x_percent: slot_x_percent(pos.0),
                y_percent: slot_y_percent(pos.1),
                highlighted: m.alive[id],
            },
        )
    } else {
        None
    }
}

impl Scene {
    /// Where the character `id` is drawn, if it is on stage.
    pub fn placement(&self, id: i32) -> (r: Option<Placement>)
        ensures
            r == placement_of(self@, id),
    {
        match self.alive_chars.get(&id) {
            Some(highlighted) => {
                match self.char_positions.get(&id) {
                    Some(pos) => {
                        let (x_percent, y_percent) = slot_percents(pos.0, pos.1);
                        Some(Placement { x_percent, y_percent, highlighted: *highlighted })
                    },
                    None => None,
                }
            },
            None => None,
        }
    }

    /// The characters on stage, each with whether it is highlighted.
    pub fn alive_chars(&self) -> (r: &HashMap<i32, bool>)
        ensures
            r@ == self@.alive,
    {
        &self.alive_chars
    }

    /// Index of the part that the next click shows.
    pub fn dialog_index(&self) -> (r: i32)
        ensures
            r == self@.dialog_index,
    {
        self.dialog_index
    }

    /// Whether the dialogue box is shown.
    pub fn dialog_shown(&self) -> (r: bool)
        ensures
            r == self@.dialog_shown,
    {
        self.dialog_shown
    }

    /// Whether the last part shown lay past the end of the script.
    pub fn is_dialog_end(&self) -> (r: bool)
        ensures
            r == self@.is_dialog_end,
    {
        self.is_dialog_end
    }

    /// Whether the pointer was in the dialogue box when last checked.
    pub fn mouse_in_dialog(&self) -> (r: bool)
        ensures
            r == self@.mouse_in_dialog,
    {
        self.mouse_in_dialog
    }

    /// Speaker of the part last shown (0: nobody).
    pub fn active_char_id(&self) -> (r: i32)
        ensures
            r == self@.active_char_id,
    {
        self.active_char_id
    }

    /// Stage position of the speaker of the part last shown.
    pub fn active_char_pos(&self) -> (r: (i32, i32))
        ensures
            r == (self@.active_char_x, self@.active_char_y),
    {
        (self.active_char_x, self.active_char_y)
    }

    /// Name of the speaker of the part last shown.
    pub fn active_char(&self) -> (r: &str)
        ensures
            r@ == self@.active_char,
    {
        self.active_char.as_str()
    }

    /// Text of the part last shown.
    pub fn active_part(&self) -> (r: &str)
        ensures
            r@ == self@.active_part,
    {
        self.active_part.as_str()
    }

    /// The caption of the dialogue box.
    pub fn title(&self) -> (r: &str)
        ensures
            r@ == self@.title,
    {
        self.title.as_str()
    }

    /// The line shown in the dialogue box.
    pub fn body_text(&self) -> (r: &str)
        ensures
            r@ == self@.body_text,
    {
        self.body_text.as_str()
    }

    /// Text typed out so far.
    pub fn typed_text(&self) -> (r: &str)
        ensures
            r@ == self@.typed_text,
    {
        self.typed_text.as_str()
    }

    /// Text still to be typed out.
    pub fn pending_text(&self) -> (r: &str)
        ensures
            r@ == self@.pending_text,
    {
        self.pending_text.as_str()
    }
}

/// In a scene whose cast is placed, exactly the characters on stage have a
/// placement.
pub proof fn placed_cast_is_drawable(m: SceneModel, id: i32)
    requires
        cast_placed(m),
    ensures
        placement_of(m, id) is Some <==> m.alive.contains_key(id),
{
}

/// Moving one part back and then one part on returns to the same index.
pub proof fn back_then_on_restores_index(m: SceneModel, d: Seq<PartModel>)
    requires
        m.dialog_index > i32::MIN,
    ensures
        advanced(retreated(m), d).dialog_index == m.dialog_index,
{
}

/// Moving one part on and then one part back returns to the same index.
pub proof fn on_then_back_restores_index(m: SceneModel, d: Seq<PartModel>)
    requires
        m.dialog_index < i32::MAX,
    ensures
        retreated(advanced(m, d)).dialog_index == m.dialog_index,
{
}

/// Showing the current part twice is the same as showing it once.
pub proof fn loading_is_idempotent(m: SceneModel, d: Seq<PartModel>)
    ensures
        loaded(loaded(m, d), d) == loaded(m, d),
{
    if !in_script(m.dialog_index, d.len()) {
        assert(!in_script(-1i32, d.len()));
    }
}

/// After a part is shown, the dialogue is at its end exactly when the index
/// is -1, and the caption and line are the speaker's name and text.
pub proof fn loading_marks_the_end(m: SceneModel, d: Seq<PartModel>)
    ensures
        loaded(m, d).is_dialog_end <==> loaded(m, d).dialog_index == -1,
        loaded(m, d).title == loaded(m, d).active_char,
        loaded(m, d).body_text == loaded(m, d).active_part,
        loaded(m, d).is_dialog_end <==> !in_script(m.dialog_index, d.len()),
{
}

/// Moving past a part records its speaker's position, puts the speaker on
/// stage exactly when its cue is not negative, and highlights it exactly when
/// the cue is positive; every other character keeps its place and state.
pub proof fn moving_on_applies_the_cue(m: SceneModel, d: Seq<PartModel>, other: i32)
    requires
        in_script(m.dialog_index, d.len()),
        m.dialog_index < i32::MAX,
        other != d[m.dialog_index as int].id,
    ensures
        ({
            let p = d[m.dialog_index as int];
            let n = advanced(m, d);
            &&& n.positions[p.id] == (p.posx, p.posy)
            &&& n.alive.contains_key(p.id) <==> p.ts_in >= 0
            &&& n.alive.contains_key(p.id) ==> n.alive[p.id] == (p.ts_in > 0)
            &&& n.alive.contains_key(other) == m.alive.contains_key(other)
            &&& m.alive.contains_key(other) ==> n.alive[other] == m.alive[other]
            &&& n.positions.contains_key(other) == m.positions.contains_key(other)
            &&& m.positions.contains_key(other) ==> n.positions[other] == m.positions[other]
        }),
{
}

/// Every character on stage has a recorded position, in every scene that
/// frames reach from one where that held.
pub proof fn frames_keep_the_cast_placed(m: SceneModel, d: Seq<PartModel>, input: FrameInput)
    requires
        cast_placed(m),
    ensures
        cast_placed(stepped(m, d, input)),
{
}

/// A frame moves text from the pending part to the typed part and loses
/// none: their concatenation is unchanged.
pub proof fn frames_keep_the_text(m: SceneModel, d: Seq<PartModel>, input: FrameInput)
    ensures
        stepped(m, d, input).typed_text + stepped(m, d, input).pending_text == m.typed_text
            + m.pending_text,
{
    let t = toggled(m, input);
    if t.dialog_shown && t.pending_text.len() > 0 {
        assert(t.typed_text.push(t.pending_text[0]) + t.pending_text.drop_first() =~= t.typed_text
            + t.pending_text);
    }
}

/// While the dialogue box is hidden, a frame types nothing and does not look
/// at the pointer.
pub proof fn hidden_box_ignores_the_pointer(m: SceneModel, input: FrameInput)
    requires
        !toggled(m, input).dialog_shown,
    ensures
        drawn(m, input) == toggled(m, input),
        drawn(m, input).mouse_in_dialog == m.mouse_in_dialog,
{
}


/// The dialogue index lies between -2 and the number of parts.
pub open spec fn index_in_bounds(m: SceneModel, d: Seq<PartModel>) -> bool {
    -2 <= m.dialog_index <= d.len()
}

/// Frames keep the dialogue index between -2 and the number of parts:
/// showing a part keeps an index inside the script and sets any other to -1,
/// and moving back from there lands no lower than -2.
pub proof fn frames_keep_the_index_in_bounds(m: SceneModel, d: Seq<PartModel>, input: FrameInput)
    requires
        index_in_bounds(m, d),
    ensures
        index_in_bounds(stepped(m, d, input), d),
{
}

/// A frame never moves the index forward past where it was (beyond the -1
/// that marks the end), and leaves the cast and their positions as they were.
pub proof fn frames_never_move_on(m: SceneModel, d: Seq<PartModel>, input: FrameInput)
    ensures
        stepped(m, d, input).dialog_index <= if m.dialog_index < -1 { -1 } else { m.dialog_index as int },
        stepped(m, d, input).alive == m.alive,
        stepped(m, d, input).positions == m.positions,
{
}


/// While the dialogue box is shown, a frame records whether the pointer is in
/// the box exactly as that frame's input says; a click with the pointer
/// outside a shown box shows nothing and moves nowhere.
pub proof fn shown_box_follows_the_pointer(m: SceneModel, d: Seq<PartModel>, input: FrameInput)
    requires
        m.dialog_shown != input.toggle_pressed,
    ensures
        stepped(m, d, input).mouse_in_dialog == input.pointer_in_box,
        !input.pointer_in_box ==> {
            let n = stepped(m, d, input);
            &&& n.dialog_index == m.dialog_index
            &&& n.body_text == m.body_text
            &&& n.title == m.title
            &&& n.active_char_id == m.active_char_id
            &&& n.active_char == m.active_char
            &&& n.active_part == m.active_part
            &&& n.active_char_x == m.active_char_x
            &&& n.active_char_y == m.active_char_y
            &&& n.is_dialog_end == m.is_dialog_end
            &&& n.alive == m.alive
            &&& n.positions == m.positions
        },
{
}

/// Showing the part at an index inside the script makes that part's speaker,
/// name, text and position the active ones, shown as caption and line, and
/// leaves the index, the cast and everything else as they were.
pub proof fn loading_shows_the_indexed_part(m: SceneModel, d: Seq<PartModel>)
    requires
        0 <= m.dialog_index < d.len(),
    ensures
        ({
            let n = loaded(m, d);
            let i = m.dialog_index as int;
            &&& n.active_char_id == d[i].id
            &&& n.active_char == d[i].character
            &&& n.active_part == d[i].text
            &&& n.active_char_x == d[i].posx
            &&& n.active_char_y == d[i].posy
            &&& n.title == d[i].character
            &&& n.body_text == d[i].text
            &&& !n.is_dialog_end
            &&& n.dialog_index == m.dialog_index
            &&& n.alive == m.alive
            &&& n.positions == m.positions
            &&& n.dialog_shown == m.dialog_shown
            &&& n.mouse_in_dialog == m.mouse_in_dialog
            &&& n.pending_text == m.pending_text
            &&& n.typed_text == m.typed_text
        }),
{
}

/// Showing from an index outside the script shows nobody: speaker 0 at
/// (0, 0), name `None_0`, line `.`, the end flag set and the index -1; the
/// cast and everything else stay as they were.
pub proof fn loading_outside_shows_nobody(m: SceneModel, d: Seq<PartModel>)
    requires
        m.dialog_index < 0 || m.dialog_index >= d.len(),
    ensures
        ({
            let n = loaded(m, d);
            &&& n.active_char_id == 0
            &&& n.active_char_x == 0
            &&& n.active_char_y == 0
            &&& n.active_char == seq!['N', 'o', 'n', 'e', '_', '0']
            &&& n.active_part == seq!['.']
            &&& n.title == seq!['N', 'o', 'n', 'e', '_', '0']
            &&& n.body_text == seq!['.']
            &&& n.is_dialog_end
            &&& n.dialog_index == -1
            &&& n.alive == m.alive
            &&& n.positions == m.positions
            &&& n.dialog_shown == m.dialog_shown
            &&& n.mouse_in_dialog == m.mouse_in_dialog
            &&& n.pending_text == m.pending_text
            &&& n.typed_text == m.typed_text
        }),
{
}

/// A character is drawn exactly when it is on stage and has a recorded
/// position, at the screen slot of that position's column (-1 left at 25%,
/// 1 right at 75%, else the centre at 50%) and row (0 at 40%, 2 at 20%, else
/// 30%), highlighted exactly when its stage state says so.
pub proof fn placement_follows_the_position(m: SceneModel, id: i32)
    ensures
        placement_of(m, id) is Some <==> (m.alive.contains_key(id) && m.positions.contains_key(
            id,
        )),
        placement_of(m, id) matches Some(p) ==> {
            let (x, y) = m.positions[id];
            &&& p.x_percent == (if x == -1 {
                25u32
            } else if x == 1 {
                75u32
            } else {
                50u32
            })
            &&& p.y_percent == (if y == 0 {
                40u32
            } else if y == 2 {
                20u32
            } else {
                30u32
            })
            &&& p.highlighted == m.alive[id]
        },
{
}

/// Moving on from an index that names no part only moves the index: the
/// cast, their positions and everything else stay as they were.
pub proof fn moving_on_outside_only_moves_the_index(m: SceneModel, d: Seq<PartModel>)
    requires
        m.dialog_index < 0 || m.dialog_index >= d.len(),
        m.dialog_index < i32::MAX,
    ensures
        advanced(m, d) == (SceneModel { dialog_index: (m.dialog_index + 1) as i32, ..m }),
        advanced(m, d).dialog_index == m.dialog_index + 1,
        advanced(m, d).alive == m.alive,
        advanced(m, d).positions == m.positions,
{
}

/// Moving on never leaves a character on stage without a recorded position.
pub proof fn moving_on_keeps_the_cast_placed(m: SceneModel, d: Seq<PartModel>)
    requires
        cast_placed(m),
    ensures
        advanced(m, d).alive.dom().subset_of(advanced(m, d).positions.dom()),
        forall|id: i32| #[trigger]
            m.positions.contains_key(id) ==> advanced(m, d).positions.contains_key(id),
{
}


/// The visibility key flips whether the box is shown, and nothing else does.
pub proof fn only_the_key_flips_the_box(m: SceneModel, d: Seq<PartModel>, input: FrameInput)
    ensures
        stepped(m, d, input).dialog_shown == (m.dialog_shown != input.toggle_pressed),
{
}

/// A shown frame types exactly one pending character, when there is one, at
/// the end of the typed text; a hidden frame types nothing.
pub proof fn shown_frames_type_one_character(m: SceneModel, d: Seq<PartModel>, input: FrameInput)
    ensures
        ({
            let n = stepped(m, d, input);
            if m.dialog_shown != input.toggle_pressed && m.pending_text.len() > 0 {
                &&& n.typed_text == m.typed_text.push(m.pending_text[0])
                &&& n.pending_text == m.pending_text.subrange(1, m.pending_text.len() as int)
            } else {
                &&& n.typed_text == m.typed_text
                &&& n.pending_text == m.pending_text
            }
        }),
{
}

/// What the box of a frame shows is the scene as it was before the frame's
/// clicks: its caption, its line, the speaker's name tag exactly when there
/// is a speaker, placed by the speaker's column, and drawn exactly when the
/// box is shown after the visibility key.
pub proof fn the_box_shows_the_scene_before_the_clicks(
    v: FrameView,
    m: SceneModel,
    input: FrameInput,
)
    requires
        shows(v, drawn(m, input)),
    ensures
        v.show_dialog == (m.dialog_shown != input.toggle_pressed),
        v.caption@ == m.title,
        v.body@ == m.body_text,
        v.name_column == m.active_char_x,
        v.name_tag is Some <==> m.active_char_id != 0,
        v.name_tag matches Some(tag) ==> tag@ == m.active_char,
{
}

/// One click in a shown box with the pointer in it shows the part at the
/// index (or nobody, past either end of the script); a primary click leaves
/// the index there, a secondary click moves it one back; the cast is never
/// touched.
pub proof fn a_click_in_a_shown_box(m: SceneModel, d: Seq<PartModel>, input: FrameInput)
    requires
        m.dialog_shown != input.toggle_pressed,
        input.pointer_in_box,
        input.advance_pressed != input.back_pressed,
    ensures
        ({
            let n = stepped(m, d, input);
            let i = m.dialog_index;
            &&& 0 <= i < d.len() ==> {
                &&& n.body_text == d[i as int].text
                &&& n.title == d[i as int].character
                &&& n.active_char_id == d[i as int].id
                &&& (n.active_char_x, n.active_char_y) == (d[i as int].posx, d[i as int].posy)
                &&& !n.is_dialog_end
                &&& n.dialog_index == if input.back_pressed {
                    i - 1
                } else {
                    i as int
                }
            }
            &&& !(0 <= i < d.len()) ==> {
                &&& n.body_text == seq!['.']
                &&& n.title == seq!['N', 'o', 'n', 'e', '_', '0']
                &&& n.active_char_id == 0
                &&& n.is_dialog_end
                &&& n.dialog_index == if input.back_pressed {
                    -2
                } else {
                    -1
                }
            }
            &&& n.alive == m.alive
            &&& n.positions == m.positions
        }),
{
}

} // verus!
