//! The dialogue script: an ordered list of parts, each spoken by one
//! character at a stage slot, with a cue that brings the character in or out.
use vstd::prelude::*;
use vstd::string::*;

verus! {

/// One line of the dialogue.
#[derive(Debug)]
pub struct Part {
    /// Which character speaks (also the key of the character on stage).
    pub id: i32,
    /// The name shown above the line.
    pub character: String,
    /// The line itself.
    pub text: String,
    /// Horizontal stage slot of the speaker.
    pub posx: i32,
    /// Vertical stage slot of the speaker.
    pub posy: i32,
    /// Stage cue: negative takes the character off stage, positive shows it
    /// highlighted, zero shows it dimmed.
    pub ts_in: i32,
    /// Exit cue, carried along from the script file.
    pub ts_out: i32,
}

/// What a part is, with its texts as character sequences.
pub struct PartModel {
    pub id: i32,
    pub character: Seq<char>,
    pub text: Seq<char>,
    pub posx: i32,
    pub posy: i32,
    pub ts_in: i32,
    pub ts_out: i32,
}

impl View for Part {
    type V = PartModel;

    open spec fn view(&self) -> PartModel {
        PartModel {
            id: self.id,
            character: self.character@,
            text: self.text@,
            posx: self.posx,
            posy: self.posy,
            ts_in: self.ts_in,
            ts_out: self.ts_out,
        }
    }
}

/// The whole script, in the order it is played.
#[derive(Debug)]
pub struct Dialog {
    pub dialog: Vec<Part>,
}

impl View for Dialog {
    type V = Seq<PartModel>;

    open spec fn view(&self) -> Seq<PartModel> {
        self.dialog@.map_values(|p: Part| p@)
    }
}

/// Whether `index` names a part of a script of `len` parts.
pub open spec fn in_script(index: i32, len: nat) -> bool {
    0 <= index < len
}

impl Dialog {
    /// The part at `index`, if there is one; a negative index names none.
    pub fn part_at(&self, index: i32) -> (r: Option<&Part>)
        ensures
            match r {
                Some(p) => in_script(index, self@.len()) && p@ == self@[index as int],
                None => !in_script(index, self@.len()),
            },
    {
        if 0 <= index && (index as usize) < self.dialog.len() {
            Some(&self.dialog[index as usize])
        } else {
            None
        }
    }

    /// The script played until the real one is loaded: one part by nobody
    /// whose name and text both read `Error_1`.
    pub fn placeholder() -> (d: Dialog)
        ensures
            d@.len() == 1,
            d@[0] == (PartModel {
                id: 0,
                character: "Error_1"@,
                text: "Error_1"@,
                posx: 0,
                posy: 0,
                ts_in: 0,
                ts_out: 0,
            }),
    {
        let part = Part {
            id: 0,
            character: String::from_str("Error_1"),
            text: String::from_str("Error_1"),
            posx: 0,
            posy: 0,
            ts_in: 0,
            ts_out: 0,
        };
        let mut parts: Vec<Part> = Vec::new();
        parts.push(part);
        Dialog { dialog: parts }
    }
}

} // verus!
