//! Where characters stand on screen and who they are.
//!
//! The stage has three horizontal slots and three vertical ones, each given as
//! a percentage of the screen's width or height; a character sprite is a
//! fixed fraction of the screen wide and is centred on its horizontal slot.
use vstd::prelude::*;

verus! {

/// Width of a character sprite, in percent of the screen width.
pub const CHARACTER_WIDTH_PERCENT: u32 = 20;

/// The horizontal slot, in percent of the screen width, of stage column `x`:
/// -1 is left, 0 centre, 1 right, anything else centre.
pub open spec fn slot_x_percent(x: i32) -> u32 {
    if x == -1 {
        25
    } else if x == 1 {
        75
    } else {
        50
    }
}

/// The vertical slot, in percent of the screen height, of stage row `y`:
/// 0 is lowest, 2 highest, anything else the middle row.
pub open spec fn slot_y_percent(y: i32) -> u32 {
    if y == 0 {
        40
    } else if y == 2 {
        20
    } else {
        30
    }
}

/// The screen slot of stage position `(x, y)`, in percent of the screen
/// width and height.
pub fn slot_percents(x: i32, y: i32) -> (r: (u32, u32))
    ensures
        r == (slot_x_percent(x), slot_y_percent(y)),
        r.0 <= 100 && r.1 <= 100,
{
    let px: u32 = match x {
        -1 => 25,
        0 => 50,
        1 => 75,
        _ => 50,
    };
    let py: u32 = match y {
        0 => 40,
        1 => 30,
        2 => 20,
        _ => 30,
    };
    (px, py)
}

/// The name under which the sprite of character `id` is found, for the
/// characters the player knows: 1 is Charlotte and 2 is Ferris.
pub fn character_name(id: i32) -> (r: Option<&'static str>)
    ensures
        id == 1 ==> (r matches Some(s) && s@ == "CHARLOTTE"@),
        id == 2 ==> (r matches Some(s) && s@ == "FERRIS"@),
        id != 1 && id != 2 ==> r is None,
{
    match id {
        1 => Some("CHARLOTTE"),
        2 => Some("FERRIS"),
        _ => None,
    }
}


/// The screen slots of the stage: column -1 is the left quarter, 1 the right
/// quarter, any other column the centre; row 0 is at 40% of the height, row 2
/// at 20%, any other row at 30%.
pub proof fn slots_of_the_stage(x: i32, y: i32)
    ensures
        slot_x_percent(x) == (if x == -1 {
            25u32
        } else if x == 1 {
            75u32
        } else {
            50u32
        }),
        slot_y_percent(y) == (if y == 0 {
            40u32
        } else if y == 2 {
            20u32
        } else {
            30u32
        }),
{
}

} // verus!
