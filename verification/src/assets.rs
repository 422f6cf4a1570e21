//! Where the assets of a dialogue live, relative to the configured asset
//! directory, and the key under which each character sprite is known.
use vstd::prelude::*;
use vstd::string::*;

verus! {

/// The key, in the configured font map, of the font that dialogue text uses.
pub const DIALOG_FONT_KEY: &'static str = "ft5";

/// The path of the dialogue script.
pub fn dialog_file_path(asset_dir: &str) -> (r: String)
    ensures
        r@ == asset_dir@ + "Dialogues/dialog.json"@,
{
    let mut path = String::from_str(asset_dir);
    path.append("Dialogues/dialog.json");
    path
}

/// The directory that holds the character sprites.
pub fn characters_dir(asset_dir: &str) -> (r: String)
    ensures
        r@ == asset_dir@ + "Characters"@,
{
    let mut path = String::from_str(asset_dir);
    path.append("Characters");
    path
}

/// The path of the font file `file` named in the configured font map.
pub fn font_path(asset_dir: &str, file: &str) -> (r: String)
    ensures
        r@ == asset_dir@ + "/Fonts/"@ + file@,
{
    let mut path = String::from_str(asset_dir);
    path.append("/Fonts/");
    path.append(file);
    path
}

/// The image suffix of sprite files.
pub open spec fn png_suffix() -> Seq<char> {
    seq!['.', 'p', 'n', 'g']
}

/// `name` with every trailing `.png` removed, one after the other.
pub open spec fn trim_png(name: Seq<char>) -> Seq<char>
    decreases name.len(),
{
    if name.len() >= 4 && name.subrange(name.len() - 4, name.len() as int) == png_suffix() {
        trim_png(name.subrange(0, name.len() - 4))
    } else {
        name
    }
}

/// `name` with every trailing `.png` removed.
pub fn trim_png_suffixes(name: &str) -> (r: &str)
    ensures
        r@ == trim_png(name@),
{
    let mut end = name.unicode_len();
    assert(name@.subrange(0, end as int) =~= name@);
    while end >= 4 && name.get_char(end - 4) == '.' && name.get_char(end - 3) == 'p'
        && name.get_char(end - 2) == 'n' && name.get_char(end - 1) == 'g'
        invariant
            end <= name@.len(),
            trim_png(name@.subrange(0, end as int)) == trim_png(name@),
        decreases end,
    {
        let ghost s = name@.subrange(0, end as int);
        assert(s.subrange(s.len() - 4, s.len() as int) =~= png_suffix());
        assert(s.subrange(0, s.len() - 4) =~= name@.subrange(0, end - 4));
        end = end - 4;
    }
    proof {
        let s = name@.subrange(0, end as int);
        if s.len() >= 4 {
            let tail = s.subrange(s.len() - 4, s.len() as int);
            if tail == png_suffix() {
                assert(tail[0] == name@[end - 4]);
                assert(tail[1] == name@[end - 3]);
                assert(tail[2] == name@[end - 2]);
                assert(tail[3] == name@[end - 1]);
            }
        }
    }
    name.substring_char(0, end)
}

/// What `str::to_uppercase` returns for a string of these characters.
pub uninterp spec fn upper_case(s: Seq<char>) -> Seq<char>;

/// Calls `str::to_uppercase`, which maps every character of `s` to its
/// Unicode uppercase form (possibly several characters); the contract only
/// names the result, as a function of `s` alone.
#[verifier::external_body]
fn to_upper_case(s: &str) -> (r: String)
    ensures
        r@ == upper_case(s@),
{
    s.to_uppercase()
}

/// A character sprite found in the sprite directory.
pub struct CharacterImage {
    /// The key the sprite is known by: the file's stem, in upper case.
    pub key: String,
    /// The path the sprite is loaded from.
    pub path: String,
}

/// The key and path of the sprite stored in the file `file_name` of the
/// sprite directory: the stem is the name with its trailing `.png`s removed,
/// the key is the stem in upper case, and the path is the stem with one
/// `.png` put back, in the sprite directory.
pub fn character_image(asset_dir: &str, file_name: &str) -> (r: CharacterImage)
    ensures
        r.key@ == upper_case(trim_png(file_name@)),
        r.path@ == asset_dir@ + "Characters/"@ + trim_png(file_name@) + ".png"@,
{
    let stem = trim_png_suffixes(file_name);
    let key = to_upper_case(stem);
    let mut path = String::from_str(asset_dir);
    path.append("Characters/");
    path.append(stem);
    path.append(".png");
    CharacterImage { key, path }
}


/// Removing trailing `.png`s ignores one more `.png` appended to any name.
pub proof fn trim_png_ignores_an_appended_suffix(s: Seq<char>)
    ensures
        trim_png(s + seq!['.', 'p', 'n', 'g']) == trim_png(s),
{
    let t = s + png_suffix();
    assert(t.subrange(t.len() - 4, t.len() as int) =~= png_suffix());
    assert(t.subrange(0, t.len() - 4) =~= s);
}

/// What is left after removing trailing `.png`s, of a name of any length,
/// never ends in `.png`, and is a prefix of the name.
pub proof fn trimmed_name_has_no_png_suffix(s: Seq<char>)
    ensures
        !(trim_png(s).len() >= 4 && trim_png(s).subrange(
            trim_png(s).len() - 4,
            trim_png(s).len() as int,
        ) == seq!['.', 'p', 'n', 'g']),
        trim_png(s).len() <= s.len(),
        trim_png(s) == s.subrange(0, trim_png(s).len() as int),
    decreases s.len(),
{
    if s.len() >= 4 && s.subrange(s.len() - 4, s.len() as int) == png_suffix() {
        let r = s.subrange(0, s.len() - 4);
        trimmed_name_has_no_png_suffix(r);
        assert(r.subrange(0, trim_png(r).len() as int) =~= s.subrange(
            0,
            trim_png(r).len() as int,
        ));
    } else {
        assert(s.subrange(0, s.len() as int) =~= s);
    }
}

} // verus!
