use vn_dialog::assets::{
    character_image, characters_dir, dialog_file_path, font_path, trim_png_suffixes,
    DIALOG_FONT_KEY,
};

#[test]
fn dialog_path_is_under_dialogues() {
    assert_eq!(dialog_file_path("assets/"), "assets/Dialogues/dialog.json");
    assert_eq!(dialog_file_path(""), "Dialogues/dialog.json");
}

#[test]
fn characters_directory() {
    assert_eq!(characters_dir("assets/"), "assets/Characters");
}

#[test]
fn font_path_is_under_fonts() {
    assert_eq!(font_path("assets", "a.ttf"), "assets/Fonts/a.ttf");
    assert_eq!(font_path("assets/", "b.ttf"), "assets//Fonts/b.ttf");
}

#[test]
fn dialog_font() {
    assert_eq!(DIALOG_FONT_KEY, "ft5");
}

#[test]
fn png_suffixes_are_all_removed() {
    assert_eq!(trim_png_suffixes("ferris.png"), "ferris");
    assert_eq!(trim_png_suffixes("ferris.png.png"), "ferris");
    assert_eq!(trim_png_suffixes("ferris"), "ferris");
    assert_eq!(trim_png_suffixes("ferris.PNG"), "ferris.PNG");
    assert_eq!(trim_png_suffixes(".png"), "");
    assert_eq!(trim_png_suffixes("png"), "png");
    assert_eq!(trim_png_suffixes("é.png"), "é");
}

#[test]
fn character_image_key_and_path() {
    let image = character_image("assets/", "Charlotte.png");
    assert_eq!(image.key, "CHARLOTTE");
    assert_eq!(image.path, "assets/Characters/Charlotte.png");
}

#[test]
fn character_image_of_doubled_suffix() {
    let image = character_image("a/", "ferris.png.png");
    assert_eq!(image.key, "FERRIS");
    assert_eq!(image.path, "a/Characters/ferris.png");
}

#[test]
fn character_image_of_other_file() {
    let image = character_image("a/", "notes.txt");
    assert_eq!(image.key, "NOTES.TXT");
    assert_eq!(image.path, "a/Characters/notes.txt.png");
}
