# vn_dialog

The logic of a small visual-novel dialogue player, verified with Verus.

- `src/script.rs`: the dialogue script (parts with speaker, text, stage slot
  and stage cue) and lookup by index.
- `src/scene.rs`: the state of a running dialogue and the per-frame step:
  visibility toggle, typing out pending text, showing the current part and
  moving back; the move-on step with its stage cues; and the laws they keep.
- `src/layout.rs`: stage slots as screen percentages, and the known characters.
- `src/assets.rs`: asset paths derived from the configured asset directory,
  and sprite keys derived from file names.
- `src/sprite.rs`: a sprite's pixel size, read from its image header.
- `app/`: the macroquad program around it: window, input, drawing, files,
  fonts, textures, and the JSON configuration and script.
