use vstd::prelude::*;

verus! {

pub struct Config {
    pub display: DisplayConfig,
    pub keybindings: KeyBindings,
}

pub struct DisplayConfig {
    /// Integer scale factor applied to the 160×144 Game Boy screen.
    pub scale: u32,
}

/// Maps each Game Boy input to an SDL2 keycode name string.
/// See: https://docs.rs/sdl2/latest/sdl2/keyboard/enum.Keycode.html
pub struct KeyBindings {
    pub right: String,
    pub left: String,
    pub up: String,
    pub down: String,
    pub a: String,
    pub b: String,
    pub start: String,
    pub select: String,
    pub quit: String,
}

impl Default for Config {
    fn default() -> (r: Self)
        ensures
            r.display.scale == 3,
            r.keybindings.right@ == "Right"@,
            r.keybindings.left@ == "Left"@,
            r.keybindings.up@ == "Up"@,
            r.keybindings.down@ == "Down"@,
            r.keybindings.a@ == "X"@,
            r.keybindings.b@ == "Z"@,
            r.keybindings.start@ == "Return"@,
            r.keybindings.select@ == "LShift"@,
            r.keybindings.quit@ == "Escape"@,
    {
        Self {
            display: DisplayConfig { scale: 3 },
            keybindings: KeyBindings {
                right: "Right".to_owned(),
                left: "Left".to_owned(),
                up: "Up".to_owned(),
                down: "Down".to_owned(),
                a: "X".to_owned(),
                b: "Z".to_owned(),
                start: "Return".to_owned(),
                select: "LShift".to_owned(),
                quit: "Escape".to_owned(),
            },
        }
    }
}

} // verus!
