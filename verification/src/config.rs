//! Host-facing configuration data: the turbo (pacing) setting, the gamepad
//! key bindings and the aggregate configuration record, plus the render
//! options a presentation layer consumes. Persisting these to disk is a host
//! concern.

use vstd::prelude::*;

verus! {

/// The emulation pacing chosen while turbo is engaged, from slow motion to
/// uncapped.
#[derive(Clone, Copy, Debug, PartialEq, Eq, Structural)]
pub enum TurboSetting {
    Quarter,
    Half,
    Double,
    Triple,
    Quadruple,
    Octuple,
    Hexadecuple,
    Uncapped,
}

impl Default for TurboSetting {
    /// The default pacing doubles the baseline speed.
    fn default() -> (r: TurboSetting)
        ensures
            r == TurboSetting::Double,
    {
        TurboSetting::Double
    }
}

impl TurboSetting {
    /// Every pacing choice, in menu order.
    pub fn all() -> (r: Vec<TurboSetting>)
        ensures
            r@ == seq![
                TurboSetting::Quarter,
                TurboSetting::Half,
                TurboSetting::Double,
                TurboSetting::Triple,
                TurboSetting::Quadruple,
                TurboSetting::Octuple,
                TurboSetting::Hexadecuple,
                TurboSetting::Uncapped,
            ],
    {
        let r: Vec<TurboSetting> = vec![
            TurboSetting::Quarter,
            TurboSetting::Half,
            TurboSetting::Double,
            TurboSetting::Triple,
            TurboSetting::Quadruple,
            TurboSetting::Octuple,
            TurboSetting::Hexadecuple,
            TurboSetting::Uncapped,
        ];
        proof {
            assert(r@ =~= seq![
                TurboSetting::Quarter,
                TurboSetting::Half,
                TurboSetting::Double,
                TurboSetting::Triple,
                TurboSetting::Quadruple,
                TurboSetting::Octuple,
                TurboSetting::Hexadecuple,
                TurboSetting::Uncapped,
            ]);
        }
        r
    }

    /// The menu label of a pacing choice.
    pub fn label(&self) -> (r: &'static str)
        ensures
            *self == TurboSetting::Quarter ==> r@ == "0.25x"@,
            *self == TurboSetting::Half ==> r@ == "0.5x"@,
            *self == TurboSetting::Double ==> r@ == "2x"@,
            *self == TurboSetting::Triple ==> r@ == "3x"@,
            *self == TurboSetting::Quadruple ==> r@ == "4x"@,
            *self == TurboSetting::Octuple ==> r@ == "8x"@,
            *self == TurboSetting::Hexadecuple ==> r@ == "16x"@,
            *self == TurboSetting::Uncapped ==> r@ == "Uncapped"@,
    {
        match self {
            TurboSetting::Quarter => "0.25x",
            TurboSetting::Half => "0.5x",
            TurboSetting::Double => "2x",
            TurboSetting::Triple => "3x",
            TurboSetting::Quadruple => "4x",
            TurboSetting::Octuple => "8x",
            TurboSetting::Hexadecuple => "16x",
            TurboSetting::Uncapped => "Uncapped",
        }
    }
}

/// The rebindable gamepad key bindings, each the name of a host key.
#[derive(Clone, Debug)]
pub struct KeyBindings {
    pub a: String,
    pub b: String,
    pub start: String,
    pub select: String,
    pub up: String,
    pub down: String,
    pub left: String,
    pub right: String,
}

impl Default for KeyBindings {
    /// The out-of-the-box bindings.
    fn default() -> (r: KeyBindings)
        ensures
            r.a@ == "Z"@,
            r.b@ == "X"@,
            r.start@ == "Enter"@,
            r.select@ == "Space"@,
            r.up@ == "ArrowUp"@,
            r.down@ == "ArrowDown"@,
            r.left@ == "ArrowLeft"@,
            r.right@ == "ArrowRight"@,
    {
        KeyBindings {
            a: "Z".to_owned(),
            b: "X".to_owned(),
            start: "Enter".to_owned(),
            select: "Space".to_owned(),
            up: "ArrowUp".to_owned(),
            down: "ArrowDown".to_owned(),
            left: "ArrowLeft".to_owned(),
            right: "ArrowRight".to_owned(),
        }
    }
}

/// The aggregate host configuration: key bindings, the integer window scale
/// and the turbo pacing.
#[derive(Clone, Debug)]
pub struct Config {
    pub keybindings: KeyBindings,
    pub scale: u32,
    pub turbo: TurboSetting,
}

impl Default for Config {
    /// The out-of-the-box configuration: default bindings, scale three,
    /// default pacing.
    fn default() -> (r: Config)
        ensures
            r.scale == 3,
            r.turbo == TurboSetting::Double,
            r.keybindings.a@ == "Z"@,
            r.keybindings.b@ == "X"@,
            r.keybindings.start@ == "Enter"@,
            r.keybindings.select@ == "Space"@,
            r.keybindings.up@ == "ArrowUp"@,
            r.keybindings.down@ == "ArrowDown"@,
            r.keybindings.left@ == "ArrowLeft"@,
            r.keybindings.right@ == "ArrowRight"@,
    {
        Config { keybindings: Default::default(), scale: 3, turbo: TurboSetting::Double }
    }
}

/// What the presentation layer needs to know about how to scale the
/// framebuffer.
#[derive(Clone, Copy, Debug, PartialEq, Eq, Structural)]
pub struct RenderOptions {
    /// Whether the frame is scaled with linear interpolation rather than
    /// nearest-neighbor sampling.
    pub linear_interpolation: bool,
}

impl Default for RenderOptions {
    /// Nearest-neighbor scaling.
    fn default() -> (r: RenderOptions)
        ensures
            r == (RenderOptions { linear_interpolation: false }),
    {
        RenderOptions { linear_interpolation: false }
    }
}

} // verus!
