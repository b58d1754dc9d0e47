//! The options of a run, and the flag that selects how the wallpaper is fitted.
use vstd::prelude::*;

verus! {

/// Options of a run.
#[derive(Debug, Clone)]
pub struct Arguments {
    /// No desktop notification.
    pub silent: bool,
    /// How the default wallpaper setter fits the image.
    pub mode: Modes,
    /// Commands run in place of the default setter; each `%` stands for the
    /// image's path.
    pub custom_command: Option<Vec<String>>,
    /// Directory that keeps every downloaded image; `~` stands for home.
    pub backup_dir: Option<String>,
    /// Requested market.
    pub market: Option<String>,
    /// Requested resolution.
    pub resolution: Option<String>,
}

/// How the image is fitted to the screen.
#[derive(Debug, Clone, Copy, PartialEq, Eq)]
pub enum Modes {
    /// Centered, not scaled.
    Center,
    /// Scaled to fill the screen, aspect ratio kept.
    Fill,
    /// Scaled as large as fits, with borders on one side.
    Max,
    /// Stretched to the screen, aspect ratio not kept.
    Scale,
    /// Repeated across the screen.
    Tile,
}

pub open spec fn mode_flag(value: Modes) -> Seq<char> {
    match value {
        Modes::Center => "--bg-center"@,
        Modes::Fill => "--bg-fill"@,
        Modes::Max => "--bg-max"@,
        Modes::Scale => "--bg-scale"@,
        Modes::Tile => "--bg-tile"@,
    }
}

/// The setter's command-line flag for fitting mode `value`.
pub fn mode(value: Modes) -> (r: &'static str)
    ensures
        r@ == mode_flag(value),
{
    match value {
        Modes::Center => "--bg-center",
        Modes::Fill => "--bg-fill",
        Modes::Max => "--bg-max",
        Modes::Scale => "--bg-scale",
        Modes::Tile => "--bg-tile",
    }
}

} // verus!
