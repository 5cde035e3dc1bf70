use vstd::prelude::*;

verus! {

/// The operating-system family the application runs on.
#[derive(Clone, Copy, Debug, PartialEq, Eq)]
pub enum Platform {
    MacOs,
    Windows,
    Linux,
    Ios,
    Android,
}

/// The translucency effect laid over the main window's background.
#[derive(Clone, Copy, Debug, PartialEq, Eq)]
pub enum VisualEffect {
    /// No effect: the window keeps the compositor's default look.
    Plain,
    /// macOS vibrancy with the head-up-display material.
    Vibrancy,
    /// Windows mica; `dark` of `None` follows the system preference.
    ///
    /// window-vibrancy's `apply_mica` takes only this dark-mode choice and no
    /// tint colour, so the near-black, half-transparent tint the window is
    /// designed around is asked for as the dark variant, `Some(true)`.
    Mica { dark: Option<bool> },
}

impl Platform {
    /// A desktop target: everything but the mobile families.
    pub open spec fn is_desktop_spec(self) -> bool {
        !(self is Ios || self is Android)
    }

    pub fn is_desktop(self) -> (r: bool)
        ensures
            r == self.is_desktop_spec(),
    {
        match self {
            Platform::Ios | Platform::Android => false,
            _ => true,
        }
    }

    /// The effect each platform family gets: vibrancy on macOS, dark mica on
    /// Windows (see `VisualEffect::Mica`), none elsewhere.
    pub open spec fn effect_spec(self) -> VisualEffect {
        match self {
            Platform::MacOs => VisualEffect::Vibrancy,
            Platform::Windows => VisualEffect::Mica { dark: Some(true) },
            _ => VisualEffect::Plain,
        }
    }

    pub fn effect(self) -> (r: VisualEffect)
        ensures
            r == self.effect_spec(),
    {
        match self {
            Platform::MacOs => VisualEffect::Vibrancy,
            Platform::Windows => VisualEffect::Mica { dark: Some(true) },
            _ => VisualEffect::Plain,
        }
    }
}

/// What is reported when the platform refuses `e`.
pub open spec fn unsupported_text(e: VisualEffect) -> Seq<char> {
    match e {
        VisualEffect::Vibrancy => "Unsupported platform! 'apply_vibrancy' is only supported on macOS"@,
        VisualEffect::Mica { .. } => "Unsupported platform! 'apply_mica' is only supported on Windows"@,
        VisualEffect::Plain => "Unsupported platform! no visual effect was requested"@,
    }
}

pub fn unsupported_message(e: VisualEffect) -> (r: &'static str)
    ensures
        r@ == unsupported_text(e),
{
    match e {
        VisualEffect::Vibrancy => "Unsupported platform! 'apply_vibrancy' is only supported on macOS",
        VisualEffect::Mica { .. } => "Unsupported platform! 'apply_mica' is only supported on Windows",
        VisualEffect::Plain => "Unsupported platform! no visual effect was requested",
    }
}

} // verus!
