use desktop_shell::platform::{unsupported_message, Platform, VisualEffect};

#[test]
fn desktop_families() {
    assert!(Platform::MacOs.is_desktop());
    assert!(Platform::Windows.is_desktop());
    assert!(Platform::Linux.is_desktop());
    assert!(!Platform::Ios.is_desktop());
    assert!(!Platform::Android.is_desktop());
}

#[test]
fn effect_per_platform() {
    assert_eq!(Platform::MacOs.effect(), VisualEffect::Vibrancy);
    assert_eq!(Platform::Windows.effect(), VisualEffect::Mica { dark: Some(true) });
    assert_eq!(Platform::Linux.effect(), VisualEffect::Plain);
    assert_eq!(Platform::Ios.effect(), VisualEffect::Plain);
    assert_eq!(Platform::Android.effect(), VisualEffect::Plain);
}

#[test]
fn unsupported_messages_name_the_effect() {
    assert_eq!(
        unsupported_message(VisualEffect::Vibrancy),
        "Unsupported platform! 'apply_vibrancy' is only supported on macOS"
    );
    assert_eq!(
        unsupported_message(VisualEffect::Mica { dark: None }),
        "Unsupported platform! 'apply_mica' is only supported on Windows"
    );
    assert!(unsupported_message(VisualEffect::Plain).starts_with("Unsupported platform!"));
}
