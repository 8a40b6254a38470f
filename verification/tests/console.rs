use ptyx::console::check_raw_mode;
use ptyx::console::console_size;
use ptyx::console::raw_input_mode;
use ptyx::console::restore_touches_terminal;
use ptyx::console::vt_output_mode;
use ptyx::console::window_extent;
use ptyx::error::PtyxError;

#[test]
fn size_without_tty_is_default_and_not_queried() {
    let mut asked = false;
    let size = console_size(false, || {
        asked = true;
        Some((1, 1))
    });
    assert_eq!(size, (80, 24));
    assert!(!asked);
}

#[test]
fn size_with_tty() {
    assert_eq!(console_size(true, || Some((120, 40))), (120, 40));
    assert_eq!(console_size(true, || None), (80, 24));
}

#[test]
fn raw_mode_needs_tty() {
    assert!(matches!(check_raw_mode(false), Err(PtyxError::NotAConsole)));
    assert!(check_raw_mode(true).is_ok());
    assert!(restore_touches_terminal(true));
    assert!(!restore_touches_terminal(false));
}

#[test]
fn windows_modes() {
    assert_eq!(raw_input_mode(0x1f7), 0x1f0);
    assert_eq!(raw_input_mode(0), 0);
    assert_eq!(vt_output_mode(0x3), 0x7);
    assert_eq!(vt_output_mode(0x7), 0x7);
}

#[test]
fn window_extents() {
    assert_eq!(window_extent(0, 0, 79, 24), (80, 25));
    assert_eq!(window_extent(10, 5, 10, 5), (1, 1));
    assert_eq!(window_extent(0, 0, -2, 0), (65535, 1));
}
