use ptyx::ansi::clear_line;
use ptyx::ansi::clear_line_to_end;
use ptyx::ansi::clear_screen;
use ptyx::ansi::codes;
use ptyx::ansi::csi;
use ptyx::ansi::cursor_hide;
use ptyx::ansi::cursor_home;
use ptyx::ansi::cursor_restore;
use ptyx::ansi::cursor_save;
use ptyx::ansi::cursor_show;
use ptyx::ansi::cursor_to;
use ptyx::ansi::sgr;

#[test]
fn csi_prefixes_escape_bracket() {
    assert_eq!(csi("m"), "\x1b[m");
    assert_eq!(csi("2J"), "\x1b[2J");
    assert_eq!(csi(""), "\x1b[");
}

#[test]
fn sgr_bold_red_then_reset() {
    let text = format!("{}Bold Red{}", sgr(&[1, 31]), sgr(&[0]));
    assert_eq!(text, "\x1b[1;31mBold Red\x1b[0m");
}

#[test]
fn sgr_without_codes_is_csi_m() {
    assert_eq!(sgr(&[]), "\x1b[m");
    assert_eq!(sgr(&[]), csi("m"));
}

#[test]
fn sgr_large_codes_are_decimal() {
    assert_eq!(sgr(&[38, 5, 208]), "\x1b[38;5;208m");
    assert_eq!(sgr(&[u32::MAX]), "\x1b[4294967295m");
    assert_eq!(sgr(&[10, 0, 100]), "\x1b[10;0;100m");
}

#[test]
fn sgr_named_codes() {
    assert_eq!(sgr(&[codes::BOLD, codes::fg::RED, codes::bg::WHITE]), "\x1b[1;31;47m");
    assert_eq!(sgr(&[codes::RESET]), "\x1b[0m");
    assert_eq!(codes::fg::DEFAULT, 39);
    assert_eq!(codes::bg::DEFAULT, 49);
    assert_eq!(codes::STRIKETHROUGH, 9);
}

#[test]
fn cursor_to_row_then_column() {
    assert_eq!(cursor_to(10, 5), "\x1b[10;5H");
    assert_eq!(cursor_to(0, 0), "\x1b[0;0H");
    assert_eq!(cursor_to(u16::MAX, 1), "\x1b[65535;1H");
}

#[test]
fn fixed_sequences() {
    assert_eq!(clear_screen(), "\x1b[2J");
    assert_eq!(cursor_home(), "\x1b[H");
    assert_eq!(cursor_hide(), "\x1b[?25l");
    assert_eq!(cursor_show(), "\x1b[?25h");
    assert_eq!(cursor_save(), "\x1b[s");
    assert_eq!(cursor_restore(), "\x1b[u");
    assert_eq!(clear_line_to_end(), "\x1b[K");
    assert_eq!(clear_line(), "\x1b[2K");
}
