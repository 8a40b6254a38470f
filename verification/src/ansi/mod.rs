//! ANSI escape sequence helpers.

pub mod codes;

use vstd::prelude::*;
use vstd::string::StringExecFns;
use crate::text::decimal;
use crate::text::push_decimal;

verus! {

/// The Control Sequence Introducer: ESC followed by `[`.
pub open spec fn csi_prefix() -> Seq<char> {
    seq!['\x1b', '[']
}

/// Creates a CSI (Control Sequence Introducer) sequence: ESC `[` then `seq`.
pub fn csi(seq: &str) -> (r: String)
    ensures
        r@ == csi_prefix() + seq@,
{
    let mut r = String::new();
    r.push('\x1b');
    r.push('[');
    r.append(seq);
    r
}

/// The parameters of an SGR sequence: the decimal codes separated by `;`.
pub open spec fn joined_codes(codes: Seq<u32>) -> Seq<char>
    decreases codes.len(),
{
    if codes.len() == 0 {
        seq![]
    } else if codes.len() == 1 {
        decimal(codes[0] as nat)
    } else {
        joined_codes(codes.drop_last()) + seq![';'] + decimal(codes.last() as nat)
    }
}

/// The SGR (Select Graphic Rendition) sequence of `codes`:
/// ESC `[`, the codes in decimal separated by `;`, then `m`.
pub open spec fn sgr_text(codes: Seq<u32>) -> Seq<char> {
    csi_prefix() + joined_codes(codes) + seq!['m']
}

/// The parameters hold every code, in order: one code is its decimal form,
/// and adding a code to a non-empty list adds `;` and its decimal form.
pub proof fn lemma_joined_codes_push(codes: Seq<u32>, c: u32)
    ensures
        joined_codes(seq![]) == Seq::<char>::empty(),
        joined_codes(seq![c]) == decimal(c as nat),
        codes.len() > 0 ==> joined_codes(codes.push(c)) == joined_codes(codes) + seq![';']
            + decimal(c as nat),
{
    assert(codes.push(c).drop_last() =~= codes);
    assert(seq![c][0] == c);
}

/// Creates an SGR (Select Graphic Rendition) sequence.
pub fn sgr(codes: &[u32]) -> (r: String)
    ensures
        r@ == sgr_text(codes@),
{
    if codes.len() == 0 {
        let r = csi("m");
        proof {
            reveal_strlit("m");
        }
        assert(joined_codes(codes@) =~= Seq::<char>::empty());
        return r;
    }
    let mut params = String::new();
    push_decimal(&mut params, codes[0]);
    for i in 1..codes.len()
        invariant
            1 <= codes@.len(),
            params@ == joined_codes(codes@.take(i as int)),
    {
        let ghost before = params@;
        params.push(';');
        push_decimal(&mut params, codes[i]);
        proof {
            let t = codes@.take(i + 1);
            assert(t.drop_last() =~= codes@.take(i as int));
            assert(params@ =~= before + seq![';'] + decimal(codes@[i as int] as nat));
        }
    }
    proof {
        assert(codes@.take(1).len() == 1);
        assert(codes@.take(codes@.len() as int) =~= codes@);
    }
    params.push('m');
    let r = csi(params.as_str());
    assert(r@ =~= sgr_text(codes@));
    r
}

/// An SGR sequence without codes is the CSI sequence `m`; with the single
/// code 0 it is the CSI sequence `0m`.
pub proof fn lemma_sgr_empty_is_csi_m()
    ensures
        sgr_text(Seq::empty()) == csi_prefix() + seq!['m'],
        sgr_text(seq![0u32]) == csi_prefix() + seq!['0', 'm'],
{
    assert(sgr_text(Seq::empty()) =~= csi_prefix() + seq!['m']);
    assert(decimal(0) == seq!['0']);
    assert(sgr_text(seq![0u32]) =~= csi_prefix() + seq!['0', 'm']);
}

/// Moves the cursor to `row`, `col`: ESC `[` row `;` col `H`.
pub fn cursor_to(row: u16, col: u16) -> (r: String)
    ensures
        r@ == csi_prefix() + decimal(row as nat) + seq![';'] + decimal(col as nat) + seq!['H'],
{
    let mut params = String::new();
    push_decimal(&mut params, row as u32);
    params.push(';');
    push_decimal(&mut params, col as u32);
    params.push('H');
    let r = csi(params.as_str());
    assert(r@ =~= csi_prefix() + decimal(row as nat) + seq![';'] + decimal(col as nat) + seq!['H']);
    r
}

/// Clears the screen: ESC `[2J`.
pub fn clear_screen() -> (r: &'static str)
    ensures
        r@ == csi_prefix() + seq!['2', 'J'],
{
    proof {
        reveal_strlit("\x1b[2J");
    }
    let r = "\x1b[2J";
    assert(r@ =~= csi_prefix() + seq!['2', 'J']);
    r
}

/// Moves the cursor to the home position: ESC `[H`.
pub fn cursor_home() -> (r: &'static str)
    ensures
        r@ == csi_prefix() + seq!['H'],
{
    proof {
        reveal_strlit("\x1b[H");
    }
    let r = "\x1b[H";
    assert(r@ =~= csi_prefix() + seq!['H']);
    r
}

/// Hides the cursor: ESC `[?25l`.
pub fn cursor_hide() -> (r: &'static str)
    ensures
        r@ == csi_prefix() + seq!['?', '2', '5', 'l'],
{
    proof {
        reveal_strlit("\x1b[?25l");
    }
    let r = "\x1b[?25l";
    assert(r@ =~= csi_prefix() + seq!['?', '2', '5', 'l']);
    r
}

/// Shows the cursor: ESC `[?25h`.
pub fn cursor_show() -> (r: &'static str)
    ensures
        r@ == csi_prefix() + seq!['?', '2', '5', 'h'],
{
    proof {
        reveal_strlit("\x1b[?25h");
    }
    let r = "\x1b[?25h";
    assert(r@ =~= csi_prefix() + seq!['?', '2', '5', 'h']);
    r
}

/// Saves the cursor position: ESC `[s`.
pub fn cursor_save() -> (r: &'static str)
    ensures
        r@ == csi_prefix() + seq!['s'],
{
    proof {
        reveal_strlit("\x1b[s");
    }
    let r = "\x1b[s";
    assert(r@ =~= csi_prefix() + seq!['s']);
    r
}

/// Restores the saved cursor position: ESC `[u`.
pub fn cursor_restore() -> (r: &'static str)
    ensures
        r@ == csi_prefix() + seq!['u'],
{
    proof {
        reveal_strlit("\x1b[u");
    }
    let r = "\x1b[u";
    assert(r@ =~= csi_prefix() + seq!['u']);
    r
}

/// Clears the line from the cursor to its end: ESC `[K`.
pub fn clear_line_to_end() -> (r: &'static str)
    ensures
        r@ == csi_prefix() + seq!['K'],
{
    proof {
        reveal_strlit("\x1b[K");
    }
    let r = "\x1b[K";
    assert(r@ =~= csi_prefix() + seq!['K']);
    r
}

/// Clears the entire line: ESC `[2K`.
pub fn clear_line() -> (r: &'static str)
    ensures
        r@ == csi_prefix() + seq!['2', 'K'],
{
    proof {
        reveal_strlit("\x1b[2K");
    }
    let r = "\x1b[2K";
    assert(r@ =~= csi_prefix() + seq!['2', 'K']);
    r
}

} // verus!
