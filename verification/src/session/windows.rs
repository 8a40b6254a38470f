//! What a Windows pseudo-console session is handed: the command line and
//! the environment block, and the decisions around it.

use vstd::prelude::*;
use crate::error::PtyxError;
use crate::session::SpawnOpts;
use crate::session::check_program;
use crate::error::spec_wait_exit_code;
use vstd::string::StringExecFns;
use vstd::string::StrSliceExecFns;

verus! {

broadcast use vstd::string::group_string_axioms;

/// Whether `s` holds the character `c`.
pub fn str_contains_char(s: &str, c: char) -> (r: bool)
    ensures
        r == s@.contains(c),
{
    for x in it: s.chars()
        invariant
            it.seq() == s@,
            forall|j: int| 0 <= j < it.index() ==> s@[j] != c,
    {
        if x == c {
            return true;
        }
    }
    false
}

/// `n` backslashes.
pub open spec fn backslashes(n: nat) -> Seq<char> {
    Seq::new(n, |_i: int| '\\')
}

/// `s` with every double quote preceded by a backslash; all other
/// characters, backslashes included, are kept as they are.
pub open spec fn escape_quotes(s: Seq<char>) -> Seq<char>
    decreases s.len(),
{
    if s.len() == 0 {
        seq![]
    } else if s.last() == '"' {
        escape_quotes(s.drop_last()) + seq!['\\', '"']
    } else {
        escape_quotes(s.drop_last()).push(s.last())
    }
}

/// Undoes `escape_quotes`: a backslash directly followed by a double quote
/// stands for that double quote.
pub open spec fn unescape_quotes(t: Seq<char>) -> Seq<char>
    decreases t.len(),
{
    if t.len() == 0 {
        seq![]
    } else if t.len() >= 2 && t[0] == '\\' && t[1] == '"' {
        seq!['"'] + unescape_quotes(t.skip(2))
    } else {
        seq![t[0]] + unescape_quotes(t.skip(1))
    }
}

proof fn lemma_escape_quotes_append(a: Seq<char>, b: Seq<char>)
    ensures
        escape_quotes(a + b) == escape_quotes(a) + escape_quotes(b),
    decreases b.len(),
{
    if b.len() == 0 {
        assert(a + b =~= a);
        assert(escape_quotes(a) + escape_quotes(b) =~= escape_quotes(a));
    } else {
        lemma_escape_quotes_append(a, b.drop_last());
        assert((a + b).drop_last() =~= a + b.drop_last());
        assert((a + b).last() == b.last());
        if b.last() == '"' {
            assert(escape_quotes(a) + escape_quotes(b) =~= escape_quotes(a) + escape_quotes(
                b.drop_last(),
            ) + seq!['\\', '"']);
        } else {
            assert(escape_quotes(a) + escape_quotes(b) =~= (escape_quotes(a) + escape_quotes(
                b.drop_last(),
            )).push(b.last()));
        }
    }
}

proof fn lemma_escape_quotes_first(s: Seq<char>)
    ensures
        escape_quotes(s).len() >= s.len(),
        s.len() > 0 ==> escape_quotes(s)[0] != '"',
    decreases s.len(),
{
    if s.len() > 0 {
        lemma_escape_quotes_first(s.drop_last());
        if s.len() == 1 {
            assert(s.drop_last().len() == 0);
        }
    }
}

/// Escaping loses nothing: undoing the escapes gives back the argument.
pub proof fn lemma_escape_quotes_roundtrip(s: Seq<char>)
    ensures
        unescape_quotes(escape_quotes(s)) == s,
    decreases s.len(),
{
    if s.len() > 0 {
        let c = s[0];
        let rest = s.skip(1);
        assert(s =~= seq![c] + rest);
        lemma_escape_quotes_append(seq![c], rest);
        lemma_escape_quotes_roundtrip(rest);
        lemma_escape_quotes_first(rest);
        assert(seq![c].drop_last() =~= Seq::<char>::empty());
        assert(seq![c].last() == c);
        assert(escape_quotes(Seq::<char>::empty()) =~= Seq::<char>::empty());
        let t = escape_quotes(s);
        if c == '"' {
            assert(escape_quotes(seq![c]) =~= seq!['\\', '"']);
            assert(t.skip(2) =~= escape_quotes(rest));
            assert(unescape_quotes(t) =~= seq!['"'] + rest);
        } else {
            assert(escape_quotes(seq![c]) =~= seq![c]);
            assert(t.skip(1) =~= escape_quotes(rest));
            if t.len() >= 2 {
                assert(t[1] == escape_quotes(rest)[0]);
            }
            assert(unescape_quotes(t) =~= seq![c] + rest);
        }
    }
}

/// Where the splitting of a Windows command line into arguments stands.
#[verifier::ext_equal]
pub struct ArgvState {
    /// The arguments completed so far.
    pub args: Seq<Seq<char>>,
    /// The argument being read, without its pending backslashes.
    pub cur: Seq<char>,
    /// Whether an argument has begun.
    pub in_arg: bool,
    /// Whether a quoted part is open.
    pub quoted: bool,
    /// Backslashes read but not yet placed.
    pub pending: nat,
}

/// The state before the first character.
pub open spec fn argv_initial() -> ArgvState {
    ArgvState { args: seq![], cur: seq![], in_arg: false, quoted: false, pending: 0 }
}

/// One character of a command line under the Microsoft C runtime rules:
/// backslashes are held back; `2n` backslashes and a `"` give `n`
/// backslashes and open or close a quoted part; `2n+1` backslashes and a
/// `"` give `n` backslashes and a literal `"`; backslashes before any other
/// character stand for themselves; a space or tab outside a quoted part
/// ends the current argument.
pub open spec fn argv_step(s: ArgvState, c: char) -> ArgvState {
    if c == '\\' {
        ArgvState { in_arg: true, pending: s.pending + 1, ..s }
    } else if c == '"' {
        if s.pending % 2 == 0 {
            ArgvState {
                cur: s.cur + backslashes(s.pending / 2),
                in_arg: true,
                quoted: !s.quoted,
                pending: 0,
                ..s
            }
        } else {
            ArgvState {
                cur: s.cur + backslashes(((s.pending - 1) / 2) as nat) + seq!['"'],
                in_arg: true,
                pending: 0,
                ..s
            }
        }
    } else if (c == ' ' || c == '\t') && !s.quoted {
        ArgvState {
            args: if s.in_arg { s.args.push(s.cur + backslashes(s.pending)) } else { s.args },
            cur: seq![],
            in_arg: false,
            quoted: false,
            pending: 0,
        }
    } else {
        ArgvState { cur: s.cur + backslashes(s.pending) + seq![c], in_arg: true, pending: 0, ..s }
    }
}

/// A fresh state that has completed the arguments `args`.
pub open spec fn argv_fresh(args: Seq<Seq<char>>) -> ArgvState {
    ArgvState { args, cur: seq![], in_arg: false, quoted: false, pending: 0 }
}

/// The state after reading `t` from the state `s`.
pub open spec fn argv_run(s: ArgvState, t: Seq<char>) -> ArgvState
    decreases t.len(),
{
    if t.len() == 0 {
        s
    } else {
        argv_step(argv_run(s, t.drop_last()), t.last())
    }
}

/// The state after reading `t`.
pub open spec fn argv_state(t: Seq<char>) -> ArgvState {
    argv_run(argv_initial(), t)
}

/// The arguments a Windows program finds in the command line `t`.
pub open spec fn command_line_args(t: Seq<char>) -> Seq<Seq<char>> {
    let s = argv_state(t);
    if s.in_arg {
        s.args.push(s.cur + backslashes(s.pending))
    } else {
        s.args
    }
}

/// The number of backslashes `s` ends with.
pub open spec fn trailing_backslashes(s: Seq<char>) -> nat
    decreases s.len(),
{
    if s.len() > 0 && s.last() == '\\' {
        trailing_backslashes(s.drop_last()) + 1
    } else {
        0
    }
}

/// `s` without the backslashes it ends with.
pub open spec fn without_trailing_backslashes(s: Seq<char>) -> Seq<char>
    decreases s.len(),
{
    if s.len() > 0 && s.last() == '\\' {
        without_trailing_backslashes(s.drop_last())
    } else {
        s
    }
}

/// No backslash in `s` is directly followed by a double quote.
pub open spec fn no_backslash_before_quote(s: Seq<char>) -> bool {
    forall|i: int| 0 <= i < s.len() - 1 && #[trigger] s[i] == '\\' ==> s[i + 1] != '"'
}

proof fn lemma_backslashes_add(m: nat, n: nat)
    ensures
        backslashes(m) + backslashes(n) == backslashes(m + n),
{
    assert(backslashes(m) + backslashes(n) =~= backslashes(m + n));
}

proof fn lemma_trailing_split(s: Seq<char>)
    ensures
        without_trailing_backslashes(s) + backslashes(trailing_backslashes(s)) == s,
    decreases s.len(),
{
    if s.len() > 0 && s.last() == '\\' {
        lemma_trailing_split(s.drop_last());
        let w = without_trailing_backslashes(s.drop_last());
        let n = trailing_backslashes(s.drop_last());
        lemma_backslashes_add(n, 1);
        assert(backslashes(1) =~= seq!['\\']);
        assert(w + backslashes(n + 1) =~= (w + backslashes(n)) + seq!['\\']);
        assert(s.drop_last() + seq!['\\'] =~= s);
    } else {
        assert(backslashes(0) =~= Seq::<char>::empty());
        assert(s + backslashes(0) =~= s);
    }
}

proof fn lemma_run_push(s: ArgvState, t: Seq<char>, c: char)
    ensures
        argv_run(s, t.push(c)) == argv_step(argv_run(s, t), c),
{
    assert(t.push(c).drop_last() =~= t);
}

proof fn lemma_run_append(s: ArgvState, x: Seq<char>, y: Seq<char>)
    ensures
        argv_run(s, x + y) == argv_run(argv_run(s, x), y),
    decreases y.len(),
{
    if y.len() == 0 {
        assert(x + y =~= x);
    } else {
        lemma_run_append(s, x, y.drop_last());
        assert((x + y).drop_last() =~= x + y.drop_last());
        assert((x + y).last() == y.last());
    }
}

/// Inside a quoted part opened from a fresh state, the escaped form of an
/// argument without a backslash before a double quote reads back as the
/// argument, its trailing backslashes still pending.
proof fn lemma_quoted_body(done: Seq<Seq<char>>, a: Seq<char>)
    requires
        no_backslash_before_quote(a),
    ensures
        argv_run(argv_fresh(done), seq!['"'] + escape_quotes(a)).args == done,
        argv_run(argv_fresh(done), seq!['"'] + escape_quotes(a)).cur
            == without_trailing_backslashes(a),
        argv_run(argv_fresh(done), seq!['"'] + escape_quotes(a)).in_arg,
        argv_run(argv_fresh(done), seq!['"'] + escape_quotes(a)).quoted,
        argv_run(argv_fresh(done), seq!['"'] + escape_quotes(a)).pending == trailing_backslashes(
            a,
        ),
    decreases a.len(),
{
    let f = argv_fresh(done);
    if a.len() == 0 {
        assert(seq!['"'] + escape_quotes(a) =~= Seq::<char>::empty().push('"'));
        lemma_run_push(f, Seq::<char>::empty(), '"');
        assert(backslashes(0) =~= Seq::<char>::empty());
        assert(without_trailing_backslashes(a) =~= Seq::<char>::empty());
        assert(Seq::<char>::empty() + backslashes(0) =~= Seq::<char>::empty());
    } else {
        let p = a.drop_last();
        let c = a.last();
        assert(no_backslash_before_quote(p)) by {
            assert forall|i: int| 0 <= i < p.len() - 1 && #[trigger] p[i] == '\\' implies p[i
                + 1] != '"' by {
                assert(a[i] == p[i] && a[i + 1] == p[i + 1]);
            }
        }
        lemma_quoted_body(done, p);
        let x = seq!['"'] + escape_quotes(p);
        if c == '\\' {
            assert(seq!['"'] + escape_quotes(a) =~= x.push('\\'));
            lemma_run_push(f, x, '\\');
        } else if c == '"' {
            if p.len() > 0 {
                assert(p.last() != '\\') by {
                    assert(a[p.len() - 1] == p.last());
                }
            }
            assert(trailing_backslashes(p) == 0);
            assert(without_trailing_backslashes(p) == p);
            assert(seq!['"'] + escape_quotes(a) =~= x.push('\\').push('"'));
            lemma_run_push(f, x, '\\');
            lemma_run_push(f, x.push('\\'), '"');
            assert(backslashes(0) =~= Seq::<char>::empty());
            assert(p + backslashes(0) + seq!['"'] =~= a);
        } else {
            assert(seq!['"'] + escape_quotes(a) =~= x.push(c));
            lemma_run_push(f, x, c);
            lemma_trailing_split(p);
            assert(without_trailing_backslashes(p) + backslashes(trailing_backslashes(p))
                + seq![c] =~= a);
        }
    }
}

/// From a fresh state, an argument with no space, tab or double quote
/// reads back as itself, its trailing backslashes still pending.
proof fn lemma_plain_body(done: Seq<Seq<char>>, a: Seq<char>)
    requires
        !needs_quotes(a),
    ensures
        argv_run(argv_fresh(done), a).args == done,
        argv_run(argv_fresh(done), a).cur == without_trailing_backslashes(a),
        argv_run(argv_fresh(done), a).in_arg == (a.len() > 0),
        !argv_run(argv_fresh(done), a).quoted,
        argv_run(argv_fresh(done), a).pending == trailing_backslashes(a),
    decreases a.len(),
{
    if a.len() > 0 {
        let p = a.drop_last();
        let c = a.last();
        assert(!needs_quotes(p)) by {
            if p.contains(' ') {
                let i = choose|i: int| 0 <= i < p.len() && p[i] == ' ';
                assert(a[i] == ' ');
            }
            if p.contains('\t') {
                let i = choose|i: int| 0 <= i < p.len() && p[i] == '\t';
                assert(a[i] == '\t');
            }
            if p.contains('"') {
                let i = choose|i: int| 0 <= i < p.len() && p[i] == '"';
                assert(a[i] == '"');
            }
        }
        assert(a[a.len() - 1] == c);
        assert(c != ' ' && c != '\t' && c != '"');
        lemma_plain_body(done, p);
        if c != '\\' {
            lemma_trailing_split(p);
            assert(without_trailing_backslashes(p) + backslashes(trailing_backslashes(p))
                + seq![c] =~= a);
        }
    } else {
        assert(argv_run(argv_fresh(done), a) == argv_fresh(done));
        assert(without_trailing_backslashes(a) =~= Seq::<char>::empty());
    }
}

/// Whether an argument is read back as itself from its escaped form: no
/// backslash stands directly before a double quote in it, and, when it is
/// quoted, it does not end with a backslash.
pub open spec fn reads_back(a: Seq<char>) -> bool {
    &&& no_backslash_before_quote(a)
    &&& needs_quotes(a) ==> trailing_backslashes(a) == 0
}

/// From a fresh state, the escaped form of an argument that reads back
/// leaves exactly that argument in hand, outside any quoted part.
proof fn lemma_escaped_body(done: Seq<Seq<char>>, a: Seq<char>)
    requires
        reads_back(a),
    ensures
        argv_run(argv_fresh(done), escaped_arg(a)).args == done,
        argv_run(argv_fresh(done), escaped_arg(a)).in_arg,
        !argv_run(argv_fresh(done), escaped_arg(a)).quoted,
        argv_run(argv_fresh(done), escaped_arg(a)).cur + backslashes(
            argv_run(argv_fresh(done), escaped_arg(a)).pending,
        ) == a,
{
    let f = argv_fresh(done);
    assert(backslashes(0) =~= Seq::<char>::empty());
    if a.len() == 0 {
        let t = seq!['"', '"'];
        assert(escaped_arg(a) == t);
        assert(t =~= seq!['"'].push('"'));
        assert(seq!['"'] =~= Seq::<char>::empty().push('"'));
        lemma_run_push(f, Seq::<char>::empty(), '"');
        lemma_run_push(f, seq!['"'], '"');
        assert(Seq::<char>::empty() + backslashes(0) =~= Seq::<char>::empty());
        assert(argv_run(f, t).cur =~= Seq::<char>::empty());
        assert(a =~= Seq::<char>::empty());
        assert(argv_run(f, t).cur + backslashes(argv_run(f, t).pending) =~= a);
    } else if !needs_quotes(a) {
        lemma_plain_body(done, a);
        lemma_trailing_split(a);
    } else {
        lemma_quoted_body(done, a);
        let x = seq!['"'] + escape_quotes(a);
        assert(escaped_arg(a) =~= x.push('"'));
        lemma_run_push(f, x, '"');
        assert(a.last() != '\\');
        assert(without_trailing_backslashes(a) == a);
        assert(a + backslashes(0) =~= a);
        assert(a + backslashes(0) + backslashes(0) =~= a);
    }
}

/// Windows hands a program the argument it was given: the escaped form of
/// an argument is read back as exactly that one argument, unless a
/// backslash stands directly before a double quote in it, or it is quoted
/// and ends with a backslash (there the backslashes are not doubled, and
/// the reading differs).
pub proof fn lemma_escaped_arg_reads_back(a: Seq<char>)
    requires
        no_backslash_before_quote(a),
        needs_quotes(a) ==> trailing_backslashes(a) == 0,
    ensures
        command_line_args(escaped_arg(a)) == seq![a],
{
    lemma_escaped_body(Seq::empty(), a);
    assert(argv_initial() == argv_fresh(Seq::empty()));
    assert(command_line_args(escaped_arg(a)) =~= seq![a]);
}

proof fn lemma_command_line_state(prog: Seq<char>, args: Seq<Seq<char>>)
    requires
        reads_back(prog),
        forall|i: int| 0 <= i < args.len() ==> reads_back(#[trigger] args[i]),
    ensures
        argv_state(command_line(prog, args)).args == (seq![prog] + args).drop_last(),
        argv_state(command_line(prog, args)).in_arg,
        !argv_state(command_line(prog, args)).quoted,
        argv_state(command_line(prog, args)).cur + backslashes(
            argv_state(command_line(prog, args)).pending,
        ) == (seq![prog] + args).last(),
    decreases args.len(),
{
    assert(argv_initial() == argv_fresh(Seq::empty()));
    if args.len() == 0 {
        assert(command_line(prog, args) =~= escaped_arg(prog));
        lemma_escaped_body(Seq::empty(), prog);
        assert((seq![prog] + args) =~= seq![prog]);
        assert(seq![prog].drop_last() =~= Seq::<Seq<char>>::empty());
    } else {
        let p = args.drop_last();
        let a = args.last();
        assert(forall|i: int| 0 <= i < p.len() ==> reads_back(#[trigger] p[i])) by {
            assert forall|i: int| 0 <= i < p.len() implies reads_back(#[trigger] p[i]) by {
                assert(p[i] == args[i]);
            }
        }
        assert(reads_back(a)) by {
            assert(args[args.len() - 1] == a);
        }
        lemma_command_line_state(prog, p);
        let before = command_line(prog, p);
        let s0 = argv_state(before);
        assert(args =~= p.push(a));
        lemma_command_line_push(prog, p, a);
        let t = command_line(prog, args);
        assert(t =~= before.push(' ') + escaped_arg(a));
        lemma_run_append(argv_initial(), before.push(' '), escaped_arg(a));
        lemma_run_push(argv_initial(), before, ' ');
        let all = seq![prog] + args;
        let all_p = seq![prog] + p;
        assert(all_p.drop_last().push(all_p.last()) =~= all_p);
        assert(argv_step(s0, ' ') == argv_fresh(all_p));
        lemma_escaped_body(all_p, a);
        assert(all =~= all_p.push(a));
        assert(all.drop_last() =~= all_p);
        assert(all.last() == a);
    }
}

/// Windows hands a program the arguments it was given: the command line
/// built from a program and its arguments reads back as the program
/// followed by every argument, in order, when each of them reads back by
/// itself (see `reads_back`).
pub proof fn lemma_command_line_reads_back(prog: Seq<char>, args: Seq<Seq<char>>)
    requires
        reads_back(prog),
        forall|i: int| 0 <= i < args.len() ==> reads_back(#[trigger] args[i]),
    ensures
        command_line_args(command_line(prog, args)) == seq![prog] + args,
{
    lemma_command_line_state(prog, args);
    let all = seq![prog] + args;
    assert(all.drop_last().push(all.last()) =~= all);
}

/// Whether an argument has to be wrapped in double quotes: it holds a
/// space, a tab or a double quote.
pub open spec fn needs_quotes(s: Seq<char>) -> bool {
    s.contains(' ') || s.contains('\t') || s.contains('"')
}

/// How one argument is written on a Windows command line: `""` for the
/// empty argument, the argument itself when it needs no quotes, and
/// otherwise the argument in double quotes with its double quotes escaped.
pub open spec fn escaped_arg(s: Seq<char>) -> Seq<char> {
    if s.len() == 0 {
        seq!['"', '"']
    } else if !needs_quotes(s) {
        s
    } else {
        seq!['"'] + escape_quotes(s) + seq!['"']
    }
}

fn push_backslashes(out: &mut String, n: usize)
    ensures
        final(out)@ == old(out)@ + backslashes(n as nat),
{
    for j in 0..n
        invariant
            out@ == old(out)@ + backslashes(j as nat),
    {
        out.push('\\');
        assert(old(out)@ + backslashes(j as nat) + seq!['\\'] =~= old(out)@ + backslashes((j + 1) as nat));
    }
}

/// Quotes one argument for a Windows command line.
pub fn escape_arg(arg: &str) -> (r: String)
    ensures
        r@ == escaped_arg(arg@),
{
    if arg.is_empty() {
        let r = String::from_str("\"\"");
        proof {
            reveal_strlit("\"\"");
        }
        return r;
    }
    let needs_quote = str_contains_char(arg, ' ') || str_contains_char(arg, '\t')
        || str_contains_char(arg, '"');
    if !needs_quote {
        return arg.to_string();
    }
    let len: usize = arg.unicode_len();
    let mut result = String::new();
    result.push('"');
    let mut pending: usize = 0;
    for c in it: arg.chars()
        invariant
            it.seq() == arg@,
            len == arg@.len(),
            pending <= it.index(),
            result@ + backslashes(pending as nat) == seq!['"'] + escape_quotes(
                arg@.take(it.index()),
            ),
    {
        let ghost i: int = it.index();
        let ghost before = result@;
        assert(arg@.take(i + 1).drop_last() =~= arg@.take(i));
        assert(arg@.take(i + 1).last() == c);
        if c == '\\' {
            pending = pending + 1;
            assert(before + backslashes(pending as nat) =~= before + backslashes((pending - 1) as nat) + seq!['\\']);
        } else if c == '"' {
            push_backslashes(&mut result, pending);
            result.push('\\');
            result.push('"');
            assert(result@ =~= before + backslashes(pending as nat) + seq!['\\', '"']);
            pending = 0;
            assert(result@ + backslashes(0) =~= result@);
        } else {
            push_backslashes(&mut result, pending);
            result.push(c);
            pending = 0;
            assert(result@ + backslashes(0) =~= result@);
        }
    }
    push_backslashes(&mut result, pending);
    result.push('"');
    assert(arg@.take(arg@.len() as int) =~= arg@);
    result
}

/// Each argument, preceded by a space and escaped.
pub open spec fn spaced_args(args: Seq<Seq<char>>) -> Seq<char>
    decreases args.len(),
{
    if args.len() == 0 {
        seq![]
    } else {
        spaced_args(args.drop_last()) + seq![' '] + escaped_arg(args.last())
    }
}

/// Adding an argument adds exactly its escaped form, after one space, at
/// the end of the command line; the command line of no arguments is the
/// escaped program alone.
pub proof fn lemma_command_line_push(prog: Seq<char>, args: Seq<Seq<char>>, a: Seq<char>)
    ensures
        command_line(prog, seq![]) == escaped_arg(prog),
        command_line(prog, args.push(a)) == command_line(prog, args) + seq![' '] + escaped_arg(a),
        spaced_args(args.push(a)) == spaced_args(args) + seq![' '] + escaped_arg(a),
{
    assert(args.push(a).drop_last() =~= args);
    assert(escaped_arg(prog) + spaced_args(Seq::<Seq<char>>::empty()) =~= escaped_arg(prog));
    assert(command_line(prog, args.push(a)) =~= command_line(prog, args) + seq![' '] + escaped_arg(a));
}

/// The Windows command line of `prog` with `args`: the escaped program,
/// then each escaped argument after a single space.
pub open spec fn command_line(prog: Seq<char>, args: Seq<Seq<char>>) -> Seq<char> {
    escaped_arg(prog) + spaced_args(args)
}

/// Builds the command line that starts `prog` with `args`.
pub fn build_cmdline(prog: &str, args: &[String]) -> (r: String)
    ensures
        r@ == command_line(prog@, args.deep_view()),
{
    let mut cmdline = escape_arg(prog);
    for i in 0..args.len()
        invariant
            cmdline@ == command_line(prog@, args.deep_view().take(i as int)),
    {
        let ghost before = cmdline@;
        cmdline.push(' ');
        let escaped = escape_arg(args[i].as_str());
        cmdline.append(escaped.as_str());
        proof {
            let w = args.deep_view();
            assert(w.take(i + 1).drop_last() =~= w.take(i as int));
            assert(w.take(i + 1).last() == args@[i as int]@);
            assert(cmdline@ =~= before + seq![' '] + escaped_arg(args@[i as int]@));
        }
    }
    assert(args.deep_view().take(args@.len() as int) =~= args.deep_view());
    cmdline
}

/// The UTF-16 code units of one character: one unit below U+10000,
/// otherwise a high and a low surrogate.
pub open spec fn utf16_char(c: char) -> Seq<u16> {
    let v: int = (c as u32) as int;
    if v < 0x10000 {
        seq![v as u16]
    } else {
        let w: int = v - 0x10000;
        seq![(0xD800 + w / 0x400) as u16, (0xDC00 + w % 0x400) as u16]
    }
}

/// The UTF-16 encoding of a character sequence.
pub open spec fn utf16(s: Seq<char>) -> Seq<u16>
    decreases s.len(),
{
    if s.len() == 0 {
        seq![]
    } else {
        utf16(s.drop_last()) + utf16_char(s.last())
    }
}

/// Encodes `s` as UTF-16.
pub fn encode_utf16(s: &str) -> (r: Vec<u16>)
    ensures
        r@ == utf16(s@),
{
    let mut out: Vec<u16> = Vec::new();
    for c in it: s.chars()
        invariant
            it.seq() == s@,
            out@ == utf16(s@.take(it.index())),
    {
        let ghost i: int = it.index();
        assert(s@.take(i + 1).drop_last() =~= s@.take(i));
        assert(s@.take(i + 1).last() == c);
        let v: u32 = c as u32;
        proof {
            vstd::utf8::char_is_scalar(c);
        }
        if v < 0x10000 {
            out.push(v as u16);
        } else {
            let w: u32 = v - 0x10000;
            assert(w / 0x400 < 0x400);
            out.push((0xD800 + w / 0x400) as u16);
            out.push((0xDC00 + w % 0x400) as u16);
        }
        assert(out@ =~= utf16(s@.take(i)) + utf16_char(c));
    }
    assert(s@.take(s@.len() as int) =~= s@);
    out
}

/// The environment entries `key=value`, each ended by a NUL, then a final NUL.
pub open spec fn env_entries(env: Seq<(Seq<char>, Seq<char>)>) -> Seq<char>
    decreases env.len(),
{
    if env.len() == 0 {
        seq![]
    } else {
        env_entries(env.drop_last()) + env.last().0 + seq!['='] + env.last().1 + seq!['\0']
    }
}

/// Adding a variable adds exactly `key=value` and a NUL at the end of the
/// entries; no variables give no entries.
pub proof fn lemma_env_entries_push(
    env: Seq<(Seq<char>, Seq<char>)>,
    key: Seq<char>,
    value: Seq<char>,
)
    ensures
        env_entries(seq![]) == Seq::<char>::empty(),
        env_entries(env.push((key, value))) == env_entries(env) + key + seq!['='] + value + seq![
            '\0',
        ],
{
    assert(env.push((key, value)).drop_last() =~= env);
}

/// The code units of one character decode back to it: a character below
/// U+10000 is its own single unit (never a surrogate); any other is a high
/// surrogate (U+D800..U+DBFF) and a low surrogate (U+DC00..U+DFFF) whose
/// offsets give back the character.
pub proof fn lemma_utf16_char_decodes(c: char)
    ensures
        (c as u32) < 0x10000 ==> utf16_char(c) == seq![(c as u32) as u16] && !(0xD800 <= (
        c as u32) <= 0xDFFF),
        (c as u32) >= 0x10000 ==> {
            let u = utf16_char(c);
            &&& u.len() == 2
            &&& 0xD800 <= u[0] <= 0xDBFF
            &&& 0xDC00 <= u[1] <= 0xDFFF
            &&& (u[0] - 0xD800) * 0x400 + (u[1] - 0xDC00) + 0x10000 == c as u32
        },
{
    vstd::utf8::char_is_scalar(c);
    let v = (c as u32) as int;
    if v >= 0x10000 {
        let w = v - 0x10000;
        assert(0 <= w < 0x100000);
        assert(w / 0x400 < 0x400 && w % 0x400 < 0x400 && (w / 0x400) * 0x400 + w % 0x400 == w)
            by (nonlinear_arith)
            requires 0 <= w < 0x100000;
    }
}

/// UTF-16 encodes a text piece by piece: the encoding of two texts put
/// together is the two encodings put together.
pub proof fn lemma_utf16_append(a: Seq<char>, b: Seq<char>)
    ensures
        utf16(a + b) == utf16(a) + utf16(b),
    decreases b.len(),
{
    if b.len() == 0 {
        assert(a + b =~= a);
        assert(utf16(a) + utf16(b) =~= utf16(a));
    } else {
        lemma_utf16_append(a, b.drop_last());
        assert((a + b).drop_last() =~= a + b.drop_last());
        assert((a + b).last() == b.last());
        assert(utf16(a + b) =~= utf16(a) + utf16(b));
    }
}

/// The environment block handed to `CreateProcessW`: `None` inherits the
/// parent's environment; otherwise the UTF-16 encoding of the entries
/// followed by the terminating NUL.
pub open spec fn env_block(env: Option<Seq<(Seq<char>, Seq<char>)>>) -> Option<Seq<u16>> {
    match env {
        None => None,
        Some(e) => Some(utf16(env_entries(e) + seq!['\0'])),
    }
}

/// Builds the environment block for `env`.
pub fn build_env_block(env: Option<&Vec<(String, String)>>) -> (r: Option<Vec<u16>>)
    ensures
        match env {
            None => r is None,
            Some(e) => r matches Some(v) && Some(v@) == env_block(Some(e.deep_view())),
        },
{
    match env {
        None => None,
        Some(entries) => Some(encode_env_entries(entries)),
    }
}

fn encode_env_entries(entries: &Vec<(String, String)>) -> (r: Vec<u16>)
    ensures
        Some(r@) == env_block(Some(entries.deep_view())),
{
    let mut block = String::new();
    for i in 0..entries.len()
        invariant
            block@ == env_entries(entries.deep_view().take(i as int)),
    {
        let ghost before = block@;
        block.append(entries[i].0.as_str());
        block.push('=');
        block.append(entries[i].1.as_str());
        block.push('\0');
        assert(entries.deep_view().take(i + 1).drop_last() =~= entries.deep_view().take(i as int));
        assert(block@ =~= before + entries@[i as int].0@ + seq!['='] + entries@[i as int].1@ + seq!['\0']);
    }
    assert(entries.deep_view().take(entries@.len() as int) =~= entries.deep_view());
    block.push('\0');
    assert(block@ =~= env_entries(entries.deep_view()) + seq!['\0']);
    encode_utf16(block.as_str())
}

/// A console size as the `COORD` of the pseudo console: each dimension
/// reinterpreted as a 16-bit signed number.
pub fn to_coord(cols: u16, rows: u16) -> (r: (i16, i16))
    ensures
        r == (cols as i16, rows as i16),
{
    (cols as i16, rows as i16)
}

/// A dimension of the pseudo console: the requested one, or `default`
/// when it is 0.
pub open spec fn or_default(v: u16, default: u16) -> u16 {
    if v > 0 { v } else { default }
}

/// The NUL-terminated UTF-16 encoding of a text.
pub open spec fn wide(s: Seq<char>) -> Seq<u16> {
    utf16(s).push(0u16)
}

/// Everything a pseudo-console spawn hands to Windows.
pub struct ConPtySpawnPlan {
    /// The size of the pseudo console.
    pub size: (i16, i16),
    /// The NUL-terminated UTF-16 command line.
    pub cmdline: Vec<u16>,
    /// The environment block, or `None` to inherit.
    pub env_block: Option<Vec<u16>>,
    /// The NUL-terminated UTF-16 working directory, if one is given.
    pub dir: Option<Vec<u16>>,
}

fn encode_wide(s: &str) -> (r: Vec<u16>)
    ensures
        r@ == wide(s@),
{
    let mut v = encode_utf16(s);
    v.push(0);
    v
}

/// The spawn plan for `opts`: refused for an empty program name; an 80x24
/// console where a dimension is 0; the command line of the program and its
/// arguments; the environment block; the working directory.
pub fn plan_spawn(opts: &SpawnOpts) -> (r: Result<ConPtySpawnPlan, PtyxError>)
    ensures
        r is Err <==> opts.prog@.len() == 0,
        r matches Err(e) ==> e is EmptyProgram,
        r matches Ok(p) ==> {
            &&& p.size == (or_default(opts.cols, 80) as i16, or_default(opts.rows, 24) as i16)
            &&& p.cmdline@ == wide(command_line(opts.prog@, opts.args.deep_view()))
            &&& match p.env_block {
                Some(b) => Some(b@) == env_block(opts.env.deep_view()),
                None => env_block(opts.env.deep_view()) is None,
            }
            &&& match p.dir {
                Some(d) => (opts.dir matches Some(od) && d@ == wide(od@)),
                None => opts.dir is None,
            }
        },
{
    match check_program(opts) {
        Err(e) => return Err(e),
        Ok(()) => {},
    }
    let cols: u16 = if opts.cols > 0 { opts.cols } else { 80 };
    let rows: u16 = if opts.rows > 0 { opts.rows } else { 24 };
    let size = to_coord(cols, rows);
    let line = build_cmdline(opts.prog.as_str(), opts.args.as_slice());
    let cmdline = encode_wide(line.as_str());
    let env_block = build_env_block(opts.env.as_ref());
    let dir = match &opts.dir {
        Some(d) => Some(encode_wide(d.as_str())),
        None => None,
    };
    Ok(ConPtySpawnPlan { size, cmdline, env_block, dir })
}

/// What a completed `wait` reports on Windows: a killed process or a
/// non-zero exit code is an `ExitError` with the code; otherwise 0.
pub open spec fn completed_wait_outcome(killed: bool, exit_code: u32) -> Result<i32, PtyxError> {
    if killed || exit_code != 0 {
        Err(PtyxError::ExitError { exit_code: exit_code as i32 })
    } else {
        Ok(0)
    }
}

/// A completed wait always yields the process's exit code.
pub proof fn lemma_wait_reports_exit_code(killed: bool, exit_code: u32)
    ensures
        spec_wait_exit_code(completed_wait_outcome(killed, exit_code)) == Ok::<i32, PtyxError>(
            exit_code as i32,
        ),
{
}

/// A completed wait reports success only for a process that was not
/// killed and exited with code 0; then it reports 0.
pub proof fn lemma_wait_ok_only_on_success(killed: bool, exit_code: u32)
    ensures
        completed_wait_outcome(killed, exit_code) matches Ok(v) ==> v == 0 && !killed && exit_code
            == 0,
        !killed && exit_code != 0 ==> completed_wait_outcome(killed, exit_code) == Err::<
            i32,
            PtyxError,
        >(PtyxError::ExitError { exit_code: exit_code as i32 }),
{
}

/// A killed process never reports success: whatever its exit code, `wait`
/// gives `ExitError` with that code.
pub proof fn lemma_killed_process_fails(exit_code: u32)
    ensures
        completed_wait_outcome(true, exit_code) == Err::<i32, PtyxError>(
            PtyxError::ExitError { exit_code: exit_code as i32 },
        ),
{
}

/// What `wait` reports on Windows: a failed wait is a PTY error; a killed
/// process or a non-zero exit code is an `ExitError` with the code; a
/// successful exit is 0.
pub fn wait_outcome(wait_completed: bool, killed: bool, exit_code: u32) -> (r: Result<i32, PtyxError>)
    ensures
        !wait_completed ==> (r matches Err(PtyxError::Pty(m)) && m@ == seq!['w', 'a', 'i', 't', ' ', 'f', 'a', 'i', 'l', 'e', 'd']),
        wait_completed ==> r == completed_wait_outcome(killed, exit_code),
{
    if !wait_completed {
        let m = String::from_str("wait failed");
        proof {
            reveal_strlit("wait failed");
        }
        return Err(PtyxError::Pty(m));
    }
    if killed {
        return Err(PtyxError::ExitError { exit_code: exit_code as i32 });
    }
    if exit_code != 0 {
        return Err(PtyxError::ExitError { exit_code: exit_code as i32 });
    }
    Ok(0)
}

} // verus!
