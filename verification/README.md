# ptyx

A cross-platform PTY/TTY library (with Python bindings) with a formally
verified core.

- `src/` is the verified library:
  - `ansi`: CSI and SGR escape sequences and the fixed cursor/screen sequences;
  - `text`: decimal digits, and appending characters to a `String`;
  - `error`: the error type and the exit-code reporting of `wait`;
  - `session`: spawn options and their builders, the session interface, and the
    decisions of the Unix (`session::unix`) and Windows pseudo-console
    (`session::windows`) back ends: spawn plans, file-status flags, poll results,
    wait outcomes, legacy BSD device names, argument quoting, the command line and
    the UTF-16 environment block, and how a Windows program reads its command line;
  - `console`: terminal size fallback, when raw mode may be entered, Windows console
    modes and window extents;
  - `mux`: the multiplexer state, and the copy loop and the interactive run as step
    functions.
- `app/` holds what performs I/O: the Unix console and PTY session (system calls),
  the Windows console and pseudo-console session (Win32 calls), running the
  multiplexer loop and the interactive run, and the Python module.
- `tests/` exercises the library on concrete values.
