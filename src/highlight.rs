use vstd::prelude::*;
use vstd::string::*;

verus! {

/// Where a scan of JSON text stands: inside a string literal or not, and
/// right after a backslash inside one.
pub struct ScanState {
    pub in_string: bool,
    pub escaped: bool,
}

/// The terminal escape that starts a highlighted string literal.
pub open spec fn color_start() -> Seq<char> {
    "\u{1b}[32m"@
}

/// The terminal escape that ends highlighting.
pub open spec fn color_end() -> Seq<char> {
    "\u{1b}[0m"@
}

/// The state after scanning `s` from the start.
pub open spec fn scan_state(s: Seq<char>) -> ScanState
    decreases s.len(),
{
    if s.len() == 0 {
        ScanState { in_string: false, escaped: false }
    } else {
        step(scan_state(s.drop_last()), s.last())
    }
}

/// The state after one more character.
pub open spec fn step(st: ScanState, c: char) -> ScanState {
    if !st.in_string {
        ScanState { in_string: c == '"', escaped: false }
    } else if st.escaped {
        ScanState { in_string: true, escaped: false }
    } else if c == '"' {
        ScanState { in_string: false, escaped: false }
    } else {
        ScanState { in_string: true, escaped: c == '\\' }
    }
}

/// What one character becomes: an opening quote is preceded by the start
/// escape, a closing quote followed by the end escape, the rest kept.
pub open spec fn emit(st: ScanState, c: char) -> Seq<char> {
    if !st.in_string && c == '"' {
        color_start() + seq![c]
    } else if st.in_string && !st.escaped && c == '"' {
        seq![c] + color_end()
    } else {
        seq![c]
    }
}

/// The highlighted form of the first characters of a text, before closing a
/// string literal left open.
pub open spec fn highlight_prefix(s: Seq<char>) -> Seq<char>
    decreases s.len(),
{
    if s.len() == 0 {
        Seq::empty()
    } else {
        highlight_prefix(s.drop_last()) + emit(scan_state(s.drop_last()), s.last())
    }
}

/// JSON text with each string literal coloured for a terminal; the rest of
/// the text is kept as it is.
pub open spec fn highlighted(s: Seq<char>) -> Seq<char> {
    if scan_state(s).in_string {
        highlight_prefix(s) + color_end()
    } else {
        highlight_prefix(s)
    }
}

/// Colours each string literal of a JSON text for a terminal.
pub fn highlight_json(text: &str) -> (r: String)
    ensures
        r@ == highlighted(text@),
{
    let n = text.unicode_len();
    let mut out = String::new();
    let mut in_string = false;
    let mut escaped = false;
    let mut i: usize = 0;
    while i < n
        invariant
            n == text@.len(),
            i <= n,
            out@ == highlight_prefix(text@.subrange(0, i as int)),
            scan_state(text@.subrange(0, i as int)) == (ScanState { in_string, escaped }),
        decreases n - i,
    {
        let c = text.get_char(i);
        let one = text.substring_char(i, i + 1);
        assert(one@ =~= seq![c]);
        let ghost pre = text@.subrange(0, i as int);
        assert(text@.subrange(0, i + 1).drop_last() =~= pre);
        if !in_string && c == '"' {
            out.append("\u{1b}[32m");
            out.append(one);
        } else if in_string && !escaped && c == '"' {
            out.append(one);
            out.append("\u{1b}[0m");
        } else {
            out.append(one);
        }
        assert(out@ =~= highlight_prefix(pre) + emit(scan_state(pre), c));
        if !in_string {
            in_string = c == '"';
            escaped = false;
        } else if escaped {
            escaped = false;
        } else if c == '"' {
            in_string = false;
        } else {
            escaped = c == '\\';
        }
        i = i + 1;
    }
    assert(text@.subrange(0, n as int) =~= text@);
    if in_string {
        out.append("\u{1b}[0m");
    }
    out
}

} // verus!
