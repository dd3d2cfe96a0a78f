//! The terminal line protocol: every redraw is an escape-prefixed line
//! clear followed by the frame glyph, a separator, the message and, when
//! timing is enabled, an elapsed-time annotation in parentheses. The final
//! line written on stop follows the same clear-and-write convention.

use vstd::prelude::*;
use vstd::string::StringExecFns;

verus! {

/// The carriage return and erase-line escape that makes successive writes
/// overwrite the same terminal line.
pub open spec fn clear_seq() -> Seq<char> {
    seq!['\r', '\x1b', '[', 'K']
}

/// The decimal digit character for a value below ten.
pub open spec fn digit_char(d: nat) -> char {
    if d == 0 {
        '0'
    } else if d == 1 {
        '1'
    } else if d == 2 {
        '2'
    } else if d == 3 {
        '3'
    } else if d == 4 {
        '4'
    } else if d == 5 {
        '5'
    } else if d == 6 {
        '6'
    } else if d == 7 {
        '7'
    } else if d == 8 {
        '8'
    } else {
        '9'
    }
}

/// The usual decimal rendering of a natural number, most significant digit
/// first, with no leading zeros except for zero itself.
pub open spec fn dec_seq(n: nat) -> Seq<char>
    decreases n,
{
    if n < 10 {
        seq![digit_char(n)]
    } else {
        dec_seq(n / 10).push(digit_char(n % 10))
    }
}

/// Elapsed time scaled to a readable unit: milliseconds below one second,
/// whole seconds from there on.
pub open spec fn elapsed_seq(ms: nat) -> Seq<char> {
    if ms < 1000 {
        dec_seq(ms) + seq!['m', 's']
    } else {
        dec_seq(ms / 1000) + seq!['s']
    }
}

/// Milliseconds elapsed from `start` to `at`, clamped to zero if the clock
/// handed back a moment before the start.
pub open spec fn elapsed_millis(start: u64, at: u64) -> u64 {
    if at >= start {
        (at - start) as u64
    } else {
        0
    }
}

/// The elapsed annotation that a redraw carries: none when timing is off,
/// else the time from the start timestamp to the annotation timestamp.
pub open spec fn annotation_of(start_ms: Option<u64>, at_ms: u64) -> Option<u64> {
    match start_ms {
        Option::None => Option::None,
        Option::Some(s) => Option::Some(elapsed_millis(s, at_ms)),
    }
}

/// One full redraw line: clear, frame, one space, message, and the
/// parenthesised elapsed annotation when timing is enabled.
pub open spec fn line_seq(frame: Seq<char>, message: Seq<char>, annot: Option<u64>) -> Seq<char> {
    let base = clear_seq() + frame + seq![' '] + message;
    match annot {
        Option::None => base,
        Option::Some(ms) => base + seq![' ', '('] + elapsed_seq(ms as nat) + seq![')'],
    }
}

/// The final line written once the animation has stopped: a bare newline
/// when neither symbol nor message is given, else a clear followed by
/// exactly the given symbol, message, or symbol-space-message, with no
/// injected trailing newline.
pub open spec fn stop_seq(symbol: Option<Seq<char>>, message: Option<Seq<char>>) -> Seq<char> {
    match (symbol, message) {
        (Option::None, Option::None) => seq!['\n'],
        (Option::Some(s), Option::None) => clear_seq() + s,
        (Option::None, Option::Some(m)) => clear_seq() + m,
        (Option::Some(s), Option::Some(m)) => clear_seq() + s + seq![' '] + m,
    }
}

/// The one-character string for a decimal digit.
fn digit_str(d: u64) -> (r: &'static str)
    requires
        d < 10,
    ensures
        r@ == seq![digit_char(d as nat)],
{
    let r: &'static str = match d {
        0 => "0",
        1 => "1",
        2 => "2",
        3 => "3",
        4 => "4",
        5 => "5",
        6 => "6",
        7 => "7",
        8 => "8",
        _ => "9",
    };
    proof {
        reveal_strlit("0");
        reveal_strlit("1");
        reveal_strlit("2");
        reveal_strlit("3");
        reveal_strlit("4");
        reveal_strlit("5");
        reveal_strlit("6");
        reveal_strlit("7");
        reveal_strlit("8");
        reveal_strlit("9");
        assert(r@ =~= seq![digit_char(d as nat)]);
    }
    r
}

/// Renders a number in decimal, exactly as `dec_seq` describes it.
pub fn decimal(n: u64) -> (r: String)
    ensures
        r@ == dec_seq(n as nat),
    decreases n,
{
    if n < 10 {
        String::from_str(digit_str(n))
    } else {
        let mut s = decimal(n / 10);
        s.append(digit_str(n % 10));
        proof {
            assert(s@ =~= dec_seq(n as nat));
        }
        s
    }
}

/// Renders an elapsed time in a readable unit, exactly as `elapsed_seq`
/// describes it.
pub fn elapsed_text(ms: u64) -> (r: String)
    ensures
        r@ == elapsed_seq(ms as nat),
{
    if ms < 1000 {
        let mut s = decimal(ms);
        s.append("ms");
        proof {
            reveal_strlit("ms");
            assert(s@ =~= elapsed_seq(ms as nat));
        }
        s
    } else {
        let mut s = decimal(ms / 1000);
        s.append("s");
        proof {
            reveal_strlit("s");
            assert(s@ =~= elapsed_seq(ms as nat));
        }
        s
    }
}

/// Builds one redraw line for a frame (or replacement symbol) and message,
/// annotated with the elapsed time against `at_ms` when a start timestamp
/// is present.
pub fn render_line(frame: &str, message: &str, start_ms: Option<u64>, at_ms: u64) -> (r: String)
    ensures
        r@ == line_seq(frame@, message@, annotation_of(start_ms, at_ms)),
{
    let mut s = String::from_str("\r\x1b[K");
    s.append(frame);
    s.append(" ");
    s.append(message);
    proof {
        reveal_strlit("\r\x1b[K");
        reveal_strlit(" ");
        assert(s@ =~= clear_seq() + frame@ + seq![' '] + message@);
    }
    match start_ms {
        Option::None => s,
        Option::Some(start) => {
            let elapsed: u64 = if at_ms >= start {
                at_ms - start
            } else {
                0
            };
            s.append(" (");
            let e = elapsed_text(elapsed);
            s.append(e.as_str());
            s.append(")");
            proof {
                reveal_strlit(" (");
                reveal_strlit(")");
                assert(s@ =~= line_seq(frame@, message@, annotation_of(start_ms, at_ms)));
            }
            s
        },
    }
}

/// Builds the final line for a stop: exactly the symbol and message the
/// caller supplied, laid out as `stop_seq` describes, or a bare newline
/// when neither is given.
pub fn stop_line(symbol: Option<&str>, message: Option<&str>) -> (r: String)
    ensures
        r@ == stop_seq(symbol.deep_view(), message.deep_view()),
{
    match (symbol, message) {
        (Option::None, Option::None) => {
            let s = String::from_str("\n");
            proof {
                reveal_strlit("\n");
                assert(s@ =~= stop_seq(symbol.deep_view(), message.deep_view()));
            }
            s
        },
        (Option::Some(sym), Option::None) => {
            let mut s = String::from_str("\r\x1b[K");
            s.append(sym);
            proof {
                reveal_strlit("\r\x1b[K");
                assert(s@ =~= stop_seq(symbol.deep_view(), message.deep_view()));
            }
            s
        },
        (Option::None, Option::Some(m)) => {
            let mut s = String::from_str("\r\x1b[K");
            s.append(m);
            proof {
                reveal_strlit("\r\x1b[K");
                assert(s@ =~= stop_seq(symbol.deep_view(), message.deep_view()));
            }
            s
        },
        (Option::Some(sym), Option::Some(m)) => {
            let mut s = String::from_str("\r\x1b[K");
            s.append(sym);
            s.append(" ");
            s.append(m);
            proof {
                reveal_strlit("\r\x1b[K");
                reveal_strlit(" ");
                assert(s@ =~= stop_seq(symbol.deep_view(), message.deep_view()));
            }
            s
        },
    }
}

/// With timing enabled, the elapsed annotation never decreases as the
/// annotation timestamp grows: two redraws taken at later and later
/// moments show a monotonically non-decreasing elapsed value.
pub proof fn lemma_elapsed_monotone(start: u64, first: u64, second: u64)
    requires
        first <= second,
    ensures
        elapsed_millis(start, first) <= elapsed_millis(start, second),
{
}

} // verus!
