//! Which JSON texts hold a string that the Web API crate's timestamp decoder
//! cannot turn into microseconds.
//!
//! That decoder reads a string `"i.f"` as `i * 1_000_000` plus the microseconds
//! of `.f`, and a string `"i"` as `i * 1_000_000`, in 64-bit arithmetic, where `i`
//! is read as an unsigned integer (an optional `+`, then digits). Where `i` is
//! 18446744073709 or more, or `.f` holds an exponent, that sum may leave the
//! 64-bit range. A text that holds such a string anywhere (under any key, as a
//! key or as a value) is refused before it reaches the decoder.

use vstd::prelude::*;
use vstd::string::*;

verus! {

/// The least integer part for which a timestamp may overflow.
pub const TIMESTAMP_LIMIT: u64 = 18446744073709;

/// What the characters of a string read so far say of it as a timestamp.
#[derive(Clone, Copy, PartialEq, Eq, Structural)]
pub enum Digits {
    /// Nothing read yet.
    Start,
    /// A leading `+`.
    Sign,
    /// Digits (after an optional `+`) of this value, held at most at the limit.
    Int(u64),
    /// An integer part and a `.`; `big` where the integer part reached the
    /// limit, `exp` where an exponent letter came after the `.`.
    Frac { big: bool, exp: bool },
    /// Not a timestamp the decoder multiplies.
    Dead,
}

/// Where a scan of JSON text stands.
#[derive(Clone, Copy, PartialEq, Eq, Structural)]
pub enum Lex {
    /// Outside any string.
    Outside,
    /// Inside a string.
    InStr(Digits),
    /// After a backslash inside a string.
    Esc(Digits),
    /// Inside a `\u` escape: the hex digits read so far and their value.
    Hex(Digits, u8, u32),
}

/// `code` is a decimal digit.
pub open spec fn is_digit(code: u32) -> bool {
    0x30 <= code <= 0x39
}

/// The value of a hex digit.
pub open spec fn hex_value(c: char) -> Option<u32> {
    if '0' <= c <= '9' {
        Some((c as u32 - 0x30) as u32)
    } else if 'a' <= c <= 'f' {
        Some((c as u32 - 0x61 + 10) as u32)
    } else if 'A' <= c <= 'F' {
        Some((c as u32 - 0x41 + 10) as u32)
    } else {
        None
    }
}

/// What a string says of itself as a timestamp after one more character,
/// given by its code.
pub open spec fn feed(d: Digits, code: u32) -> Digits {
    match d {
        Digits::Start => if is_digit(code) {
            Digits::Int((code - 0x30) as u64)
        } else if code == 0x2B {
            Digits::Sign
        } else {
            Digits::Dead
        },
        Digits::Sign => if is_digit(code) {
            Digits::Int((code - 0x30) as u64)
        } else {
            Digits::Dead
        },
        Digits::Int(v) => if is_digit(code) {
            if v * 10 + (code - 0x30) >= TIMESTAMP_LIMIT {
                Digits::Int(TIMESTAMP_LIMIT)
            } else {
                Digits::Int((v * 10 + (code - 0x30)) as u64)
            }
        } else if code == 0x2E {
            Digits::Frac { big: v >= TIMESTAMP_LIMIT, exp: false }
        } else {
            Digits::Dead
        },
        Digits::Frac { big, exp } => Digits::Frac { big, exp: exp || code == 0x45 || code == 0x65 },
        Digits::Dead => Digits::Dead,
    }
}

/// A whole string that the timestamp decoder may overflow on.
pub open spec fn overflows(d: Digits) -> bool {
    match d {
        Digits::Int(v) => v >= TIMESTAMP_LIMIT,
        Digits::Frac { big, exp } => big || exp,
        _ => false,
    }
}

/// One step of the scan over character `c`, and whether it closed a string
/// that the timestamp decoder may overflow on. An escape other than `\u`
/// stands for a character that is neither a digit, `+`, `.` nor an exponent
/// letter.
pub open spec fn lex_step(s: Lex, c: char) -> (Lex, bool) {
    match s {
        Lex::Outside => (if c == '"' { Lex::InStr(Digits::Start) } else { Lex::Outside }, false),
        Lex::InStr(d) => if c == '"' {
            (Lex::Outside, overflows(d))
        } else if c == '\\' {
            (Lex::Esc(d), false)
        } else {
            (Lex::InStr(feed(d, c as u32)), false)
        },
        Lex::Esc(d) => if c == 'u' {
            (Lex::Hex(d, 0, 0), false)
        } else {
            (Lex::InStr(feed(d, 0)), false)
        },
        Lex::Hex(d, k, acc) => match hex_value(c) {
            Some(h) => if k >= 3 {
                (Lex::InStr(feed(d, (acc * 16 + h) as u32)), false)
            } else {
                (Lex::Hex(d, (k + 1) as u8, (acc * 16 + h) as u32), false)
            },
            None => (Lex::InStr(feed(d, 0)), false),
        },
    }
}

/// A scan that holds each `\u` escape's value within four hex digits.
pub open spec fn lex_bounded(s: Lex) -> bool {
    match s {
        Lex::Hex(_, k, acc) => k <= 3 && acc < pow16(k),
        _ => true,
    }
}

/// Sixteen to the power `k`, for `k` at most four.
pub open spec fn pow16(k: u8) -> u32 {
    if k == 0 { 1 } else if k == 1 { 16 } else if k == 2 { 256 } else if k == 3 { 4096 } else { 65536 }
}

/// Where a scan of `t` ends, and whether it closed a string that the timestamp
/// decoder may overflow on.
pub open spec fn lex(t: Seq<char>) -> (Lex, bool)
    decreases t.len(),
{
    if t.len() == 0 {
        (Lex::Outside, false)
    } else {
        let before = lex(t.drop_last());
        let last = lex_step(before.0, t.last());
        (last.0, before.1 || last.1)
    }
}

/// `t` holds a string on which the timestamp decoder may overflow.
pub open spec fn holds_timestamp_overflow(t: Seq<char>) -> bool {
    lex(t).1
}

fn feed_exec(d: Digits, code: u32) -> (r: Digits)
    ensures
        r == feed(d, code),
{
    match d {
        Digits::Start => if 0x30 <= code && code <= 0x39 {
            Digits::Int((code - 0x30) as u64)
        } else if code == 0x2B {
            Digits::Sign
        } else {
            Digits::Dead
        },
        Digits::Sign => if 0x30 <= code && code <= 0x39 {
            Digits::Int((code - 0x30) as u64)
        } else {
            Digits::Dead
        },
        Digits::Int(v) => if 0x30 <= code && code <= 0x39 {
            let digit: u64 = (code - 0x30) as u64;
            if v >= TIMESTAMP_LIMIT || v * 10 + digit >= TIMESTAMP_LIMIT {
                Digits::Int(TIMESTAMP_LIMIT)
            } else {
                Digits::Int(v * 10 + digit)
            }
        } else if code == 0x2E {
            Digits::Frac { big: v >= TIMESTAMP_LIMIT, exp: false }
        } else {
            Digits::Dead
        },
        Digits::Frac { big, exp } => Digits::Frac { big, exp: exp || code == 0x45 || code == 0x65 },
        Digits::Dead => Digits::Dead,
    }
}

fn hex_value_exec(c: char) -> (r: Option<u32>)
    ensures
        r == hex_value(c),
{
    if '0' <= c && c <= '9' {
        Some(c as u32 - 0x30)
    } else if 'a' <= c && c <= 'f' {
        Some(c as u32 - 0x61 + 10)
    } else if 'A' <= c && c <= 'F' {
        Some(c as u32 - 0x41 + 10)
    } else {
        None
    }
}

fn lex_step_exec(s: Lex, c: char) -> (r: (Lex, bool))
    requires
        lex_bounded(s),
    ensures
        r == lex_step(s, c),
        lex_bounded(r.0),
{
    match s {
        Lex::Outside => (if c == '"' { Lex::InStr(Digits::Start) } else { Lex::Outside }, false),
        Lex::InStr(d) => if c == '"' {
            let o: bool = match d {
                Digits::Int(v) => v >= TIMESTAMP_LIMIT,
                Digits::Frac { big, exp } => big || exp,
                _ => false,
            };
            (Lex::Outside, o)
        } else if c == '\\' {
            (Lex::Esc(d), false)
        } else {
            (Lex::InStr(feed_exec(d, c as u32)), false)
        },
        Lex::Esc(d) => if c == 'u' {
            (Lex::Hex(d, 0, 0), false)
        } else {
            (Lex::InStr(feed_exec(d, 0)), false)
        },
        Lex::Hex(d, k, acc) => match hex_value_exec(c) {
            Some(h) => {
                assert(acc * 16 + h < 65536);
                if k >= 3 {
                    (Lex::InStr(feed_exec(d, acc * 16 + h)), false)
                } else {
                    (Lex::Hex(d, k + 1, acc * 16 + h), false)
                }
            },
            None => (Lex::InStr(feed_exec(d, 0)), false),
        },
    }
}

/// Whether `text` holds a string on which the Web API crate's timestamp
/// decoder may overflow.
pub fn timestamp_may_overflow(text: &str) -> (b: bool)
    ensures
        b == holds_timestamp_overflow(text@),
{
    let n: usize = text.unicode_len();
    let mut state: Lex = Lex::Outside;
    let mut found: bool = false;
    let mut i: usize = 0;
    while i < n
        invariant
            n == text@.len(),
            i <= n,
            lex_bounded(state),
            (state, found) == lex(text@.take(i as int)),
        decreases n - i,
    {
        let c: char = text.get_char(i);
        assert(text@.take(i + 1).drop_last() =~= text@.take(i as int));
        let (next, closed) = lex_step_exec(state, c);
        state = next;
        found = found || closed;
        i = i + 1;
    }
    assert(text@.take(n as int) =~= text@);
    found
}

/// `d` holds only decimal digits.
pub open spec fn all_digits(d: Seq<char>) -> bool {
    forall|i: int| 0 <= i < d.len() ==> '0' <= #[trigger] d[i] <= '9'
}

/// The number that the decimal digits `d` write.
pub open spec fn digits_value(d: Seq<char>) -> int
    decreases d.len(),
{
    if d.len() == 0 {
        0
    } else {
        digits_value(d.drop_last()) * 10 + (d.last() as int - '0' as int)
    }
}

proof fn lemma_found_stays(x: Seq<char>, b: Seq<char>)
    requires
        lex(x).1,
    ensures
        lex(x + b).1,
    decreases b.len(),
{
    if b.len() == 0 {
        assert(x + b =~= x);
    } else {
        lemma_found_stays(x, b.drop_last());
        assert((x + b).drop_last() =~= x + b.drop_last());
    }
}

proof fn lemma_digits_lexed(a: Seq<char>, d: Seq<char>)
    requires
        lex(a).0 == Lex::Outside,
        all_digits(d),
    ensures
        lex(a + seq!['"'] + d).1 == lex(a).1,
        lex(a + seq!['"'] + d).0 == if d.len() == 0 {
            Lex::InStr(Digits::Start)
        } else if digits_value(d) >= TIMESTAMP_LIMIT {
            Lex::InStr(Digits::Int(TIMESTAMP_LIMIT))
        } else {
            Lex::InStr(Digits::Int(digits_value(d) as u64))
        },
        0 <= digits_value(d),
    decreases d.len(),
{
    if d.len() == 0 {
        assert(a + seq!['"'] + d =~= a + seq!['"']);
        assert((a + seq!['"']).drop_last() =~= a);
    } else {
        let dl = d.drop_last();
        assert(all_digits(dl));
        lemma_digits_lexed(a, dl);
        assert((a + seq!['"'] + d).drop_last() =~= a + seq!['"'] + dl);
        assert((a + seq!['"'] + d).last() == d.last());
        assert('0' <= d[d.len() - 1] <= '9');
    }
}

/// The scan finds every string of decimal digits whose value reaches
/// `TIMESTAMP_LIMIT`, wherever it stands outside other strings, and a find
/// is not undone by what follows.
pub proof fn law_big_digit_strings_are_found(a: Seq<char>, d: Seq<char>, b: Seq<char>)
    requires
        lex(a).0 == Lex::Outside,
        all_digits(d),
        digits_value(d) >= TIMESTAMP_LIMIT,
    ensures
        holds_timestamp_overflow(a + seq!['"'] + d + seq!['"'] + b),
{
    lemma_digits_lexed(a, d);
    assert((a + seq!['"'] + d + seq!['"']).drop_last() =~= a + seq!['"'] + d);
    lemma_found_stays(a + seq!['"'] + d + seq!['"'], b);
}

/// A string of decimal digits below `TIMESTAMP_LIMIT` is not refused: after
/// it the scan stands outside strings, with what it had found before.
pub proof fn law_small_digit_strings_pass(a: Seq<char>, d: Seq<char>)
    requires
        lex(a).0 == Lex::Outside,
        all_digits(d),
        digits_value(d) < TIMESTAMP_LIMIT,
    ensures
        lex(a + seq!['"'] + d + seq!['"']) == (Lex::Outside, lex(a).1),
{
    lemma_digits_lexed(a, d);
    assert((a + seq!['"'] + d + seq!['"']).drop_last() =~= a + seq!['"'] + d);
}

/// A text without any `"` holds no string, so the scan finds nothing in it.
pub proof fn law_text_without_strings(t: Seq<char>)
    requires
        forall|i: int| 0 <= i < t.len() ==> t[i] != '"',
    ensures
        lex(t) == (Lex::Outside, false),
    decreases t.len(),
{
    if t.len() > 0 {
        law_text_without_strings(t.drop_last());
    }
}

} // verus!
