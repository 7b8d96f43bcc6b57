//! Decimal rendering of integers, as the error messages of the protocol
//! write them.

use vstd::prelude::*;
use vstd::string::StringExecFns;
use vstd::std_specs::iter::IteratorSpec;

verus! {

/// The character of a decimal digit.
pub open spec fn digit_char(d: nat) -> char {
    (48 + d) as char
}

/// The decimal representation of `n`, without sign or leading zeros.
pub open spec fn decimal(n: nat) -> Seq<char>
    decreases n,
{
    if n < 10 {
        seq![digit_char(n)]
    } else {
        decimal(n / 10).push(digit_char(n % 10))
    }
}

/// The one-character text of the decimal digit `d`.
fn digit_text(d: u64) -> (r: &'static str)
    requires
        d < 10,
    ensures
        r@ == seq![digit_char(d as nat)],
{
    proof {
        reveal_strlit("0");
        reveal_strlit("1");
        reveal_strlit("2");
        reveal_strlit("3");
        reveal_strlit("4");
        reveal_strlit("5");
        reveal_strlit("6");
        reveal_strlit("7");
        reveal_strlit("8");
        reveal_strlit("9");
    }
    if d == 0 {
        "0"
    } else if d == 1 {
        "1"
    } else if d == 2 {
        "2"
    } else if d == 3 {
        "3"
    } else if d == 4 {
        "4"
    } else if d == 5 {
        "5"
    } else if d == 6 {
        "6"
    } else if d == 7 {
        "7"
    } else if d == 8 {
        "8"
    } else {
        "9"
    }
}

/// Writes `n` in decimal, without sign or leading zeros, as integer
/// formatting does.
pub(crate) fn u64_decimal(n: u64) -> (r: String)
    ensures
        r@ == decimal(n as nat),
    decreases n,
{
    if n < 10 {
        String::from_str(digit_text(n))
    } else {
        let mut s = u64_decimal(n / 10);
        s.append(digit_text(n % 10));
        s
    }
}

/// Writes `n` in decimal.
pub(crate) fn usize_decimal(n: usize) -> (r: String)
    ensures
        r@ == decimal(n as nat),
{
    u64_decimal(n as u64)
}

/// Writes `n` in decimal.
pub(crate) fn u16_decimal(n: u16) -> (r: String)
    ensures
        r@ == decimal(n as nat),
{
    u64_decimal(n as u64)
}

/// The items of a byte list in `Debug` form: the decimal of each byte,
/// separated by `", "`.
pub open spec fn byte_items(bytes: Seq<u8>) -> Seq<char>
    decreases bytes.len(),
{
    if bytes.len() == 0 {
        Seq::empty()
    } else if bytes.len() == 1 {
        decimal(bytes[0] as nat)
    } else {
        byte_items(bytes.drop_last()) + ", "@ + decimal(bytes.last() as nat)
    }
}

/// A byte list in `Debug` form, as std writes a `Vec<u8>`: `[1, 2, 3]`.
pub open spec fn bytes_text(bytes: Seq<u8>) -> Seq<char> {
    "["@ + byte_items(bytes) + "]"@
}

/// Writes `bytes` in `Debug` form.
pub(crate) fn bytes_debug(bytes: &Vec<u8>) -> (r: String)
    ensures
        r@ == bytes_text(bytes@),
{
    let mut s = String::from_str("[");
    let mut i: usize = 0;
    while i < bytes.len()
        invariant
            i <= bytes@.len(),
            s@ == "["@ + byte_items(bytes@.take(i as int)),
        decreases bytes@.len() - i,
    {
        let ghost prefix = bytes@.take(i as int);
        let ghost next = bytes@.take(i + 1);
        assert(next.drop_last() =~= prefix);
        if i > 0 {
            s.append(", ");
        }
        let digits = u16_decimal(bytes[i] as u16);
        s.append(digits.as_str());
        proof {
            assert(next.last() == bytes@[i as int]);
            if i == 0 {
                assert(prefix =~= Seq::<u8>::empty());
            }
        }
        i = i + 1;
    }
    assert(bytes@.take(i as int) =~= bytes@);
    s.append("]");
    s
}


/// `pattern` occurs in `s` starting at position `i`.
pub open spec fn occurs_at(s: Seq<char>, pattern: Seq<char>, i: int) -> bool {
    0 <= i && i + pattern.len() <= s.len() && s.subrange(i, i + pattern.len()) == pattern
}

/// `pattern` occurs somewhere in `s`.
pub open spec fn occurs_in(s: Seq<char>, pattern: Seq<char>) -> bool {
    exists|i: int| #[trigger] occurs_at(s, pattern, i)
}

/// The characters of `s`, in order.
fn chars_of(s: &str) -> (r: Vec<char>)
    ensures
        r@ == s@,
{
    broadcast use vstd::string::group_string_axioms;

    let mut it = s.chars();
    let mut out: Vec<char> = Vec::new();
    loop
        invariant_except_break
            out@ + it.remaining() == s@,
            it.decrease() is Some,
        ensures
            out@ == s@,
        decreases it.decrease()->0,
    {
        match it.next() {
            Some(c) => {
                out.push(c);
            },
            None => {
                break ;
            },
        }
    }
    out
}

/// Whether `pattern` occurs at position `i` of `s`.
fn matches_at(s: &Vec<char>, pattern: &Vec<char>, i: usize) -> (r: bool)
    requires
        i + pattern@.len() <= s@.len(),
    ensures
        r == occurs_at(s@, pattern@, i as int),
{
    let n = s.len();
    let mut j: usize = 0;
    while j < pattern.len()
        invariant
            n == s@.len(),
            i + pattern@.len() <= s@.len(),
            j <= pattern@.len(),
            s@.subrange(i as int, i + j) == pattern@.subrange(0, j as int),
        decreases pattern@.len() - j,
    {
        if s[i + j] != pattern[j] {
            assert(s@.subrange(i as int, i + pattern@.len())[j as int] != pattern@[j as int]);
            return false;
        }
        assert(s@.subrange(i as int, i + j + 1) =~= s@.subrange(i as int, i + j).push(s@[i + j]));
        assert(pattern@.subrange(0, j + 1) =~= pattern@.subrange(0, j as int).push(pattern@[j as int]));
        j = j + 1;
    }
    assert(pattern@.subrange(0, j as int) =~= pattern@);
    true
}

/// Whether `pattern` occurs in `s` (what `str::contains` answers for a
/// string pattern).
pub fn text_contains(s: &str, pattern: &str) -> (r: bool)
    ensures
        r == occurs_in(s@, pattern@),
{
    let hay = chars_of(s);
    let needle = chars_of(pattern);
    if needle.len() > hay.len() {
        assert(!occurs_in(s@, pattern@)) by {
            if occurs_in(s@, pattern@) {
                let i = choose|i: int| #[trigger] occurs_at(s@, pattern@, i);
            }
        }
        return false;
    }
    let last = hay.len() - needle.len();
    let mut i: usize = 0;
    while i <= last
        invariant_except_break
            i <= last,
        invariant
            hay@ == s@,
            needle@ == pattern@,
            last + needle@.len() == hay@.len(),
            forall|k: int| 0 <= k < i ==> !#[trigger] occurs_at(s@, pattern@, k),
        ensures
            forall|k: int| 0 <= k <= last ==> !#[trigger] occurs_at(s@, pattern@, k),
        decreases last + 1 - i,
    {
        if matches_at(&hay, &needle, i) {
            return true;
        }
        if i == last {
            break ;
        }
        i = i + 1;
    }
    assert(!occurs_in(s@, pattern@)) by {
        if occurs_in(s@, pattern@) {
            let k = choose|k: int| #[trigger] occurs_at(s@, pattern@, k);
            assert(k <= last);
        }
    }
    false
}

} // verus!
