//! Text helpers over `str` / `String` views: decimal and upper-case
//! hexadecimal rendering, string comparison, Unicode-whitespace trimming and
//! unsigned integer parsing with Rust's `from_str_radix` rules (optional
//! leading `+`, at least one digit, no overflow).
use vstd::prelude::*;
use vstd::string::StrSliceExecFns;

verus! {

/// Upper-case hexadecimal digit of `d` (`0..16`).
pub open spec fn hex_char(d: nat) -> char {
    if d < 10 {
        ((d + 48) as u32) as char
    } else {
        ((d + 55) as u32) as char
    }
}

/// Decimal rendering of `n` (no leading zeros).
pub open spec fn dec_digits(n: nat) -> Seq<char>
    decreases n,
{
    if n < 10 {
        seq![hex_char(n)]
    } else {
        dec_digits(n / 10).push(hex_char(n % 10))
    }
}

/// Upper-case hexadecimal rendering of `n`, zero-padded to at least `w`
/// digits (`{:0wX}`).
pub open spec fn hex_min(n: nat, w: nat) -> Seq<char>
    decreases n + w,
{
    if n < 16 && w <= 1 {
        seq![hex_char(n)]
    } else {
        hex_min(
            n / 16,
            if w > 0 {
                (w - 1) as nat
            } else {
                0
            },
        ).push(hex_char(n % 16))
    }
}

/// One upper-case hexadecimal digit as a string.
pub fn digit_str(d: u8) -> (r: &'static str)
    requires
        d < 16,
    ensures
        r@ == seq![hex_char(d as nat)],
{
    proof {
        reveal_strlit("0");
        reveal_strlit("1");
        reveal_strlit("2");
        reveal_strlit("3");
        reveal_strlit("4");
        reveal_strlit("5");
        reveal_strlit("6");
        reveal_strlit("7");
        reveal_strlit("8");
        reveal_strlit("9");
        reveal_strlit("A");
        reveal_strlit("B");
        reveal_strlit("C");
        reveal_strlit("D");
        reveal_strlit("E");
        reveal_strlit("F");
    }
    let r = match d {
        0 => "0",
        1 => "1",
        2 => "2",
        3 => "3",
        4 => "4",
        5 => "5",
        6 => "6",
        7 => "7",
        8 => "8",
        9 => "9",
        10 => "A",
        11 => "B",
        12 => "C",
        13 => "D",
        14 => "E",
        _ => "F",
    };
    assert(r@ =~= seq![hex_char(d as nat)]);
    r
}

/// Append the decimal rendering of `n`.
pub fn push_dec(s: &mut String, n: u64)
    ensures
        final(s)@ == old(s)@ + dec_digits(n as nat),
    decreases n,
{
    if n >= 10 {
        push_dec(s, n / 10);
    }
    s.append(digit_str((n % 10) as u8));
    proof {
        if n >= 10 {
            assert(old(s)@ + dec_digits(n as nat) =~= old(s)@ + dec_digits((n / 10) as nat) + seq![
                hex_char((n % 10) as nat),
            ]);
        } else {
            assert(old(s)@ + dec_digits(n as nat) =~= old(s)@ + seq![hex_char(n as nat)]);
        }
    }
}

/// Append the upper-case hexadecimal rendering of `n`, zero-padded to at
/// least `w` digits.
pub fn push_hex(s: &mut String, n: u64, w: u64)
    ensures
        final(s)@ == old(s)@ + hex_min(n as nat, w as nat),
    decreases n + w,
{
    if n < 16 && w <= 1 {
        s.append(digit_str(n as u8));
        assert(old(s)@ + hex_min(n as nat, w as nat) =~= old(s)@ + seq![hex_char(n as nat)]);
    } else {
        let w2: u64 = if w > 0 {
            w - 1
        } else {
            0
        };
        push_hex(s, n / 16, w2);
        s.append(digit_str((n % 16) as u8));
        assert(old(s)@ + hex_min(n as nat, w as nat) =~= old(s)@ + hex_min((n / 16) as nat, w2 as nat)
            + seq![hex_char((n % 16) as nat)]);
    }
}

/// Lower-case hexadecimal digit of `d` (`0..16`).
pub open spec fn hex_char_lower(d: nat) -> char {
    if d < 10 {
        ((d + 48) as u32) as char
    } else {
        ((d + 87) as u32) as char
    }
}

/// Lower-case hexadecimal rendering of `n`, zero-padded to at least `w`
/// digits (`{:0wx}`).
pub open spec fn hex_min_lower(n: nat, w: nat) -> Seq<char>
    decreases n + w,
{
    if n < 16 && w <= 1 {
        seq![hex_char_lower(n)]
    } else {
        hex_min_lower(
            n / 16,
            if w > 0 {
                (w - 1) as nat
            } else {
                0
            },
        ).push(hex_char_lower(n % 16))
    }
}

/// Rust's `{:#0wx}` with `w` the whole width: `0x`, then at least `w - 2`
/// lower-case digits.
pub open spec fn alt_hex(n: nat, w: nat) -> Seq<char> {
    "0x"@ + hex_min_lower(n, if w >= 2 { (w - 2) as nat } else { 0 })
}

/// One lower-case hexadecimal digit as a string.
pub fn digit_str_lower(d: u8) -> (r: &'static str)
    requires
        d < 16,
    ensures
        r@ == seq![hex_char_lower(d as nat)],
{
    if d < 10 {
        return digit_str(d);
    }
    proof {
        reveal_strlit("a");
        reveal_strlit("b");
        reveal_strlit("c");
        reveal_strlit("d");
        reveal_strlit("e");
        reveal_strlit("f");
    }
    let r = match d {
        10 => "a",
        11 => "b",
        12 => "c",
        13 => "d",
        14 => "e",
        _ => "f",
    };
    assert(r@ =~= seq![hex_char_lower(d as nat)]);
    r
}

/// Append the lower-case hexadecimal rendering of `n`, zero-padded to at
/// least `w` digits.
pub fn push_hex_lower(s: &mut String, n: u64, w: u64)
    ensures
        final(s)@ == old(s)@ + hex_min_lower(n as nat, w as nat),
    decreases n + w,
{
    if n < 16 && w <= 1 {
        s.append(digit_str_lower(n as u8));
        assert(old(s)@ + hex_min_lower(n as nat, w as nat) =~= old(s)@ + seq![hex_char_lower(n as nat)]);
    } else {
        let w2: u64 = if w > 0 {
            w - 1
        } else {
            0
        };
        push_hex_lower(s, n / 16, w2);
        s.append(digit_str_lower((n % 16) as u8));
        assert(old(s)@ + hex_min_lower(n as nat, w as nat) =~= old(s)@ + hex_min_lower((n / 16) as nat, w2 as nat)
            + seq![hex_char_lower((n % 16) as nat)]);
    }
}

/// Append Rust's `{:#0wx}` rendering of `n` (`w` counts the `0x`).
pub fn push_alt_hex(s: &mut String, n: u64, w: u64)
    ensures
        final(s)@ == old(s)@ + alt_hex(n as nat, w as nat),
{
    s.append("0x");
    let digits: u64 = if w >= 2 {
        w - 2
    } else {
        0
    };
    push_hex_lower(s, n, digits);
    assert(old(s)@ + alt_hex(n as nat, w as nat) =~= old(s)@ + "0x"@ + hex_min_lower(n as nat, digits as nat));
}

/// `String::push`: appends `c` to the end of `s`, as std documents.
#[verifier::external_body]
pub(crate) fn push_char(s: &mut String, c: char)
    ensures
        final(s)@ == old(s)@.push(c),
{
    s.push(c);
}

/// What Rust's `Debug` formatting of a `str` (`{:?}`) writes for `s`: the
/// text in double quotes with std's escapes.
pub uninterp spec fn debug_text(s: Seq<char>) -> Seq<char>;

/// `format!("{:?}", s)`: std's `Debug` rendering of a string slice. The
/// contract only names the result as a function of `s`; which characters
/// std escapes, and how, is left to std's documentation.
#[verifier::external_body]
pub(crate) fn debug_str(s: &str) -> (r: String)
    ensures
        r@ == debug_text(s@),
{
    format!("{:?}", s)
}

/// Decimal rendering of `n` as a new string.
pub fn dec_string(n: u64) -> (r: String)
    ensures
        r@ == dec_digits(n as nat),
{
    let mut s = String::new();
    push_dec(&mut s, n);
    assert(s@ =~= dec_digits(n as nat));
    s
}

/// Whether two strings hold the same characters.
pub fn str_eq(a: &str, b: &str) -> (r: bool)
    ensures
        r == (a@ == b@),
{
    let n = a.unicode_len();
    if n != b.unicode_len() {
        return false;
    }
    let mut i: usize = 0;
    while i < n
        invariant
            n == a@.len(),
            n == b@.len(),
            i <= n,
            forall|j: int| 0 <= j < i ==> a@[j] == b@[j],
        decreases n - i,
    {
        if a.get_char(i) != b.get_char(i) {
            return false;
        }
        i = i + 1;
    }
    assert(a@ =~= b@);
    true
}

/// Unicode `White_Space` (what `char::is_whitespace` tests).
pub open spec fn is_ws(c: char) -> bool {
    let x = c as u32;
    (0x09 <= x <= 0x0D) || x == 0x20 || x == 0x85 || x == 0xA0 || x == 0x1680 || (0x2000 <= x
        <= 0x200A) || x == 0x2028 || x == 0x2029 || x == 0x202F || x == 0x205F || x == 0x3000
}

fn is_ws_exec(c: char) -> (r: bool)
    ensures
        r == is_ws(c),
{
    let x = c as u32;
    (0x09 <= x && x <= 0x0D) || x == 0x20 || x == 0x85 || x == 0xA0 || x == 0x1680 || (0x2000 <= x
        && x <= 0x200A) || x == 0x2028 || x == 0x2029 || x == 0x202F || x == 0x205F || x == 0x3000
}

/// `s` without leading whitespace.
pub open spec fn trim_start(s: Seq<char>) -> Seq<char>
    decreases s.len(),
{
    if s.len() > 0 && is_ws(s[0]) {
        trim_start(s.drop_first())
    } else {
        s
    }
}

/// `s` without trailing whitespace.
pub open spec fn trim_end(s: Seq<char>) -> Seq<char>
    decreases s.len(),
{
    if s.len() > 0 && is_ws(s.last()) {
        trim_end(s.drop_last())
    } else {
        s
    }
}

/// `s` without leading and trailing whitespace (`str::trim`).
pub open spec fn trim(s: Seq<char>) -> Seq<char> {
    trim_end(trim_start(s))
}

proof fn lemma_trim_start_skip(s: Seq<char>, i: int)
    requires
        0 <= i <= s.len(),
        forall|j: int| 0 <= j < i ==> is_ws(s[j]),
    ensures
        trim_start(s) == trim_start(s.skip(i)),
    decreases i,
{
    if i > 0 {
        assert(s.skip(1) =~= s.drop_first());
        lemma_trim_start_skip(s.drop_first(), i - 1);
        assert(s.drop_first().skip(i - 1) =~= s.skip(i));
    } else {
        assert(s.skip(0) =~= s);
    }
}

proof fn lemma_trim_end_take(s: Seq<char>, k: int)
    requires
        0 <= k <= s.len(),
        forall|j: int| k <= j < s.len() ==> is_ws(s[j]),
    ensures
        trim_end(s) == trim_end(s.take(k)),
    decreases s.len() - k,
{
    if k < s.len() {
        assert(s.take(s.len() - 1) =~= s.drop_last());
        lemma_trim_end_take(s.drop_last(), k);
        assert(s.drop_last().take(k) =~= s.take(k));
    } else {
        assert(s.take(k) =~= s);
    }
}

/// Character bounds `(lo, hi)` of `s.trim()` within `s`.
pub fn trim_bounds(s: &str) -> (r: (usize, usize))
    ensures
        r.0 <= r.1 <= s@.len(),
        s@.subrange(r.0 as int, r.1 as int) == trim(s@),
{
    let n = s.unicode_len();
    let mut lo: usize = 0;
    while lo < n && is_ws_exec(s.get_char(lo))
        invariant
            n == s@.len(),
            lo <= n,
            forall|j: int| 0 <= j < lo ==> is_ws(s@[j]),
        decreases n - lo,
    {
        lo = lo + 1;
    }
    proof {
        lemma_trim_start_skip(s@, lo as int);
        assert(trim_start(s@.skip(lo as int)) == s@.skip(lo as int));
    }
    let mut hi: usize = n;
    while hi > lo && is_ws_exec(s.get_char(hi - 1))
        invariant
            n == s@.len(),
            lo <= hi <= n,
            forall|j: int| hi <= j < n ==> is_ws(s@[j]),
        decreases hi - lo,
    {
        hi = hi - 1;
    }
    proof {
        let t = s@.skip(lo as int);
        lemma_trim_end_take(t, (hi - lo) as int);
        assert(t.take((hi - lo) as int) =~= s@.subrange(lo as int, hi as int));
        let u = s@.subrange(lo as int, hi as int);
        if u.len() > 0 {
            assert(!is_ws(u.last()));
        }
        assert(trim_end(u) == u);
    }
    (lo, hi)
}

/// Value of digit `c` in `radix` (10 or 16), if it is one.
pub open spec fn digit_of(c: char, radix: nat) -> Option<nat> {
    let x = c as u32;
    if 0x30 <= x <= 0x39 && (x - 0x30) < radix {
        Some((x - 0x30) as nat)
    } else if radix == 16 && 0x41 <= x <= 0x46 {
        Some((x - 0x41 + 10) as nat)
    } else if radix == 16 && 0x61 <= x <= 0x66 {
        Some((x - 0x61 + 10) as nat)
    } else {
        None
    }
}

/// Whether every character of `s` is a digit in `radix`.
pub open spec fn all_digits(s: Seq<char>, radix: nat) -> bool {
    forall|j: int| 0 <= j < s.len() ==> (#[trigger] digit_of(s[j], radix)) is Some
}

/// Value of the digit string `s` (non-digits count as 0).
pub open spec fn digits_value(s: Seq<char>, radix: nat) -> nat
    decreases s.len(),
{
    if s.len() == 0 {
        0
    } else {
        digits_value(s.drop_last(), radix) * radix + match digit_of(s.last(), radix) {
            Some(d) => d,
            None => 0,
        }
    }
}

/// `s` parsed as an unsigned integer in `radix` no larger than `max`: an
/// optional leading `+`, then at least one digit.
pub open spec fn parse_uint_spec(s: Seq<char>, radix: nat, max: nat) -> Option<nat> {
    let d = if s.len() > 0 && s[0] == '+' {
        s.drop_first()
    } else {
        s
    };
    if d.len() == 0 || !all_digits(d, radix) || digits_value(d, radix) > max {
        None
    } else {
        Some(digits_value(d, radix))
    }
}

proof fn lemma_digits_value_mono(s: Seq<char>, radix: nat, k: int)
    requires
        0 <= k <= s.len(),
        radix >= 1,
    ensures
        digits_value(s.take(k), radix) <= digits_value(s, radix),
    decreases s.len() - k,
{
    if k < s.len() {
        let t = s.drop_last();
        lemma_digits_value_mono(t, radix, k);
        assert(t.take(k) =~= s.take(k));
        let v = digits_value(t, radix);
        assert(v * radix >= v) by (nonlinear_arith)
            requires
                radix >= 1,
        ;
    } else {
        assert(s.take(k) =~= s);
    }
}

fn digit_exec(c: char, radix: u32) -> (r: Option<u32>)
    requires
        radix == 10 || radix == 16,
    ensures
        match r {
            Some(d) => digit_of(c, radix as nat) == Some(d as nat) && d < radix,
            None => digit_of(c, radix as nat) is None,
        },
{
    let x = c as u32;
    if 0x30 <= x && x <= 0x39 && (x - 0x30) < radix {
        Some(x - 0x30)
    } else if radix == 16 && 0x41 <= x && x <= 0x46 {
        Some(x - 0x41 + 10)
    } else if radix == 16 && 0x61 <= x && x <= 0x66 {
        Some(x - 0x61 + 10)
    } else {
        None
    }
}

/// Parse characters `lo..hi` of `s` as an unsigned integer in `radix` no
/// larger than `max`.
pub fn parse_uint(s: &str, lo: usize, hi: usize, radix: u32, max: u64) -> (r: Option<u64>)
    requires
        lo <= hi <= s@.len(),
        radix == 10 || radix == 16,
    ensures
        match parse_uint_spec(s@.subrange(lo as int, hi as int), radix as nat, max as nat) {
            Some(v) => r == Some(v as u64),
            None => r is None,
        },
{
    let ghost whole = s@.subrange(lo as int, hi as int);
    let mut start = lo;
    if lo < hi && s.get_char(lo) == '+' {
        start = lo + 1;
    }
    let ghost d = s@.subrange(start as int, hi as int);
    assert(d == (if whole.len() > 0 && whole[0] == '+' {
        whole.drop_first()
    } else {
        whole
    })) by {
        if lo < hi && s@[lo as int] == '+' {
            assert(whole.drop_first() =~= d);
        } else {
            assert(whole =~= d);
        }
    }
    if start == hi {
        return None;
    }
    let mut acc: u64 = 0;
    let mut i = start;
    while i < hi
        invariant
            start <= i <= hi <= s@.len(),
            d == s@.subrange(start as int, hi as int),
            d == (if whole.len() > 0 && whole[0] == '+' {
                whole.drop_first()
            } else {
                whole
            }),
            whole == s@.subrange(lo as int, hi as int),
            d.len() > 0,
            radix == 10 || radix == 16,
            acc as nat == digits_value(d.take(i - start), radix as nat),
            acc <= max,
            all_digits(d.take(i - start), radix as nat),
        decreases hi - i,
    {
        let c = s.get_char(i);
        let dig = match digit_exec(c, radix) {
            Some(v) => v,
            None => {
                proof {
                    let k = (i - start) as int;
                    assert(d[k] == c);
                    assert(digit_of(d[k], radix as nat) is None);
                    assert(!all_digits(d, radix as nat));
                }
                return None;
            },
        };
        assert((acc as u128) * (radix as u128) <= 0xFFFF_FFFF_FFFF_FFFFu128 * 16) by (nonlinear_arith)
            requires
                acc <= 0xFFFF_FFFF_FFFF_FFFFu64,
                radix <= 16,
        ;
        let next: u128 = (acc as u128) * (radix as u128) + (dig as u128);
        let ghost k = (i - start) as int;
        proof {
            assert(d.take(k + 1).drop_last() =~= d.take(k));
            assert(d.take(k + 1).last() == c);
            assert(next as nat == digits_value(d.take(k + 1), radix as nat));
        }
        if next > max as u128 {
            proof {
                lemma_digits_value_mono(d, radix as nat, k + 1);
                assert(digits_value(d, radix as nat) > max);
            }
            return None;
        }
        acc = next as u64;
        i = i + 1;
        proof {
            assert forall|j: int| 0 <= j < k + 1 implies (#[trigger] digit_of(
                d.take(k + 1)[j],
                radix as nat,
            )) is Some by {
                if j < k {
                    assert(d.take(k + 1)[j] == d.take(k)[j]);
                }
            }
        }
    }
    assert(d.take(d.len() as int) =~= d);
    Some(acc)
}

} // verus!
