//! Plain-text helpers: whitespace trimming, decimal parsing and decimal
//! rendering of 16-bit readings, as the sysfs files store them.

use vstd::prelude::*;

verus! {

/// A character of Unicode's `White_Space` set, the set that trimming removes.
pub open spec fn is_space(c: char) -> bool {
    c == ' ' || c == '\t' || c == '\n' || c == '\r' || c == '\u{b}' || c == '\u{c}'
        || c == '\u{85}' || c == '\u{a0}' || c == '\u{1680}'
        || ('\u{2000}' <= c && c <= '\u{200a}')
        || c == '\u{2028}' || c == '\u{2029}' || c == '\u{202f}' || c == '\u{205f}'
        || c == '\u{3000}'
}

fn is_space_char(c: char) -> (b: bool)
    ensures
        b == is_space(c),
{
    c == ' ' || c == '\t' || c == '\n' || c == '\r' || c == '\u{b}' || c == '\u{c}'
        || c == '\u{85}' || c == '\u{a0}' || c == '\u{1680}'
        || ('\u{2000}' <= c && c <= '\u{200a}')
        || c == '\u{2028}' || c == '\u{2029}' || c == '\u{202f}' || c == '\u{205f}'
        || c == '\u{3000}'
}

pub open spec fn trim_start_spec(s: Seq<char>) -> Seq<char>
    decreases s.len(),
{
    if s.len() > 0 && is_space(s[0]) {
        trim_start_spec(s.drop_first())
    } else {
        s
    }
}

pub open spec fn trim_end_spec(s: Seq<char>) -> Seq<char>
    decreases s.len(),
{
    if s.len() > 0 && is_space(s.last()) {
        trim_end_spec(s.drop_last())
    } else {
        s
    }
}

/// What is left of `s` once whitespace is removed from both ends.
pub open spec fn trim_spec(s: Seq<char>) -> Seq<char> {
    trim_end_spec(trim_start_spec(s))
}

proof fn lemma_trim_start_at(s: Seq<char>, k: int)
    requires
        0 <= k <= s.len(),
        forall|j: int| 0 <= j < k ==> is_space(s[j]),
        k == s.len() || !is_space(s[k]),
    ensures
        trim_start_spec(s) == s.subrange(k, s.len() as int),
    decreases k,
{
    if k == 0 {
        assert(s.subrange(0, s.len() as int) =~= s);
    } else {
        let t = s.drop_first();
        assert(t =~= s.subrange(1, s.len() as int));
        lemma_trim_start_at(t, k - 1);
        assert(t.subrange(k - 1, t.len() as int) =~= s.subrange(k, s.len() as int));
    }
}

proof fn lemma_trim_end_at(s: Seq<char>, k: int)
    requires
        0 <= k <= s.len(),
        forall|j: int| k <= j < s.len() ==> is_space(s[j]),
        k == 0 || !is_space(s[k - 1]),
    ensures
        trim_end_spec(s) == s.subrange(0, k),
    decreases s.len() - k,
{
    if k == s.len() {
        assert(s.subrange(0, k) =~= s);
    } else {
        let t = s.drop_last();
        assert(t =~= s.subrange(0, s.len() - 1));
        lemma_trim_end_at(t, k);
        assert(t.subrange(0, k) =~= s.subrange(0, k));
    }
}

/// Removes leading and trailing whitespace, as the readings carry a trailing
/// newline in their files.
pub fn trim(s: &str) -> (t: &str)
    ensures
        t@ == trim_spec(s@),
{
    let len = s.unicode_len();
    let mut lo: usize = 0;
    loop
        invariant
            0 <= lo <= len,
            len == s@.len(),
            forall|j: int| 0 <= j < lo ==> is_space(s@[j]),
        ensures
            0 <= lo <= len,
            forall|j: int| 0 <= j < lo ==> is_space(s@[j]),
            lo == len || !is_space(s@[lo as int]),
        decreases len - lo,
    {
        if lo >= len {
            break;
        }
        let c = s.get_char(lo);
        if !is_space_char(c) {
            break;
        }
        lo = lo + 1;
    }
    let mut hi: usize = len;
    loop
        invariant
            lo <= hi <= len,
            len == s@.len(),
            forall|j: int| hi <= j < len ==> is_space(s@[j]),
            lo == len || !is_space(s@[lo as int]),
        ensures
            lo <= hi <= len,
            forall|j: int| hi <= j < len ==> is_space(s@[j]),
            hi == lo || !is_space(s@[hi - 1]),
        decreases hi,
    {
        if hi <= lo {
            break;
        }
        let c = s.get_char(hi - 1);
        if !is_space_char(c) {
            break;
        }
        hi = hi - 1;
    }
    let t = s.substring_char(lo, hi);
    proof {
        if lo == len {
            lemma_trim_start_at(s@, lo as int);
            assert(trim_start_spec(s@) =~= Seq::<char>::empty());
            assert(t@ =~= Seq::<char>::empty());
        } else {
            lemma_trim_start_at(s@, lo as int);
            let s1 = s@.subrange(lo as int, len as int);
            assert(forall|j: int|
                hi - lo <= j < s1.len() ==> is_space(#[trigger] s1[j]) == is_space(
                    s@[j + lo],
                ));
            lemma_trim_end_at(s1, hi - lo);
            assert(s1.subrange(0, hi - lo) =~= s@.subrange(lo as int, hi as int));
        }
    }
    t
}

/// A decimal digit.
pub open spec fn is_digit(c: char) -> bool {
    '0' <= c && c <= '9'
}

/// The numeric value of a decimal digit.
pub open spec fn digit_val(c: char) -> nat {
    (c as int - '0' as int) as nat
}

pub open spec fn all_digits(s: Seq<char>) -> bool {
    forall|i: int| 0 <= i < s.len() ==> is_digit(s[i])
}

/// The value of a digit string read in base ten.
pub open spec fn digits_val(s: Seq<char>) -> nat
    decreases s.len(),
{
    if s.len() == 0 {
        0
    } else {
        digits_val(s.drop_last()) * 10 + digit_val(s.last())
    }
}

/// How `str::parse::<u16>` reads already-trimmed text: an optional leading
/// `+`, then one or more decimal digits, the whole value at most 65535.
pub open spec fn parse_u16_spec(s: Seq<char>) -> Option<u16> {
    let d = if s.len() > 0 && s[0] == '+' {
        s.drop_first()
    } else {
        s
    };
    if d.len() > 0 && all_digits(d) && digits_val(d) <= 65535 {
        Some(digits_val(d) as u16)
    } else {
        None
    }
}

proof fn lemma_digits_val_prefix_le(s: Seq<char>, k: int)
    requires
        0 <= k <= s.len(),
    ensures
        digits_val(s.subrange(0, k)) <= digits_val(s),
    decreases s.len(),
{
    if k == s.len() {
        assert(s.subrange(0, k) =~= s);
    } else {
        let t = s.drop_last();
        assert(t.subrange(0, k) =~= s.subrange(0, k));
        lemma_digits_val_prefix_le(t, k);
    }
}

fn is_digit_char(c: char) -> (b: bool)
    ensures
        b == is_digit(c),
{
    '0' <= c && c <= '9'
}

fn digit_value(c: char) -> (v: u32)
    requires
        is_digit(c),
    ensures
        v == digit_val(c),
{
    c as u32 - 48
}

/// Reads a trimmed string the way `str::parse::<u16>` does.
pub fn parse_u16(s: &str) -> (r: Option<u16>)
    ensures
        r == parse_u16_spec(s@),
{
    let len = s.unicode_len();
    let plus: bool = if len > 0 {
        s.get_char(0) == '+'
    } else {
        false
    };
    let start: usize = if plus {
        1
    } else {
        0
    };
    let ghost d = if plus {
        s@.drop_first()
    } else {
        s@
    };
    proof {
        assert(d =~= s@.subrange(start as int, len as int));
    }
    let mut i: usize = start;
    let mut val: u32 = 0;
    while i < len
        invariant
            start <= i <= len,
            len == s@.len(),
            start == 0 || start == 1,
            (start == 1) == (s@.len() > 0 && s@[0] == '+'),
            d == (if s@.len() > 0 && s@[0] == '+' {
                s@.drop_first()
            } else {
                s@
            }),
            d == s@.subrange(start as int, len as int),
            val <= 65535,
            val == digits_val(d.subrange(0, i - start)),
            forall|j: int| 0 <= j < i - start ==> is_digit(d[j]),
        decreases len - i,
    {
        let c = s.get_char(i);
        if !is_digit_char(c) {
            proof {
                assert(d[i - start] == c);
                assert(!all_digits(d));
            }
            return None;
        }
        let dv = digit_value(c);
        let new_val = val * 10 + dv;
        proof {
            let m = i - start;
            assert(d.subrange(0, m + 1).drop_last() =~= d.subrange(0, m));
            assert(d.subrange(0, m + 1).last() == d[m]);
        }
        if new_val > 65535 {
            proof {
                let m = i - start;
                assert(digits_val(d.subrange(0, m + 1)) == digits_val(
                    d.subrange(0, m + 1).drop_last(),
                ) * 10 + digit_val(d.subrange(0, m + 1).last()));
                assert(d[m] == c);
                assert(digits_val(d.subrange(0, m + 1)) == new_val);
                lemma_digits_val_prefix_le(d, m + 1);
                assert(digits_val(d) > 65535);
            }
            return None;
        }
        val = new_val;
        i = i + 1;
    }
    proof {
        assert(d.subrange(0, (len - start) as int) =~= d);
    }
    if len == start {
        None
    } else {
        Some(val as u16)
    }
}

/// The digit character for a value below ten.
pub open spec fn digit_char(d: nat) -> char {
    if d == 0 {
        '0'
    } else if d == 1 {
        '1'
    } else if d == 2 {
        '2'
    } else if d == 3 {
        '3'
    } else if d == 4 {
        '4'
    } else if d == 5 {
        '5'
    } else if d == 6 {
        '6'
    } else if d == 7 {
        '7'
    } else if d == 8 {
        '8'
    } else {
        '9'
    }
}

/// The decimal rendering of `n`, most significant digit first, no sign and
/// no leading zero except for zero itself.
pub open spec fn dec_rep(n: nat) -> Seq<char>
    decreases n,
{
    if n < 10 {
        seq![digit_char(n)]
    } else {
        dec_rep(n / 10).push(digit_char(n % 10))
    }
}

fn digit_str(d: u8) -> (r: &'static str)
    requires
        d < 10,
    ensures
        r@ == seq![digit_char(d as nat)],
{
    if d == 0 {
        proof {
            reveal_strlit("0");
        }
        assert("0"@ =~= seq!['0']);
        "0"
    } else if d == 1 {
        proof {
            reveal_strlit("1");
        }
        assert("1"@ =~= seq!['1']);
        "1"
    } else if d == 2 {
        proof {
            reveal_strlit("2");
        }
        assert("2"@ =~= seq!['2']);
        "2"
    } else if d == 3 {
        proof {
            reveal_strlit("3");
        }
        assert("3"@ =~= seq!['3']);
        "3"
    } else if d == 4 {
        proof {
            reveal_strlit("4");
        }
        assert("4"@ =~= seq!['4']);
        "4"
    } else if d == 5 {
        proof {
            reveal_strlit("5");
        }
        assert("5"@ =~= seq!['5']);
        "5"
    } else if d == 6 {
        proof {
            reveal_strlit("6");
        }
        assert("6"@ =~= seq!['6']);
        "6"
    } else if d == 7 {
        proof {
            reveal_strlit("7");
        }
        assert("7"@ =~= seq!['7']);
        "7"
    } else if d == 8 {
        proof {
            reveal_strlit("8");
        }
        assert("8"@ =~= seq!['8']);
        "8"
    } else {
        proof {
            reveal_strlit("9");
        }
        assert("9"@ =~= seq!['9']);
        "9"
    }
}

/// Renders `n` in decimal, exactly as its `dec_rep`.
pub fn u16_to_dec(n: u16) -> (s: String)
    ensures
        s@ == dec_rep(n as nat),
    decreases n,
{
    if n < 10 {
        String::from_str(digit_str(n as u8))
    } else {
        let mut s = u16_to_dec(n / 10);
        s.append(digit_str((n % 10) as u8));
        proof {
            assert(dec_rep((n / 10) as nat).push(digit_char((n % 10) as nat)) =~= dec_rep(
                (n / 10) as nat,
            ) + seq![digit_char((n % 10) as nat)]);
        }
        s
    }
}

/// Every character of a decimal rendering is a digit, and there is at least
/// one.
pub proof fn lemma_dec_rep_digits(n: nat)
    ensures
        dec_rep(n).len() >= 1,
        all_digits(dec_rep(n)),
    decreases n,
{
    if n < 10 {
    } else {
        lemma_dec_rep_digits(n / 10);
        let s = dec_rep(n / 10);
        let c = digit_char(n % 10);
        assert(forall|i: int|
            0 <= i < s.push(c).len() ==> is_digit(
                #[trigger] s.push(c)[i],
            )) by {
            assert(forall|i: int| 0 <= i < s.len() ==> s.push(c)[i] == s[i]);
        }
    }
}

/// Reading a decimal rendering back in base ten gives the value rendered.
pub proof fn lemma_dec_rep_val(n: nat)
    ensures
        digits_val(dec_rep(n)) == n,
    decreases n,
{
    if n < 10 {
        let s = seq![digit_char(n)];
        assert(s.drop_last() =~= Seq::<char>::empty());
        assert(digits_val(Seq::<char>::empty()) == 0);
        assert(s.last() == digit_char(n));
        assert(digit_val(digit_char(n)) == n);
    } else {
        lemma_dec_rep_val(n / 10);
        let s = dec_rep(n / 10);
        let c = digit_char(n % 10);
        assert(s.push(c).drop_last() =~= s);
        assert(digit_val(c) == n % 10);
    }
}

/// Round trip: trimming and parsing a decimal rendering of a 16-bit value
/// yields exactly that value.
pub proof fn lemma_parse_dec_rep(v: u16)
    ensures
        parse_u16_spec(trim_spec(dec_rep(v as nat))) == Some(v),
{
    let s = dec_rep(v as nat);
    lemma_dec_rep_digits(v as nat);
    lemma_dec_rep_val(v as nat);
    assert(is_digit(s[0]));
    assert(!is_space(s[0]));
    assert(is_digit(s.last()));
    assert(!is_space(s.last()));
    assert(trim_start_spec(s) == s);
    assert(trim_end_spec(s) == s);
    assert(s[0] != '+');
}

} // verus!
