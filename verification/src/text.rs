//! Verified text utilities: character classes, equality, search, trimming,
//! decimal parsing and decimal formatting for the text buffers the console
//! edits and the messages it shows.

use vstd::prelude::*;
use vstd::string::StrSliceExecFns;
use vstd::string::StringExecFns;

verus! {

/// ASCII whitespace: the characters stripped from the ends of an input line
/// before it is submitted as a task.
pub open spec fn is_space(c: char) -> bool {
    c == ' ' || c == '\t' || c == '\n' || c == '\r'
}

/// ASCII decimal digit.
pub open spec fn is_digit(c: char) -> bool {
    48 <= c as int && c as int <= 57
}

/// Numeric value of an ASCII decimal digit.
pub open spec fn digit_val(c: char) -> int {
    c as int - 48
}

/// Exec test for [`is_space`].
pub fn is_space_char(c: char) -> (r: bool)
    ensures
        r == is_space(c),
{
    c == ' ' || c == '\t' || c == '\n' || c == '\r'
}

/// Exec test for [`is_digit`].
pub fn is_digit_char(c: char) -> (r: bool)
    ensures
        r == is_digit(c),
{
    let u = c as u32;
    48 <= u && u <= 57
}

/// Character-wise string equality.
pub fn str_eq(a: &str, b: &str) -> (r: bool)
    ensures
        r == (a@ == b@),
{
    let na = a.unicode_len();
    let nb = b.unicode_len();
    if na != nb {
        return false;
    }
    let mut i: usize = 0;
    while i < na
        invariant
            na == a@.len(),
            na == b@.len(),
            i <= na,
            forall|j: int| 0 <= j < i ==> a@[j] == b@[j],
        decreases na - i,
    {
        if a.get_char(i) != b.get_char(i) {
            return false;
        }
        i = i + 1;
    }
    proof {
        assert(a@ =~= b@);
    }
    true
}

/// Index of the first occurrence of `c` in `s` at or after position `i`.
pub open spec fn find_char_from(s: Seq<char>, c: char, i: int) -> Option<int>
    decreases s.len() - i,
{
    if !(0 <= i < s.len()) {
        None
    } else if s[i] == c {
        Some(i)
    } else {
        find_char_from(s, c, i + 1)
    }
}

/// Index of the first occurrence of `c` in `s`.
pub open spec fn find_char(s: Seq<char>, c: char) -> Option<int> {
    find_char_from(s, c, 0)
}

/// Exec search for the first occurrence of a character.
pub fn find_char_in(s: &str, c: char) -> (r: Option<usize>)
    ensures
        match r {
            Some(k) => k < s@.len() && s@[k as int] == c && find_char(s@, c) == Some(k as int),
            None => find_char(s@, c) is None,
        },
{
    let n = s.unicode_len();
    let mut i: usize = 0;
    while i < n
        invariant
            n == s@.len(),
            i <= n,
            find_char(s@, c) == find_char_from(s@, c, i as int),
        decreases n - i,
    {
        if s.get_char(i) == c {
            return Some(i);
        }
        i = i + 1;
    }
    None
}

/// `s` without leading whitespace.
pub open spec fn trim_start_spec(s: Seq<char>) -> Seq<char>
    decreases s.len(),
{
    if s.len() > 0 && is_space(s[0]) {
        trim_start_spec(s.drop_first())
    } else {
        s
    }
}

/// `s` without trailing whitespace.
pub open spec fn trim_end_spec(s: Seq<char>) -> Seq<char>
    decreases s.len(),
{
    if s.len() > 0 && is_space(s.last()) {
        trim_end_spec(s.drop_last())
    } else {
        s
    }
}

/// `s` without leading and trailing whitespace.
pub open spec fn trim_spec(s: Seq<char>) -> Seq<char> {
    trim_end_spec(trim_start_spec(s))
}

/// Copy of `s` with leading and trailing whitespace removed.
pub fn trim(s: &str) -> (t: String)
    ensures
        t@ == trim_spec(s@),
{
    let n = s.unicode_len();
    proof {
        assert(s@.subrange(0, n as int) =~= s@);
    }
    let mut i: usize = 0;
    while i < n && is_space_char(s.get_char(i))
        invariant
            n == s@.len(),
            i <= n,
            trim_start_spec(s@) == trim_start_spec(s@.subrange(i as int, n as int)),
        decreases n - i,
    {
        proof {
            assert(s@.subrange(i as int, n as int).drop_first() =~= s@.subrange(
                i + 1 as int,
                n as int,
            ));
        }
        i = i + 1;
    }
    proof {
        assert(trim_start_spec(s@) =~= s@.subrange(i as int, n as int));
    }
    let mut j: usize = n;
    while j > i && is_space_char(s.get_char(j - 1))
        invariant
            n == s@.len(),
            i <= j <= n,
            trim_start_spec(s@) == s@.subrange(i as int, n as int),
            trim_end_spec(s@.subrange(i as int, n as int)) == trim_end_spec(
                s@.subrange(i as int, j as int),
            ),
        decreases j,
    {
        proof {
            assert(s@.subrange(i as int, j as int).drop_last() =~= s@.subrange(
                i as int,
                j - 1 as int,
            ));
        }
        j = j - 1;
    }
    proof {
        assert(trim_end_spec(s@.subrange(i as int, j as int)) =~= s@.subrange(
            i as int,
            j as int,
        ));
    }
    s.substring_char(i, j).to_owned()
}

/// Relies on `String::push`: appends exactly the given character at the end.
#[verifier::external_body]
pub(crate) fn push_char(s: &mut String, c: char)
    ensures
        final(s)@ == old(s)@.push(c),
{
    s.push(c);
}

/// Removes the last character of `s`, if any.
pub fn pop_last_char(s: &mut String)
    ensures
        old(s)@.len() == 0 ==> final(s)@ == old(s)@,
        old(s)@.len() > 0 ==> final(s)@ == old(s)@.drop_last(),
{
    let n = s.as_str().unicode_len();
    if n > 0 {
        let t = s.as_str().substring_char(0, n - 1).to_owned();
        proof {
            assert(old(s)@.subrange(0, n - 1 as int) =~= old(s)@.drop_last());
        }
        *s = t;
    }
}

/// Every character of `s` is an ASCII decimal digit.
pub open spec fn all_digits(s: Seq<char>) -> bool {
    forall|i: int| 0 <= i < s.len() ==> is_digit(#[trigger] s[i])
}

/// Numeric value of a digit string read in base ten.
pub open spec fn digits_val(s: Seq<char>) -> int
    decreases s.len(),
{
    if s.len() == 0 {
        0
    } else {
        digits_val(s.drop_last()) * 10 + digit_val(s.last())
    }
}

/// `s` is an optionally signed run of decimal digits, the form the standard
/// integer parser accepts.
pub open spec fn is_int_literal(s: Seq<char>) -> bool {
    if s.len() == 0 {
        false
    } else if s[0] == '+' || s[0] == '-' {
        s.len() >= 2 && all_digits(s.drop_first())
    } else {
        all_digits(s)
    }
}

/// Signed value of an integer literal.
pub open spec fn int_literal_val(s: Seq<char>) -> int {
    if s.len() > 0 && s[0] == '-' {
        -digits_val(s.drop_first())
    } else if s.len() > 0 && s[0] == '+' {
        digits_val(s.drop_first())
    } else {
        digits_val(s)
    }
}

/// Value of `s` as an integer within `[lo, hi]`, or `default` when `s` is
/// not an integer literal or its value falls outside the bounds.
pub open spec fn parse_int_or(s: Seq<char>, lo: int, hi: int, default: int) -> int {
    if is_int_literal(s) && lo <= int_literal_val(s) <= hi {
        int_literal_val(s)
    } else {
        default
    }
}

/// A digit string never has a negative value.
proof fn lemma_digits_val_nonneg(s: Seq<char>)
    requires
        all_digits(s),
    ensures
        digits_val(s) >= 0,
    decreases s.len(),
{
    if s.len() > 0 {
        lemma_digits_val_nonneg(s.drop_last());
    }
}

/// Extending a digit string never lowers its value.
proof fn lemma_digits_val_prefix(s: Seq<char>, k: int)
    requires
        all_digits(s),
        0 <= k <= s.len(),
    ensures
        digits_val(s.subrange(0, k)) <= digits_val(s),
    decreases s.len() - k,
{
    if k == s.len() {
        assert(s.subrange(0, k) =~= s);
    } else {
        let t = s.subrange(0, k + 1);
        assert(t.drop_last() =~= s.subrange(0, k));
        lemma_digits_val_nonneg(s.subrange(0, k));
        lemma_digits_val_prefix(s, k + 1);
    }
}

/// Parses the digit run `s[from..]` in base ten. `None` when that range is
/// empty, holds a non-digit, or exceeds the `u64` range.
fn parse_digits(s: &str, from: usize) -> (r: Option<u64>)
    requires
        from as int <= s@.len(),
    ensures
        ({
            let sub = s@.subrange(from as int, s@.len() as int);
            match r {
                Some(v) => sub.len() >= 1 && all_digits(sub) && v as int == digits_val(sub),
                None => !(sub.len() >= 1 && all_digits(sub) && digits_val(sub)
                    <= u64::MAX as int),
            }
        }),
{
    let ghost sub = s@.subrange(from as int, s@.len() as int);
    let n = s.unicode_len();
    if from >= n {
        return None;
    }
    let mut i: usize = from;
    let mut acc: u64 = 0;
    while i < n
        invariant
            from <= i <= n,
            n == s@.len(),
            sub == s@.subrange(from as int, n as int),
            all_digits(s@.subrange(from as int, i as int)),
            acc as int == digits_val(s@.subrange(from as int, i as int)),
        decreases n - i,
    {
        let c = s.get_char(i);
        if !is_digit_char(c) {
            proof {
                assert(!is_digit(sub[i - from]));
            }
            return None;
        }
        let d = (c as u32 - 48) as u64;
        proof {
            assert(s@.subrange(from as int, i + 1 as int).drop_last() =~= s@.subrange(
                from as int,
                i as int,
            ));
        }
        if acc > 1844674407370955161u64 || (acc == 1844674407370955161u64 && d > 5) {
            proof {
                let p = s@.subrange(from as int, i + 1 as int);
                assert(digits_val(p) > u64::MAX as int);
                if all_digits(sub) {
                    assert(p =~= sub.subrange(0, i + 1 - from as int));
                    lemma_digits_val_prefix(sub, i + 1 - from as int);
                }
            }
            return None;
        }
        acc = acc * 10 + d;
        i = i + 1;
    }
    proof {
        assert(sub =~= s@.subrange(from as int, i as int));
    }
    Some(acc)
}

/// Value of `s` as an `i64`, or `default` when `s` does not parse or does
/// not fit, mirroring the standard parser's fallback idiom.
pub fn parse_i64_or(s: &str, default: i64) -> (r: i64)
    ensures
        r as int == parse_int_or(s@, i64::MIN as int, i64::MAX as int, default as int),
{
    let n = s.unicode_len();
    if n == 0 {
        return default;
    }
    let c0 = s.get_char(0);
    let neg = c0 == '-';
    let start: usize = if neg || c0 == '+' {
        1
    } else {
        0
    };
    proof {
        if start == 1 {
            assert(s@.subrange(1, n as int) =~= s@.drop_first());
        } else {
            assert(s@.subrange(0, n as int) =~= s@);
        }
    }
    match parse_digits(s, start) {
        None => {
            proof {
                let sub = s@.subrange(start as int, n as int);
                if is_int_literal(s@) {
                    lemma_digits_val_nonneg(sub);
                }
            }
            default
        },
        Some(v) => {
            if neg {
                if v <= 9223372036854775807u64 {
                    -(v as i64)
                } else if v == 9223372036854775808u64 {
                    i64::MIN
                } else {
                    default
                }
            } else {
                if v <= 9223372036854775807u64 {
                    v as i64
                } else {
                    default
                }
            }
        },
    }
}

/// Value of `s` as an `i16`, or `default` when `s` does not parse or does
/// not fit.
pub fn parse_i16_or(s: &str, default: i16) -> (r: i16)
    ensures
        r as int == parse_int_or(s@, i16::MIN as int, i16::MAX as int, default as int),
{
    let n = s.unicode_len();
    if n == 0 {
        return default;
    }
    let c0 = s.get_char(0);
    let neg = c0 == '-';
    let start: usize = if neg || c0 == '+' {
        1
    } else {
        0
    };
    proof {
        if start == 1 {
            assert(s@.subrange(1, n as int) =~= s@.drop_first());
        } else {
            assert(s@.subrange(0, n as int) =~= s@);
        }
    }
    match parse_digits(s, start) {
        None => {
            proof {
                let sub = s@.subrange(start as int, n as int);
                if is_int_literal(s@) {
                    lemma_digits_val_nonneg(sub);
                }
            }
            default
        },
        Some(v) => {
            if neg {
                if v <= 32768u64 {
                    proof {
                        if v == 0 {
                        }
                    }
                    if v == 32768u64 {
                        i16::MIN
                    } else {
                        -(v as i16)
                    }
                } else {
                    default
                }
            } else {
                if v <= 32767u64 {
                    v as i16
                } else {
                    default
                }
            }
        },
    }
}

/// Value of `s` as a port number in `[1, 65535]`, or `9999` when `s` is not
/// a literal in that range. The payload builder coerces the port text with
/// this rule before emitting a build request.
pub fn parse_port_or_default(s: &str) -> (r: u16)
    ensures
        r as int == parse_int_or(s@, 1, 65535, 9999),
{
    let n = s.unicode_len();
    if n == 0 {
        return 9999;
    }
    let c0 = s.get_char(0);
    let neg = c0 == '-';
    let start: usize = if neg || c0 == '+' {
        1
    } else {
        0
    };
    proof {
        if start == 1 {
            assert(s@.subrange(1, n as int) =~= s@.drop_first());
        } else {
            assert(s@.subrange(0, n as int) =~= s@);
        }
    }
    match parse_digits(s, start) {
        None => {
            proof {
                let sub = s@.subrange(start as int, n as int);
                if is_int_literal(s@) {
                    lemma_digits_val_nonneg(sub);
                }
            }
            9999
        },
        Some(v) => {
            proof {
                let sub = s@.subrange(start as int, n as int);
                lemma_digits_val_nonneg(sub);
            }
            if neg {
                9999
            } else if 1 <= v && v <= 65535 {
                v as u16
            } else {
                9999
            }
        },
    }
}

/// Character of a single decimal digit.
pub open spec fn dec_digit_char(d: int) -> char {
    if d == 0 {
        '0'
    } else if d == 1 {
        '1'
    } else if d == 2 {
        '2'
    } else if d == 3 {
        '3'
    } else if d == 4 {
        '4'
    } else if d == 5 {
        '5'
    } else if d == 6 {
        '6'
    } else if d == 7 {
        '7'
    } else if d == 8 {
        '8'
    } else {
        '9'
    }
}

/// Base-ten rendering of `n`, without sign or leading zeroes.
pub open spec fn dec_seq(n: nat) -> Seq<char>
    decreases n,
{
    if n < 10 {
        seq![dec_digit_char(n as int)]
    } else {
        dec_seq(n / 10).push(dec_digit_char((n % 10) as int))
    }
}

/// One-character string for a single decimal digit.
fn digit_str(d: u64) -> (r: &'static str)
    requires
        d < 10,
    ensures
        r@ == seq![dec_digit_char(d as int)],
{
    let r: &'static str = if d == 0 {
        "0"
    } else if d == 1 {
        "1"
    } else if d == 2 {
        "2"
    } else if d == 3 {
        "3"
    } else if d == 4 {
        "4"
    } else if d == 5 {
        "5"
    } else if d == 6 {
        "6"
    } else if d == 7 {
        "7"
    } else if d == 8 {
        "8"
    } else {
        "9"
    };
    proof {
        reveal_strlit("0");
        reveal_strlit("1");
        reveal_strlit("2");
        reveal_strlit("3");
        reveal_strlit("4");
        reveal_strlit("5");
        reveal_strlit("6");
        reveal_strlit("7");
        reveal_strlit("8");
        reveal_strlit("9");
        assert(r@ =~= seq![dec_digit_char(d as int)]);
    }
    r
}

/// Base-ten rendering of `n`.
pub fn u64_to_dec(n: u64) -> (s: String)
    ensures
        s@ == dec_seq(n as nat),
    decreases n,
{
    if n < 10 {
        digit_str(n).to_owned()
    } else {
        let mut s = u64_to_dec(n / 10);
        s.append(digit_str(n % 10));
        proof {
            assert(s@ =~= dec_seq((n / 10) as nat).push(dec_digit_char((n % 10) as int)));
        }
        s
    }
}

/// Base-ten rendering of a count.
pub fn usize_to_dec(n: usize) -> (s: String)
    ensures
        s@ == dec_seq(n as nat),
{
    u64_to_dec(n as u64)
}

/// The three fragments joined in order.
pub fn join3(prefix: &str, mid: &str, suffix: &str) -> (s: String)
    ensures
        s@ == prefix@ + mid@ + suffix@,
{
    let mut s = prefix.to_owned();
    s.append(mid);
    s.append(suffix);
    s
}

/// The two fragments joined in order.
pub fn join2(prefix: &str, tail: &str) -> (s: String)
    ensures
        s@ == prefix@ + tail@,
{
    let mut s = prefix.to_owned();
    s.append(tail);
    s
}

/// `s` split at its first space: the part before it and the part after it.
/// Without a space, the whole of `s` and the empty sequence.
pub open spec fn split_first_space(s: Seq<char>) -> (Seq<char>, Seq<char>) {
    match find_char(s, ' ') {
        Some(k) => (s.subrange(0, k), s.subrange(k + 1, s.len() as int)),
        None => (s, Seq::<char>::empty()),
    }
}

} // verus!
