//! Decimal integer texts: reading them as Rust's `FromStr` for integers
//! does, and writing them as `Display` does.
use vstd::prelude::*;
use vstd::string::*;

verus! {

pub open spec fn is_digit(c: char) -> bool {
    '0' <= c && c <= '9'
}

pub open spec fn digit_value(c: char) -> int {
    c as int - '0' as int
}

pub open spec fn all_digits(s: Seq<char>) -> bool {
    forall|i: int| 0 <= i < s.len() ==> is_digit(#[trigger] s[i])
}

/// The number the decimal digits `s` write.
pub open spec fn digits_value(s: Seq<char>) -> int
    decreases s.len(),
{
    if s.len() == 0 {
        0
    } else {
        digits_value(s.drop_last()) * 10 + digit_value(s.last())
    }
}

/// An unsigned integer text: an optional '+' and at least one digit.
pub open spec fn unsigned_body(s: Seq<char>) -> Option<Seq<char>> {
    let body = if s.len() > 0 && s[0] == '+' {
        s.drop_first()
    } else {
        s
    };
    if body.len() > 0 && all_digits(body) {
        Some(body)
    } else {
        None
    }
}

/// What `str::parse` gives for an unsigned integer type whose largest value
/// is `max`: the value, or nothing when the text is not an unsigned integer
/// or the value is too large.
pub open spec fn parse_unsigned_spec(s: Seq<char>, max: int) -> Option<int> {
    match unsigned_body(s) {
        Some(d) => if digits_value(d) <= max {
            Some(digits_value(d))
        } else {
            None
        },
        None => None,
    }
}

/// What `str::parse::<i64>` gives: an optional sign ('+' or '-') and at
/// least one digit, the value within the range of `i64`.
pub open spec fn parse_i64_spec(s: Seq<char>) -> Option<int> {
    if s.len() > 0 && s[0] == '-' {
        let body = s.drop_first();
        if body.len() > 0 && all_digits(body) && digits_value(body) <= 9223372036854775808 {
            Some(-digits_value(body))
        } else {
            None
        }
    } else {
        parse_unsigned_spec(s, 9223372036854775807)
    }
}

pub proof fn lemma_digits_nonneg(s: Seq<char>)
    requires
        all_digits(s),
    ensures
        digits_value(s) >= 0,
    decreases s.len(),
{
    if s.len() > 0 {
        assert(all_digits(s.drop_last()));
        lemma_digits_nonneg(s.drop_last());
        assert(is_digit(s[s.len() - 1]));
    }
}

/// A longer prefix of digits never writes a smaller number.
pub proof fn lemma_digits_prefix_le(s: Seq<char>, k: int)
    requires
        all_digits(s),
        0 <= k <= s.len(),
    ensures
        digits_value(s.take(k)) <= digits_value(s),
    decreases s.len() - k,
{
    if k < s.len() {
        let t = s.take(k + 1);
        assert(t.drop_last() =~= s.take(k));
        assert(all_digits(s.take(k)));
        lemma_digits_nonneg(s.take(k));
        assert(is_digit(t.last()));
        lemma_digits_prefix_le(s, k + 1);
    } else {
        assert(s.take(k) =~= s);
    }
}

/// Reads the digits of `s` from index `start`; nothing when a character is
/// not a digit or the value passes `max`.
fn read_digits(s: &str, start: usize, max: u128) -> (r: Option<u128>)
    requires
        start <= s@.len(),
        max < 0x1_0000_0000_0000_0000_0000,
    ensures
        ({
            let body = s@.skip(start as int);
            match r {
                Some(v) => body.len() > 0 && all_digits(body) && v == digits_value(body) && v <= max,
                None => !(body.len() > 0 && all_digits(body) && digits_value(body) <= max),
            }
        }),
{
    let n = s.unicode_len();
    let ghost body = s@.skip(start as int);
    if start >= n {
        return None;
    }
    let mut v: u128 = 0;
    let mut i: usize = start;
    assert(body.take(0) =~= Seq::<char>::empty());
    while i < n
        invariant
            start <= i <= n,
            n == s@.len(),
            body == s@.skip(start as int),
            max < 0x1_0000_0000_0000_0000_0000,
            all_digits(body.take(i - start)),
            v == digits_value(body.take(i - start)),
            v <= max,
        decreases n - i,
    {
        let c = s.get_char(i);
        if !('0' <= c && c <= '9') {
            proof {
                assert(body[i - start] == c);
            }
            return None;
        }
        let d = (c as u32 - '0' as u32) as u128;
        assert(body.take(i - start + 1).drop_last() =~= body.take(i - start));
        assert(body.take(i - start + 1).last() == c);
        if d > max || v > (max - d) / 10 {
            proof {
                assert(all_digits(body.take(i - start + 1)));
                assert(v * 10 + d > max) by (nonlinear_arith)
                    requires
                        d > max || (d <= max && v > (max - d) / 10),
                        d >= 0,
                        v >= 0,
                        max >= 0,
                ;
                if all_digits(body) {
                    lemma_digits_prefix_le(body, i - start + 1);
                }
            }
            return None;
        }
        assert(v * 10 + d <= max) by (nonlinear_arith)
            requires
                v <= (max - d) / 10,
                d <= max,
        ;
        v = v * 10 + d;
        i += 1;
    }
    assert(body.take(i - start) =~= body);
    Some(v)
}

/// `str::parse` for an unsigned integer whose largest value is `max`.
pub fn parse_unsigned(s: &str, max: u64) -> (r: Option<u64>)
    ensures
        match r {
            Some(v) => parse_unsigned_spec(s@, max as int) == Some(v as int),
            None => parse_unsigned_spec(s@, max as int) is None,
        },
{
    let n = s.unicode_len();
    let start: usize = if n > 0 && s.get_char(0) == '+' {
        1
    } else {
        0
    };
    assert(s@.skip(start as int) =~= if s@.len() > 0 && s@[0] == '+' {
        s@.drop_first()
    } else {
        s@
    });
    match read_digits(s, start, max as u128) {
        Some(v) => Some(v as u64),
        None => None,
    }
}

/// `str::parse::<u32>`.
pub fn parse_u32(s: &str) -> (r: Option<u32>)
    ensures
        match r {
            Some(v) => parse_unsigned_spec(s@, u32::MAX as int) == Some(v as int),
            None => parse_unsigned_spec(s@, u32::MAX as int) is None,
        },
{
    match parse_unsigned(s, 4294967295) {
        Some(v) => Some(v as u32),
        None => None,
    }
}

/// `str::parse::<u8>`.
pub fn parse_u8(s: &str) -> (r: Option<u8>)
    ensures
        match r {
            Some(v) => parse_unsigned_spec(s@, 255) == Some(v as int),
            None => parse_unsigned_spec(s@, 255) is None,
        },
{
    match parse_unsigned(s, 255) {
        Some(v) => Some(v as u8),
        None => None,
    }
}

/// `str::parse::<i64>`.
pub fn parse_i64(s: &str) -> (r: Option<i64>)
    ensures
        match r {
            Some(v) => parse_i64_spec(s@) == Some(v as int),
            None => parse_i64_spec(s@) is None,
        },
{
    let n = s.unicode_len();
    if n > 0 && s.get_char(0) == '-' {
        assert(s@.skip(1) =~= s@.drop_first());
        match read_digits(s, 1, 9223372036854775808) {
            Some(v) => {
                if v == 9223372036854775808 {
                    Some(-9223372036854775807 - 1)
                } else {
                    Some(-(v as i64))
                }
            },
            None => None,
        }
    } else {
        match parse_unsigned(s, 9223372036854775807) {
            Some(v) => Some(v as i64),
            None => None,
        }
    }
}

/// The digits of `n`.
pub open spec fn nat_text(n: nat) -> Seq<char>
    decreases n,
{
    if n < 10 {
        seq![('0' as int + n) as char]
    } else {
        nat_text(n / 10).push(('0' as int + n % 10) as char)
    }
}

/// How `Display` writes an integer: its digits, after '-' when negative.
pub open spec fn int_text(n: int) -> Seq<char> {
    if n < 0 {
        seq!['-'] + nat_text((-n) as nat)
    } else {
        nat_text(n as nat)
    }
}

/// The text of a decimal digit.
fn digit_str(d: u64) -> (r: &'static str)
    requires
        d < 10,
    ensures
        r@ == seq![('0' as int + d) as char],
{
    proof {
        reveal_strlit("0");
        reveal_strlit("1");
        reveal_strlit("2");
        reveal_strlit("3");
        reveal_strlit("4");
        reveal_strlit("5");
        reveal_strlit("6");
        reveal_strlit("7");
        reveal_strlit("8");
        reveal_strlit("9");
    }
    match d {
        0 => "0",
        1 => "1",
        2 => "2",
        3 => "3",
        4 => "4",
        5 => "5",
        6 => "6",
        7 => "7",
        8 => "8",
        _ => "9",
    }
}

/// The digits of `n`.
fn nat_digits(n: u64) -> (r: String)
    ensures
        r@ == nat_text(n as nat),
    decreases n,
{
    if n < 10 {
        digit_str(n).to_string()
    } else {
        let mut s = nat_digits(n / 10);
        let ghost before = s@;
        s.append(digit_str(n % 10));
        assert(s@ =~= before.push(('0' as int + (n % 10) as int) as char));
        s
    }
}

/// The integer in decimal, '-' first when negative (what `i64::to_string`
/// writes).
pub(crate) fn i64_text(n: i64) -> (r: String)
    ensures
        r@ == int_text(n as int),
{
    if n < 0 {
        let magnitude: u64 = (0i128 - (n as i128)) as u64;
        let mut s = "-".to_string();
        let digits = nat_digits(magnitude);
        proof {
            reveal_strlit("-");
        }
        s.append(digits.as_str());
        assert(s@ =~= seq!['-'] + nat_text((-n) as nat));
        s
    } else {
        nat_digits(n as u64)
    }
}

/// The unsigned integer in decimal (what `u64::to_string` writes).
pub(crate) fn u64_text(n: u64) -> (r: String)
    ensures
        r@ == int_text(n as int),
{
    nat_digits(n)
}

/// Whether `s` is the text `t`.
pub fn text_is(s: &str, t: &str) -> (r: bool)
    ensures
        r == (s@ == t@),
{
    s.to_string() == t.to_string()
}

/// `t` occurs in `s` at index `i`.
pub open spec fn occurs_at(s: Seq<char>, t: Seq<char>, i: int) -> bool {
    0 <= i && i + t.len() <= s.len() && s.subrange(i, i + t.len()) == t
}

/// `t` occurs somewhere in `s`.
pub open spec fn has_infix(s: Seq<char>, t: Seq<char>) -> bool {
    exists|i: int| occurs_at(s, t, i)
}

fn matches_at(s: &str, t: &str, i: usize, m: usize) -> (r: bool)
    requires
        m == t@.len(),
        i + m <= s@.len(),
        s@.len() <= usize::MAX,
    ensures
        r == occurs_at(s@, t@, i as int),
{
    let mut j: usize = 0;
    while j < m
        invariant
            j <= m,
            m == t@.len(),
            i + m <= s@.len(),
            s@.len() <= usize::MAX,
            forall|k: int| 0 <= k < j ==> s@[i + k] == t@[k],
        decreases m - j,
    {
        if s.get_char(i + j) != t.get_char(j) {
            assert(s@.subrange(i as int, i + m)[j as int] != t@[j as int]);
            return false;
        }
        j += 1;
    }
    assert(s@.subrange(i as int, i + m) =~= t@);
    true
}

/// `str::contains` for a text pattern: whether `t` occurs in `s`.
pub fn contains_text(s: &str, t: &str) -> (r: bool)
    ensures
        r == has_infix(s@, t@),
{
    let n = s.unicode_len();
    let m = t.unicode_len();
    if m > n {
        assert forall|i: int| !occurs_at(s@, t@, i) by {}
        return false;
    }
    let last = n - m;
    let mut i: usize = 0;
    loop
        invariant
            i <= last,
            last == n - m,
            n == s@.len(),
            m == t@.len(),
            m <= n,
            forall|k: int| 0 <= k < i ==> !occurs_at(s@, t@, k),
        decreases last - i,
    {
        if matches_at(s, t, i, m) {
            return true;
        }
        if i == last {
            assert forall|k: int| !occurs_at(s@, t@, k) by {}
            return false;
        }
        i += 1;
    }
}

/// `c` occurs in `s` at `k` and nowhere else.
pub open spec fn sole_at(s: Seq<char>, c: char, k: int) -> bool {
    &&& 0 <= k < s.len()
    &&& s[k] == c
    &&& forall|j: int| 0 <= j < s.len() && j != k ==> s[j] != c
}

/// Where `c` occurs in `s`, when it occurs exactly once.
pub fn sole_index(s: &str, c: char) -> (r: Option<usize>)
    ensures
        match r {
            Some(k) => sole_at(s@, c, k as int),
            None => forall|k: int| !sole_at(s@, c, k),
        },
{
    let n = s.unicode_len();
    let mut found: Option<usize> = None;
    let mut i: usize = 0;
    while i < n
        invariant
            i <= n,
            n == s@.len(),
            match found {
                Some(k) => k < i && s@[k as int] == c && forall|j: int|
                    0 <= j < i && j != k ==> s@[j] != c,
                None => forall|j: int| 0 <= j < i ==> s@[j] != c,
            },
        decreases n - i,
    {
        if s.get_char(i) == c {
            match found {
                Some(k) => {
                    assert forall|m: int| !sole_at(s@, c, m) by {
                        if sole_at(s@, c, m) {
                            if m == k {
                                assert(s@[i as int] == c);
                            } else {
                                assert(s@[k as int] == c);
                            }
                        }
                    }
                    return None;
                },
                None => {
                    found = Some(i);
                },
            }
        }
        i += 1;
    }
    match found {
        Some(k) => Some(k),
        None => {
            assert forall|m: int| !sole_at(s@, c, m) by {}
            None
        },
    }
}

/// The upper-case form of a text (`str::to_uppercase`).
pub uninterp spec fn upper_of(s: Seq<char>) -> Seq<char>;

/// The lower-case form of a text (`str::to_lowercase`).
pub uninterp spec fn lower_of(s: Seq<char>) -> Seq<char>;

/// `str::to_uppercase`: a function of the text alone.
#[verifier::external_body]
pub(crate) fn to_upper(s: &str) -> (r: String)
    ensures
        r@ == upper_of(s@),
{
    s.to_uppercase()
}

/// `str::to_lowercase`: a function of the text alone.
#[verifier::external_body]
pub(crate) fn to_lower(s: &str) -> (r: String)
    ensures
        r@ == lower_of(s@),
{
    s.to_lowercase()
}

/// The message of the error (its `Display`) `str::parse::<u8>` gives for a
/// text it cannot read.
pub uninterp spec fn u8_parse_error(text: Seq<char>) -> Seq<char>;

/// The message of the error (its `Display`) `str::parse::<i64>` gives for a
/// text it cannot read.
pub uninterp spec fn i64_parse_error(text: Seq<char>) -> Seq<char>;

/// `str::parse::<u8>`: an optional '+' and decimal digits, at most 255, as
/// its documentation describes; else the message of its error.
#[verifier::external_body]
pub(crate) fn parse_u8_or_error(text: &str) -> (r: Result<u8, String>)
    ensures
        match r {
            Ok(v) => parse_unsigned_spec(text@, 255) == Some(v as int),
            Err(e) => parse_unsigned_spec(text@, 255) is None && e@ == u8_parse_error(text@),
        },
{
    text.parse::<u8>().map_err(|e| e.to_string())
}

/// `str::parse::<i64>`: an optional sign and decimal digits within the
/// range of `i64`, as its documentation describes; else the message of its
/// error.
#[verifier::external_body]
pub(crate) fn parse_i64_or_error(text: &str) -> (r: Result<i64, String>)
    ensures
        match r {
            Ok(v) => parse_i64_spec(text@) == Some(v as int),
            Err(e) => parse_i64_spec(text@) is None && e@ == i64_parse_error(text@),
        },
{
    text.parse::<i64>().map_err(|e| e.to_string())
}

/// Parameters as name and value texts.
pub open spec fn param_views(ps: Seq<(String, String)>) -> Seq<(Seq<char>, Seq<char>)> {
    ps.map_values(|p: (String, String)| (p.0@, p.1@))
}

/// The parameter `name` when its value is set.
pub open spec fn optional_param(name: Seq<char>, value: Option<String>) -> Seq<(Seq<char>, Seq<char>)> {
    match value {
        Some(v) => seq![(name, v@)],
        None => Seq::empty(),
    }
}

pub(crate) fn push_param(ps: &mut Vec<(String, String)>, name: &str, value: String)
    ensures
        param_views(final(ps)@) == param_views(old(ps)@).push((name@, value@)),
{
    ps.push((name.to_string(), value));
    assert(param_views(final(ps)@) =~= param_views(old(ps)@).push((name@, value@)));
}

pub(crate) fn push_optional(ps: &mut Vec<(String, String)>, name: &str, value: &Option<String>)
    ensures
        param_views(final(ps)@) == param_views(old(ps)@) + optional_param(name@, *value),
{
    match value {
        Some(v) => {
            push_param(ps, name, v.clone());
            assert(param_views(final(ps)@) =~= param_views(old(ps)@) + optional_param(name@, *value));
        },
        None => {
            assert(param_views(final(ps)@) =~= param_views(old(ps)@) + optional_param(name@, *value));
        },
    }
}

} // verus!
