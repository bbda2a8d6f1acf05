use vstd::prelude::*;

verus! {

// ---------------------------------------------------------------------------
// Decimal digits
// ---------------------------------------------------------------------------

/// Whether `c` is one of the ASCII digits `0`..`9`.
pub open spec fn is_digit(c: char) -> bool {
    '0' <= c && c <= '9'
}

/// The numeric value of an ASCII digit.
pub open spec fn digit_value(c: char) -> nat {
    (c as int - '0' as int) as nat
}

/// Whether every character of `s` is an ASCII digit.
pub open spec fn all_digits(s: Seq<char>) -> bool {
    forall|i: int| 0 <= i < s.len() ==> is_digit(#[trigger] s[i])
}

/// The number a string of decimal digits denotes (most significant first).
pub open spec fn decimal_value(s: Seq<char>) -> nat
    decreases s.len(),
{
    if s.len() == 0 {
        0
    } else {
        decimal_value(s.drop_last()) * 10 + digit_value(s.last())
    }
}

/// The ASCII digit for a number below ten.
pub open spec fn digit_char(d: nat) -> char {
    if d == 0 { '0' }
    else if d == 1 { '1' }
    else if d == 2 { '2' }
    else if d == 3 { '3' }
    else if d == 4 { '4' }
    else if d == 5 { '5' }
    else if d == 6 { '6' }
    else if d == 7 { '7' }
    else if d == 8 { '8' }
    else { '9' }
}

/// The shortest decimal rendering of a natural number.
pub open spec fn digits_of(n: nat) -> Seq<char>
    decreases n,
{
    if n < 10 {
        seq![digit_char(n)]
    } else {
        digits_of(n / 10).push(digit_char(n % 10))
    }
}

/// The decimal rendering of an integer, with a leading `-` when negative.
pub open spec fn decimal_text(n: int) -> Seq<char> {
    if n < 0 {
        seq!['-'] + digits_of((-n) as nat)
    } else {
        digits_of(n as nat)
    }
}

/// The value a digit string prefix denotes never exceeds that of the whole string.
pub proof fn lemma_decimal_prefix_le(s: Seq<char>, k: int)
    requires
        0 <= k <= s.len(),
    ensures
        decimal_value(s.subrange(0, k)) <= decimal_value(s),
    decreases s.len() - k,
{
    if k < s.len() {
        lemma_decimal_prefix_le(s.drop_last(), k);
        assert(s.drop_last().subrange(0, k) =~= s.subrange(0, k));
    } else {
        assert(s.subrange(0, k) =~= s);
    }
}

/// Appending one digit multiplies the value by ten and adds the digit.
proof fn lemma_decimal_step(s: Seq<char>, start: int, i: int)
    requires
        0 <= start <= i < s.len(),
    ensures
        decimal_value(s.subrange(start, i + 1)) == decimal_value(s.subrange(start, i)) * 10
            + digit_value(s[i]),
{
    assert(s.subrange(start, i + 1).drop_last() =~= s.subrange(start, i));
}

/// The digit character of a number below ten reads back as that number.
proof fn lemma_digit_char_value(d: nat)
    requires
        d < 10,
    ensures
        is_digit(digit_char(d)),
        digit_value(digit_char(d)) == d,
{
}

/// Rendering a number and reading it back gives the number again.
pub proof fn lemma_digits_roundtrip(n: nat)
    ensures
        all_digits(digits_of(n)),
        digits_of(n).len() > 0,
        decimal_value(digits_of(n)) == n,
    decreases n,
{
    lemma_digit_char_value(n % 10);
    if n >= 10 {
        lemma_digits_roundtrip(n / 10);
        let s = digits_of(n);
        assert(s.last() == digit_char(n % 10));
        assert(n == (n / 10) * 10 + n % 10);
        assert(decimal_value(s) == decimal_value(s.drop_last()) * 10 + digit_value(s.last()));
        assert(s.drop_last() =~= digits_of(n / 10));
        assert forall|i: int| 0 <= i < s.len() implies is_digit(#[trigger] s[i]) by {
            if i < s.len() - 1 {
                assert(s[i] == digits_of(n / 10)[i]);
            }
        }
    } else {
        let s = digits_of(n);
        assert(s.drop_last() =~= Seq::<char>::empty());
        assert(decimal_value(s) == decimal_value(s.drop_last()) * 10 + digit_value(s.last()));
    }
}

#[verifier::external_body]
/// Appends one character to a string (`String::push`). Claims that the new
/// contents are the old contents followed by `c`.
fn push_char(s: &mut String, c: char)
    ensures
        final(s)@ == old(s)@.push(c),
{
    s.push(c);
}

/// The ASCII digit for `d`.
fn digit_to_char(d: u128) -> (c: char)
    requires
        d < 10,
    ensures
        c == digit_char(d as nat),
{
    match d {
        0 => '0',
        1 => '1',
        2 => '2',
        3 => '3',
        4 => '4',
        5 => '5',
        6 => '6',
        7 => '7',
        8 => '8',
        _ => '9',
    }
}

/// Appends the decimal digits of `m` to `s`.
fn push_digits(s: &mut String, m: u128)
    ensures
        final(s)@ == old(s)@ + digits_of(m as nat),
    decreases m,
{
    if m >= 10 {
        push_digits(s, m / 10);
    }
    push_char(s, digit_to_char(m % 10));
    proof {
        if m >= 10 {
            assert(digits_of(m as nat) == digits_of((m / 10) as nat).push(digit_char((m % 10) as nat)));
        }
    }
    assert(final(s)@ =~= old(s)@ + digits_of(m as nat));
}

/// The decimal rendering of `n` (as `i64::to_string` writes it).
pub fn format_i64(n: i64) -> (s: String)
    ensures
        s@ == decimal_text(n as int),
{
    format_i128(n as i128)
}

/// The decimal rendering of `n` (as `i128::to_string` writes it).
pub fn format_i128(n: i128) -> (s: String)
    ensures
        s@ == decimal_text(n as int),
{
    let mut s = String::new();
    if n < 0 {
        push_char(&mut s, '-');
        let m: u128 = ((-(n + 1)) as u128) + 1;
        push_digits(&mut s, m);
    } else {
        let m: u128 = n as u128;
        push_digits(&mut s, m);
    }
    s
}

// ---------------------------------------------------------------------------
// Parsing numbers the way `str::parse` does
// ---------------------------------------------------------------------------

/// The digits of a number, after an optional leading `+`.
pub open spec fn unsigned_body(s: Seq<char>) -> Seq<char> {
    if s.len() > 0 && s[0] == '+' {
        s.drop_first()
    } else {
        s
    }
}

/// What `s.parse::<u16>()` yields: an optional `+`, then at least one digit,
/// and a value that fits.
pub open spec fn spec_parse_u16(s: Seq<char>) -> Option<u16> {
    let body = unsigned_body(s);
    if body.len() > 0 && all_digits(body) && decimal_value(body) <= u16::MAX {
        Some(decimal_value(body) as u16)
    } else {
        None
    }
}

/// Whether `s` starts with a minus sign.
pub open spec fn is_negative_text(s: Seq<char>) -> bool {
    s.len() > 0 && s[0] == '-'
}

/// The digits of a signed number, after an optional `+` or `-`.
pub open spec fn signed_body(s: Seq<char>) -> Seq<char> {
    if s.len() > 0 && (s[0] == '+' || s[0] == '-') {
        s.drop_first()
    } else {
        s
    }
}

/// What `s.parse::<i64>()` yields: an optional sign, then at least one digit,
/// and a value within the range of `i64`.
pub open spec fn spec_parse_i64(s: Seq<char>) -> Option<i64> {
    let body = signed_body(s);
    let v = decimal_value(body);
    if body.len() > 0 && all_digits(body) {
        if is_negative_text(s) {
            if v <= 0x8000_0000_0000_0000 {
                Some((-v) as i64)
            } else {
                None
            }
        } else if v <= i64::MAX {
            Some(v as i64)
        } else {
            None
        }
    } else {
        None
    }
}

/// Reads the digits of `s` from position `start` to the end; succeeds when
/// there is at least one, all are digits, and the value is at most `limit`.
fn parse_digits(s: &str, start: usize, limit: u64) -> (r: Option<u64>)
    requires
        start <= s@.len(),
    ensures
        ({
            let body = s@.subrange(start as int, s@.len() as int);
            match r {
                Some(v) => body.len() > 0 && all_digits(body) && decimal_value(body) <= limit
                    && v == decimal_value(body),
                None => !(body.len() > 0 && all_digits(body) && decimal_value(body) <= limit),
            }
        }),
{
    let n: usize = s.unicode_len();
    let ghost body = s@.subrange(start as int, n as int);
    if start >= n {
        return None;
    }
    let mut acc: u64 = 0;
    let mut i: usize = start;
    while i < n
        invariant
            n == s@.len(),
            start <= i <= n,
            body == s@.subrange(start as int, n as int),
            acc <= limit,
            acc == decimal_value(s@.subrange(start as int, i as int)),
            all_digits(s@.subrange(start as int, i as int)),
        decreases n - i,
    {
        let c = s.get_char(i);
        if !('0' <= c && c <= '9') {
            assert(body[i - start] == c);
            return None;
        }
        let d: u64 = (c as u32 - '0' as u32) as u64;
        proof {
            lemma_decimal_step(s@, start as int, i as int);
        }
        let next: u128 = (acc as u128) * 10 + (d as u128);
        assert(s@.subrange(start as int, i + 1) == body.subrange(0, i + 1 - start));
        if next > limit as u128 {
            proof {
                if all_digits(body) {
                    lemma_decimal_prefix_le(body, i + 1 - start);
                }
            }
            return None;
        }
        acc = next as u64;
        i = i + 1;
        assert(all_digits(s@.subrange(start as int, i as int))) by {
            assert forall|j: int| 0 <= j < i - start implies is_digit(
                #[trigger] s@.subrange(start as int, i as int)[j],
            ) by {
                if j < i - 1 - start {
                    assert(s@.subrange(start as int, i as int)[j] == s@.subrange(
                        start as int,
                        i - 1,
                    )[j]);
                }
            }
        }
    }
    Some(acc)
}

/// Parses a port number the way `s.parse::<u16>()` does.
pub fn parse_u16(s: &str) -> (r: Option<u16>)
    ensures
        r == spec_parse_u16(s@),
{
    let n: usize = s.unicode_len();
    let start: usize = if n > 0 && s.get_char(0) == '+' { 1 } else { 0 };
    assert(unsigned_body(s@) =~= s@.subrange(start as int, n as int));
    match parse_digits(s, start, 65535) {
        Some(v) => Some(v as u16),
        None => None,
    }
}

/// Parses a whole number the way `s.parse::<i64>()` does.
pub fn parse_i64(s: &str) -> (r: Option<i64>)
    ensures
        r == spec_parse_i64(s@),
{
    let n: usize = s.unicode_len();
    let first: Option<char> = if n > 0 { Some(s.get_char(0)) } else { None };
    let negative: bool = first == Some('-');
    let signed: bool = negative || first == Some('+');
    let start: usize = if signed { 1 } else { 0 };
    assert(signed_body(s@) =~= s@.subrange(start as int, n as int));
    let limit: u64 = if negative { 0x8000_0000_0000_0000 } else { 0x7fff_ffff_ffff_ffff };
    match parse_digits(s, start, limit) {
        Some(v) => {
            if negative {
                Some((-(v as i128)) as i64)
            } else {
                Some(v as i64)
            }
        },
        None => None,
    }
}

/// A number written by `format_i64` reads back, through `parse_i64`, as
/// the same number.
pub proof fn law_i64_text_roundtrip(n: i64)
    ensures
        spec_parse_i64(decimal_text(n as int)) == Some(n),
{
    if n < 0 {
        let m: nat = (-n) as nat;
        lemma_digits_roundtrip(m);
        let s = decimal_text(n as int);
        assert(s[0] == '-');
        assert(signed_body(s) =~= digits_of(m));
    } else {
        lemma_digits_roundtrip(n as nat);
        let s = decimal_text(n as int);
        assert(is_digit(s[0]));
        assert(signed_body(s) =~= s);
    }
}

/// A port written in decimal reads back, through `parse_u16`, as the same port.
pub proof fn law_u16_text_roundtrip(n: u16)
    ensures
        spec_parse_u16(digits_of(n as nat)) == Some(n),
{
    lemma_digits_roundtrip(n as nat);
    let s = digits_of(n as nat);
    assert(is_digit(s[0]));
    assert(unsigned_body(s) =~= s);
}

// ---------------------------------------------------------------------------
// Other string helpers
// ---------------------------------------------------------------------------

/// The string with every space turned into a hyphen.
pub open spec fn spaces_to_hyphens(s: Seq<char>) -> Seq<char> {
    Seq::new(s.len(), |i: int| if s[i] == ' ' { '-' } else { s[i] })
}

/// Replaces every space of `s` with a hyphen (as `s.replace(' ', "-")`).
pub fn replace_spaces(s: &str) -> (r: String)
    ensures
        r@ == spaces_to_hyphens(s@),
{
    let n: usize = s.unicode_len();
    let mut r = String::new();
    let mut i: usize = 0;
    while i < n
        invariant
            n == s@.len(),
            i <= n,
            r@ == spaces_to_hyphens(s@).subrange(0, i as int),
        decreases n - i,
    {
        let c = s.get_char(i);
        let d = if c == ' ' { '-' } else { c };
        push_char(&mut r, d);
        i = i + 1;
        assert(r@ =~= spaces_to_hyphens(s@).subrange(0, i as int));
    }
    assert(spaces_to_hyphens(s@).subrange(0, n as int) =~= spaces_to_hyphens(s@));
    r
}

/// A copy of an optional string.
pub fn clone_opt(o: &Option<String>) -> (r: Option<String>)
    ensures
        r == *o,
{
    match o {
        Some(s) => Some(s.clone()),
        None => None,
    }
}

/// The string `a` followed by `b`.
pub fn join2(a: &str, b: &str) -> (r: String)
    ensures
        r@ == a@ + b@,
{
    let mut r = String::from_str(a);
    r.append(b);
    r
}

/// The name the library gives to what `str::to_lowercase` returns: the
/// Unicode lowercase form of a string.
pub uninterp spec fn lowercase(s: Seq<char>) -> Seq<char>;

#[verifier::external_body]
/// Calls `str::to_lowercase`. Claims only that the result is the lowercase
/// form of the argument, a function of the argument alone; nothing is
/// claimed of what that form holds.
pub(crate) fn to_lowercase(s: &str) -> (r: String)
    ensures
        r@ == lowercase(s@),
{
    s.to_lowercase()
}

/// Whether `s` begins with `prefix`.
pub open spec fn has_prefix(s: Seq<char>, prefix: Seq<char>) -> bool {
    prefix.len() <= s.len() && s.subrange(0, prefix.len() as int) == prefix
}

/// The rest of `s` after `prefix`, when `s` begins with it
/// (as `str::strip_prefix` does).
pub fn strip_prefix(s: &str, prefix: &str) -> (r: Option<String>)
    ensures
        match r {
            Some(rest) => has_prefix(s@, prefix@) && rest@ == s@.subrange(
                prefix@.len() as int,
                s@.len() as int,
            ),
            None => !has_prefix(s@, prefix@),
        },
{
    let n: usize = s.unicode_len();
    let k: usize = prefix.unicode_len();
    if k > n {
        return None;
    }
    let mut i: usize = 0;
    while i < k
        invariant
            n == s@.len(),
            k == prefix@.len(),
            k <= n,
            i <= k,
            forall|j: int| 0 <= j < i ==> s@[j] == prefix@[j],
        decreases k - i,
    {
        if s.get_char(i) != prefix.get_char(i) {
            assert(s@.subrange(0, k as int)[i as int] != prefix@[i as int]);
            return None;
        }
        i = i + 1;
    }
    assert(s@.subrange(0, k as int) =~= prefix@);
    Some(String::from_str(s.substring_char(k, n)))
}

/// Where the text after the last `.` of `s[..i]` starts: just after that
/// dot, or at the beginning when there is none.
pub open spec fn after_last_dot_from(s: Seq<char>, i: int) -> int
    decreases i,
{
    if i <= 0 {
        0
    } else if s[i - 1] == '.' {
        i
    } else {
        after_last_dot_from(s, i - 1)
    }
}

/// The text after the last `.` of `s`, or all of `s` when it has no dot
/// (the first item of `s.rsplit('.')`).
pub open spec fn after_last_dot(s: Seq<char>) -> Seq<char> {
    s.subrange(after_last_dot_from(s, s.len() as int), s.len() as int)
}

/// The position found never passes the end and the text after it holds no dot.
pub proof fn lemma_after_last_dot(s: Seq<char>, i: int)
    requires
        0 <= i <= s.len(),
    ensures
        0 <= after_last_dot_from(s, i) <= i,
        forall|j: int| after_last_dot_from(s, i) <= j < i ==> s[j] != '.',
        after_last_dot_from(s, i) > 0 ==> s[after_last_dot_from(s, i) - 1] == '.',
    decreases i,
{
    if i > 0 && s[i - 1] != '.' {
        lemma_after_last_dot(s, i - 1);
    }
}

/// The text after the last `.` of `s` (all of `s` when there is none).
pub fn text_after_last_dot(s: &str) -> (r: String)
    ensures
        r@ == after_last_dot(s@),
{
    let n: usize = s.unicode_len();
    let mut i: usize = n;
    while i > 0 && s.get_char(i - 1) != '.'
        invariant
            n == s@.len(),
            i <= n,
            after_last_dot_from(s@, n as int) == after_last_dot_from(s@, i as int),
        decreases i,
    {
        i = i - 1;
    }
    String::from_str(s.substring_char(i, n))
}

} // verus!
