//! Character-level string helpers shared by the rest of the library.
use vstd::prelude::*;
use vstd::string::*;

verus! {

/// `p` is a prefix of `s`.
pub open spec fn has_prefix(s: Seq<char>, p: Seq<char>) -> bool {
    p.len() <= s.len() && s.subrange(0, p.len() as int) == p
}

/// ASCII letters and digits.
pub open spec fn is_ascii_alnum(c: char) -> bool {
    ('0' <= c && c <= '9') || ('a' <= c && c <= 'z') || ('A' <= c && c <= 'Z')
}

/// The Unicode `White_Space` property, which `char::is_whitespace` reports.
pub open spec fn is_unicode_whitespace(c: char) -> bool {
    let u = c as u32;
    ||| (0x09 <= u && u <= 0x0d)
    ||| u == 0x20
    ||| u == 0x85
    ||| u == 0xa0
    ||| u == 0x1680
    ||| (0x2000 <= u && u <= 0x200a)
    ||| u == 0x2028
    ||| u == 0x2029
    ||| u == 0x202f
    ||| u == 0x205f
    ||| u == 0x3000
}

/// Every character of `s` is whitespace, so that trimming leaves nothing.
pub open spec fn all_whitespace(s: Seq<char>) -> bool {
    forall|i: int| 0 <= i < s.len() ==> is_unicode_whitespace(#[trigger] s[i])
}

/// The ASCII character of a digit value below 16, lower case above 9.
pub open spec fn hex_digit(d: int) -> char {
    if d < 10 {
        (d + 48) as char
    } else {
        (d + 87) as char
    }
}

/// `s` without its leading whitespace.
pub open spec fn trim_start_spec(s: Seq<char>) -> Seq<char>
    decreases s.len(),
{
    if s.len() > 0 && is_unicode_whitespace(s[0]) {
        trim_start_spec(s.drop_first())
    } else {
        s
    }
}

/// `s` without its trailing whitespace.
pub open spec fn trim_end_spec(s: Seq<char>) -> Seq<char>
    decreases s.len(),
{
    if s.len() > 0 && is_unicode_whitespace(s.last()) {
        trim_end_spec(s.drop_last())
    } else {
        s
    }
}

/// `s` without surrounding whitespace, as `str::trim` gives it.
pub open spec fn trim_spec(s: Seq<char>) -> Seq<char> {
    trim_end_spec(trim_start_spec(s))
}

/// Decimal digits of a natural number, most significant first.
pub open spec fn decimal_nat(n: nat) -> Seq<char>
    decreases n,
{
    if n < 10 {
        seq![hex_digit(n as int)]
    } else {
        decimal_nat(n / 10).push(hex_digit((n % 10) as int))
    }
}

/// Decimal text of an integer, with a leading `-` when negative.
pub open spec fn decimal_int(n: int) -> Seq<char> {
    if n < 0 {
        seq!['-'] + decimal_nat((-n) as nat)
    } else {
        decimal_nat(n as nat)
    }
}

/// Two lower-case hex digits of a byte.
pub open spec fn hex_byte(b: u8) -> Seq<char> {
    seq![hex_digit((b / 16) as int), hex_digit((b % 16) as int)]
}

/// Lower-case hex text of a byte string.
pub open spec fn hex_bytes(bs: Seq<u8>) -> Seq<char>
    decreases bs.len(),
{
    if bs.len() == 0 {
        Seq::empty()
    } else {
        hex_bytes(bs.drop_last()) + hex_byte(bs.last())
    }
}

pub open spec fn is_digit(c: char) -> bool {
    '0' <= c && c <= '9'
}

pub open spec fn all_digits(s: Seq<char>) -> bool {
    forall|i: int| 0 <= i < s.len() ==> is_digit(#[trigger] s[i])
}

/// The number that a string of decimal digits denotes.
pub open spec fn digits_value(s: Seq<char>) -> nat
    decreases s.len(),
{
    if s.len() == 0 {
        0
    } else {
        digits_value(s.drop_last()) * 10 + ((s.last() as int - 48) as nat)
    }
}

/// What `str::parse::<usize>` gives: an optional `+`, then one or more
/// decimal digits whose value fits in `usize`.
pub open spec fn parse_usize_spec(s: Seq<char>) -> Option<usize> {
    let body = if s.len() > 0 && s[0] == '+' { s.drop_first() } else { s };
    if body.len() > 0 && all_digits(body) && digits_value(body) <= usize::MAX {
        Some(digits_value(body) as usize)
    } else {
        None
    }
}

/// Appends one character to a string (std `String::push`).
/// Claimed: the new contents are the old contents followed by `c`.
#[verifier::external_body]
pub(crate) fn push_char(s: &mut String, c: char)
    ensures
        final(s)@ == old(s)@.push(c),
{
    s.push(c);
}

/// The characters of `s`, in order.
pub fn chars_of(s: &str) -> (v: Vec<char>)
    ensures
        v@ == s@,
{
    let n: usize = s.unicode_len();
    let mut v: Vec<char> = Vec::new();
    let mut i: usize = 0;
    while i < n
        invariant
            n == s@.len(),
            i <= n,
            v@ == s@.subrange(0, i as int),
        decreases n - i,
    {
        v.push(s.get_char(i));
        i += 1;
        assert(v@ =~= s@.subrange(0, i as int));
    }
    v
}

/// Appends the characters of `v` to `s`.
pub fn push_chars(s: &mut String, v: &Vec<char>)
    ensures
        final(s)@ == old(s)@ + v@,
{
    let ghost start = s@;
    let mut i: usize = 0;
    while i < v.len()
        invariant
            i <= v.len(),
            s@ == start + v@.subrange(0, i as int),
        decreases v.len() - i,
    {
        push_char(s, v[i]);
        i += 1;
        assert(s@ =~= start + v@.subrange(0, i as int));
    }
    assert(v@.subrange(0, v.len() as int) =~= v@);
}

/// Appends `v[from..to]` to `s`.
pub fn push_range(s: &mut String, v: &Vec<char>, from: usize, to: usize)
    requires
        from <= to <= v@.len(),
    ensures
        final(s)@ == old(s)@ + v@.subrange(from as int, to as int),
{
    let ghost start = s@;
    let mut i: usize = from;
    while i < to
        invariant
            from <= i <= to <= v@.len(),
            s@ == start + v@.subrange(from as int, i as int),
        decreases to - i,
    {
        push_char(s, v[i]);
        i += 1;
        assert(s@ =~= start + v@.subrange(from as int, i as int));
    }
}

/// A string holding exactly the characters of `v`.
pub fn string_of(v: &Vec<char>) -> (s: String)
    ensures
        s@ == v@,
{
    let mut s = String::new();
    push_chars(&mut s, v);
    assert(s@ =~= v@);
    s
}

/// A fresh string with the characters of `t`.
pub fn to_string(t: &str) -> (s: String)
    ensures
        s@ == t@,
{
    t.to_owned()
}

/// Whether two strings hold the same characters.
pub fn str_eq(a: &str, b: &str) -> (r: bool)
    ensures
        r == (a@ == b@),
{
    let x = chars_of(a);
    let y = chars_of(b);
    if x.len() != y.len() {
        return false;
    }
    let mut i: usize = 0;
    while i < x.len()
        invariant
            x@ == a@,
            y@ == b@,
            x.len() == y.len(),
            i <= x.len(),
            forall|j: int| 0 <= j < i ==> x@[j] == y@[j],
        decreases x.len() - i,
    {
        if x[i] != y[i] {
            return false;
        }
        i += 1;
    }
    assert(x@ =~= y@);
    true
}

/// Whether `p` is a prefix of `s`.
pub fn starts_with(s: &str, p: &str) -> (r: bool)
    ensures
        r == has_prefix(s@, p@),
{
    let x = chars_of(s);
    let y = chars_of(p);
    if y.len() > x.len() {
        return false;
    }
    let mut i: usize = 0;
    while i < y.len()
        invariant
            x@ == s@,
            y@ == p@,
            y.len() <= x.len(),
            i <= y.len(),
            forall|j: int| 0 <= j < i ==> x@[j] == y@[j],
        decreases y.len() - i,
    {
        if x[i] != y[i] {
            assert(s@.subrange(0, p@.len() as int)[i as int] != p@[i as int]);
            return false;
        }
        i += 1;
    }
    assert(s@.subrange(0, p@.len() as int) =~= p@);
    true
}

/// `char::is_ascii_alphanumeric`.
pub fn char_is_ascii_alnum(c: char) -> (r: bool)
    ensures
        r == is_ascii_alnum(c),
{
    ('0' <= c && c <= '9') || ('a' <= c && c <= 'z') || ('A' <= c && c <= 'Z')
}

/// `char::is_whitespace`.
pub fn char_is_whitespace(c: char) -> (r: bool)
    ensures
        r == is_unicode_whitespace(c),
{
    let u: u32 = c as u32;
    (0x09 <= u && u <= 0x0d) || u == 0x20 || u == 0x85 || u == 0xa0 || u == 0x1680 || (0x2000
        <= u && u <= 0x200a) || u == 0x2028 || u == 0x2029 || u == 0x202f || u == 0x205f || u
        == 0x3000
}

/// Whether `s` is empty once surrounding whitespace is trimmed.
pub fn is_blank(s: &str) -> (r: bool)
    ensures
        r == all_whitespace(s@),
{
    let x = chars_of(s);
    let mut i: usize = 0;
    while i < x.len()
        invariant
            x@ == s@,
            i <= x.len(),
            forall|j: int| 0 <= j < i ==> is_unicode_whitespace(#[trigger] x@[j]),
        decreases x.len() - i,
    {
        if !char_is_whitespace(x[i]) {
            return false;
        }
        i += 1;
    }
    true
}

proof fn lemma_trim_start_step(s: Seq<char>, i: int)
    requires
        0 <= i < s.len(),
        is_unicode_whitespace(s[i]),
    ensures
        trim_start_spec(s.subrange(i, s.len() as int)) == trim_start_spec(s.subrange(i + 1, s.len() as int)),
{
    assert(s.subrange(i, s.len() as int).drop_first() =~= s.subrange(i + 1, s.len() as int));
}

proof fn lemma_trim_end_step(s: Seq<char>, j: int)
    requires
        0 < j <= s.len(),
        is_unicode_whitespace(s[j - 1]),
    ensures
        trim_end_spec(s.subrange(0, j)) == trim_end_spec(s.subrange(0, j - 1)),
{
    assert(s.subrange(0, j).drop_last() =~= s.subrange(0, j - 1));
}

/// `s` without surrounding whitespace (`str::trim`).
pub fn trim(text: &str) -> (r: String)
    ensures
        r@ == trim_spec(text@),
{
    let v = chars_of(text);
    let ghost vs = v@;
    let n: usize = v.len();
    let mut start: usize = 0;
    assert(vs.subrange(0, n as int) =~= vs);
    while start < n && char_is_whitespace(v[start])
        invariant
            v@ == vs,
            n == vs.len(),
            start <= n,
            trim_start_spec(vs) == trim_start_spec(vs.subrange(start as int, n as int)),
        decreases n - start,
    {
        proof {
            lemma_trim_start_step(vs, start as int);
        }
        start += 1;
    }
    let ghost lead = vs.subrange(start as int, n as int);
    assert(trim_start_spec(vs) == lead);
    let mut end: usize = n;
    assert(lead.subrange(0, (n - start) as int) =~= lead);
    while end > start && char_is_whitespace(v[end - 1])
        invariant
            v@ == vs,
            n == vs.len(),
            start <= end <= n,
            lead == vs.subrange(start as int, n as int),
            trim_end_spec(lead) == trim_end_spec(lead.subrange(0, end - start)),
        decreases end - start,
    {
        proof {
            lemma_trim_end_step(lead, (end - start) as int);
        }
        end -= 1;
    }
    let mut s = String::new();
    push_range(&mut s, &v, start, end);
    assert(lead.subrange(0, end - start) =~= vs.subrange(start as int, end as int));
    s
}

/// The character of a digit value below 16.
pub fn hex_digit_char(d: u8) -> (c: char)
    requires
        d < 16,
    ensures
        c == hex_digit(d as int),
{
    if d < 10 {
        (d + 48) as char
    } else {
        (d + 87) as char
    }
}

/// Appends the decimal digits of `n`.
pub fn push_decimal(s: &mut String, n: u64)
    ensures
        final(s)@ == old(s)@ + decimal_nat(n as nat),
    decreases n,
{
    if n >= 10 {
        push_decimal(s, n / 10);
    }
    let d: u8 = (n % 10) as u8;
    push_char(s, hex_digit_char(d));
}

/// Decimal text of an `i64`, as `to_string` writes it.
pub fn i64_to_decimal(n: i64) -> (s: String)
    ensures
        s@ == decimal_int(n as int),
{
    let mut s = String::new();
    if n < 0 {
        push_char(&mut s, '-');
        let m: u64 = if n == i64::MIN {
            9223372036854775808u64
        } else {
            (-n) as u64
        };
        push_decimal(&mut s, m);
    } else {
        push_decimal(&mut s, n as u64);
    }
    s
}

/// Lower-case hex text of `bytes`, two digits per byte.
pub fn hex_string(bytes: &[u8]) -> (s: String)
    ensures
        s@ == hex_bytes(bytes@),
{
    let mut s = String::new();
    let mut i: usize = 0;
    while i < bytes.len()
        invariant
            i <= bytes@.len(),
            s@ == hex_bytes(bytes@.subrange(0, i as int)),
        decreases bytes@.len() - i,
    {
        let b: u8 = bytes[i];
        push_char(&mut s, hex_digit_char(b / 16));
        push_char(&mut s, hex_digit_char(b % 16));
        assert(bytes@.subrange(0, i + 1).drop_last() =~= bytes@.subrange(0, i as int));
        i += 1;
        assert(s@ =~= hex_bytes(bytes@.subrange(0, i as int)));
    }
    assert(bytes@.subrange(0, bytes@.len() as int) =~= bytes@);
    s
}

/// A longer run of digits denotes at least as much as any of its prefixes.
proof fn lemma_digits_value_prefix(s: Seq<char>, k: int)
    requires
        0 <= k <= s.len(),
        all_digits(s),
    ensures
        digits_value(s.subrange(0, k)) <= digits_value(s),
    decreases s.len() - k,
{
    if k < s.len() {
        let t = s.subrange(0, k + 1);
        assert(t.drop_last() =~= s.subrange(0, k));
        assert(is_digit(s[k]));
        lemma_digits_value_prefix(s, k + 1);
    } else {
        assert(s.subrange(0, k) =~= s);
    }
}

/// `str::parse::<usize>`.
pub fn parse_usize(text: &str) -> (r: Option<usize>)
    ensures
        r == parse_usize_spec(text@),
{
    let s = chars_of(text);
    let mut start: usize = 0;
    if s.len() > 0 && s[0] == '+' {
        start = 1;
    }
    let ghost body: Seq<char> = if s@.len() > 0 && s@[0] == '+' {
        s@.drop_first()
    } else {
        s@
    };
    assert(body =~= s@.subrange(start as int, s@.len() as int));
    if start >= s.len() {
        return None;
    }
    let mut acc: usize = 0;
    let mut i: usize = start;
    while i < s.len()
        invariant
            s@ == text@,
            start <= i <= s@.len(),
            body =~= s@.subrange(start as int, s@.len() as int),
            body == (if text@.len() > 0 && text@[0] == '+' { text@.drop_first() } else { text@ }),
            all_digits(body.subrange(0, i - start)),
            acc as nat == digits_value(body.subrange(0, i - start)),
        decreases s.len() - i,
    {
        let c = s[i];
        let ghost k: int = i - start;
        if !('0' <= c && c <= '9') {
            assert(body[k] == c);
            assert(!is_digit(body[k]));
            assert(!all_digits(body));
            return None;
        }
        let d: usize = ((c as u32) - 48) as usize;
        assert(body.subrange(0, k + 1).drop_last() =~= body.subrange(0, k));
        assert(body.subrange(0, k + 1).last() == c);
        assert(digits_value(body.subrange(0, k + 1)) == acc * 10 + d);
        match acc.checked_mul(10) {
            Some(t) => match t.checked_add(d) {
                Some(u) => {
                    acc = u;
                },
                None => {
                    proof {
                        if all_digits(body) {
                            lemma_digits_value_prefix(body, k + 1);
                        }
                    }
                    return None;
                },
            },
            None => {
                proof {
                    if all_digits(body) {
                        lemma_digits_value_prefix(body, k + 1);
                    }
                }
                return None;
            },
        }
        i += 1;
        assert(all_digits(body.subrange(0, i - start)));
    }
    assert(body.subrange(0, s.len() - start) =~= body);
    Some(acc)
}

} // verus!
