use vstd::prelude::*;

verus! {

/// The character that an ASCII byte stands for.
pub open spec fn ascii_char(b: u8) -> char {
    b as char
}

/// Whether `b` is an ASCII decimal digit.
pub open spec fn is_digit_byte(b: u8) -> bool {
    48 <= b <= 57
}

/// Whether every byte of `s` is an ASCII decimal digit.
pub open spec fn all_digit_bytes(s: Seq<u8>) -> bool {
    forall|i: int| 0 <= i < s.len() ==> #[trigger] is_digit_byte(s[i])
}

/// The number written by a sequence of ASCII decimal digits.
pub open spec fn digits_value(s: Seq<u8>) -> nat
    decreases s.len(),
{
    if s.len() == 0 {
        0
    } else {
        digits_value(s.drop_last()) * 10 + (s.last() - 48) as nat
    }
}

/// What `u64::from_str` returns on these bytes: an optional `+` followed by at least one
/// decimal digit, with a value that fits in 64 bits.
pub open spec fn spec_parse_u64(s: Seq<u8>) -> Option<u64> {
    let d = if s.len() > 0 && s[0] == 43u8 { s.skip(1) } else { s };
    if d.len() > 0 && all_digit_bytes(d) && digits_value(d) <= u64::MAX {
        Some(digits_value(d) as u64)
    } else {
        None
    }
}

/// Parses a decimal `u64` written as in `u64::from_str`.
pub fn parse_u64_bytes(s: &[u8]) -> (r: Option<u64>)
    ensures
        r == spec_parse_u64(s@),
{
    let mut start: usize = 0;
    if s.len() > 0 && s[0] == 43u8 {
        start = 1;
    }
    let ghost d = if s@.len() > 0 && s@[0] == 43u8 { s@.skip(1) } else { s@ };
    if start >= s.len() {
        return None;
    }
    let mut value: u64 = 0;
    let mut i: usize = start;
    while i < s.len()
        invariant
            start <= i <= s@.len(),
            start == s@.len() - d.len(),
            d == (if s@.len() > 0 && s@[0] == 43u8 { s@.skip(1) } else { s@ }),
            d == s@.skip(start as int),
            all_digit_bytes(s@.subrange(start as int, i as int)),
            value as int == digits_value(s@.subrange(start as int, i as int)),
        decreases s@.len() - i,
    {
        let b = s[i];
        assert(s@.subrange(start as int, i + 1).drop_last() =~= s@.subrange(start as int, i as int));
        assert(d.subrange(0, i - start) =~= s@.subrange(start as int, i as int));
        assert(d[i - start] == s@[i as int]);
        if b < 48 || b > 57 {
            proof {
                let k = i - start;
                assert(!is_digit_byte(d[k as int]));
                assert(!all_digit_bytes(d));
            }
            return None;
        }
        let digit = (b - 48) as u64;
        if value > 1844674407370955161 || (value == 1844674407370955161 && digit > 5) {
            proof {
                lemma_digits_value_prefix_bound(d, (i - start) as int);
            }
            return None;
        }
        value = value * 10 + digit;
        i = i + 1;
    }
    proof {
        assert(s@.subrange(start as int, s@.len() as int) =~= d);
    }
    Some(value)
}

/// A longer digit string never has a smaller value than its prefixes followed by a digit.
pub proof fn lemma_digits_value_prefix_bound(d: Seq<u8>, k: int)
    requires
        0 <= k < d.len(),
        all_digit_bytes(d.subrange(0, k)),
        is_digit_byte(d[k]),
        digits_value(d.subrange(0, k)) * 10 + (d[k] - 48) > u64::MAX,
    ensures
        !(all_digit_bytes(d) && digits_value(d) <= u64::MAX),
    decreases d.len() - k,
{
    if all_digit_bytes(d) {
        lemma_digits_value_monotone(d, k + 1);
        assert(d.subrange(0, k + 1).drop_last() =~= d.subrange(0, k));
    }
}

/// The value of a digit string is at least the value of any of its prefixes.
pub proof fn lemma_digits_value_monotone(d: Seq<u8>, k: int)
    requires
        0 <= k <= d.len(),
        all_digit_bytes(d),
    ensures
        digits_value(d.subrange(0, k)) <= digits_value(d),
    decreases d.len() - k,
{
    if k < d.len() {
        lemma_digits_value_monotone(d, k + 1);
        assert(d.subrange(0, k + 1).drop_last() =~= d.subrange(0, k));
        assert(is_digit_byte(d[k]));
    } else {
        assert(d.subrange(0, k) =~= d);
    }
}


/// The characters that `String::from_utf8_lossy` gives for these bytes.
pub uninterp spec fn spec_utf8_lossy(bytes: Seq<u8>) -> Seq<char>;

/// Whether every byte is ASCII.
pub open spec fn all_ascii(bytes: Seq<u8>) -> bool {
    forall|i: int| 0 <= i < bytes.len() ==> #[trigger] bytes[i] < 128
}

/// Decodes bytes as UTF-8 with `String::from_utf8_lossy`, which replaces each invalid
/// sequence with U+FFFD. The contract states the result for ASCII input, where every byte
/// is its own character; for other input it names the result.
#[verifier::external_body]
pub(crate) fn utf8_lossy(bytes: &[u8]) -> (r: String)
    ensures
        r@ == spec_utf8_lossy(bytes@),
        all_ascii(bytes@) ==> r@ == bytes@.map_values(|b: u8| b as char),
{
    String::from_utf8_lossy(bytes).into_owned()
}

/// Index of the first `b` in `s` at or after `pos`, or the length of `s` when there is none.
pub open spec fn next_index_of(s: Seq<u8>, b: u8, pos: int) -> int
    decreases s.len() - pos,
{
    if pos >= s.len() {
        s.len() as int
    } else if s[pos] == b {
        pos
    } else {
        next_index_of(s, b, pos + 1)
    }
}

/// `next_index_of` finds the first `b` at or after `pos`, or the length when there is none.
pub proof fn lemma_next_index_of(s: Seq<u8>, b: u8, pos: int)
    requires
        0 <= pos <= s.len(),
    ensures
        pos <= next_index_of(s, b, pos) <= s.len(),
        next_index_of(s, b, pos) < s.len() ==> s[next_index_of(s, b, pos)] == b,
        forall|i: int| pos <= i < next_index_of(s, b, pos) ==> s[i] != b,
    decreases s.len() - pos,
{
    if pos < s.len() && s[pos] != b {
        lemma_next_index_of(s, b, pos + 1);
    }
}

/// Finds the first `b` in `s` at or after `pos`; the length of `s` when there is none.
pub fn find_byte(s: &[u8], b: u8, pos: usize) -> (r: usize)
    requires
        pos <= s@.len(),
    ensures
        r == next_index_of(s@, b, pos as int),
{
    let mut i = pos;
    while i < s.len()
        invariant
            pos <= i <= s@.len(),
            next_index_of(s@, b, pos as int) == next_index_of(s@, b, i as int),
        decreases s@.len() - i,
    {
        if s[i] == b {
            return i;
        }
        i = i + 1;
    }
    i
}

/// The decimal digits of `n`, most significant first.
pub open spec fn decimal_chars(n: nat) -> Seq<char>
    decreases n,
{
    if n < 10 {
        seq![digit_char((n % 10) as nat)]
    } else {
        decimal_chars(n / 10).push(digit_char((n % 10) as nat))
    }
}

/// The character of a decimal digit.
pub open spec fn digit_char(d: nat) -> char {
    ((48 + d) as u8) as char
}

/// Appends a character with `String::push`.
#[verifier::external_body]
pub(crate) fn push_char(s: &mut String, c: char)
    ensures
        final(s)@ == old(s)@.push(c),
{
    s.push(c);
}

/// Appends a string slice.
pub fn append_str(s: &mut String, t: &str)
    ensures
        final(s)@ == old(s)@ + t@,
{
    s.append(t);
}

/// The decimal digits of `n`, most significant first.
pub fn decimal_digits(n: u64) -> (r: Vec<char>)
    ensures
        r@ == decimal_chars(n as nat),
    decreases n,
{
    let c = ((48 + n % 10) as u8) as char;
    if n < 10 {
        let mut v = Vec::new();
        v.push(c);
        v
    } else {
        let mut v = decimal_digits(n / 10);
        v.push(c);
        v
    }
}

/// Appends the decimal digits of `n`.
pub fn append_decimal(s: &mut String, n: u64)
    ensures
        final(s)@ == old(s)@ + decimal_chars(n as nat),
{
    let digits = decimal_digits(n);
    let ghost start = s@;
    let mut i: usize = 0;
    while i < digits.len()
        invariant
            0 <= i <= digits@.len(),
            s@ == start + digits@.subrange(0, i as int),
        decreases digits@.len() - i,
    {
        push_char(s, digits[i]);
        i = i + 1;
        assert(s@ =~= start + digits@.subrange(0, i as int));
    }
    assert(digits@.subrange(0, digits@.len() as int) =~= digits@);
}
/// Compares two strings character by character.
pub fn str_eq(a: &str, b: &str) -> (r: bool)
    ensures
        r == (a@ == b@),
{
    let n = a.unicode_len();
    if n != b.unicode_len() {
        return false;
    }
    let mut i: usize = 0;
    while i < n
        invariant
            n == a@.len(),
            n == b@.len(),
            0 <= i <= n,
            forall|j: int| 0 <= j < i ==> a@[j] == b@[j],
        decreases n - i,
    {
        if a.get_char(i) != b.get_char(i) {
            return false;
        }
        i = i + 1;
    }
    assert(a@ =~= b@);
    true
}


/// The characters of each string.
pub open spec fn string_views(v: Seq<String>) -> Seq<Seq<char>> {
    v.map_values(|s: String| s@)
}

/// Whether every character is ASCII.
pub open spec fn all_ascii_chars(s: Seq<char>) -> bool {
    forall|i: int| 0 <= i < s.len() ==> (#[trigger] s[i] as u32) < 128
}

/// The bytes of an ASCII string.
pub open spec fn ascii_bytes(s: Seq<char>) -> Seq<u8> {
    s.map_values(|c: char| c as u8)
}

/// What `u64::from_str` returns on a string: digits are ASCII, so a string with any other
/// character is refused.
pub open spec fn spec_parse_u64_str(s: Seq<char>) -> Option<u64> {
    if all_ascii_chars(s) { spec_parse_u64(ascii_bytes(s)) } else { None }
}

/// What `u32::from_str` returns on a string.
pub open spec fn spec_parse_u32_str(s: Seq<char>) -> Option<u32> {
    match spec_parse_u64_str(s) {
        Some(v) => if v <= u32::MAX { Some(v as u32) } else { None },
        None => None,
    }
}

/// What `u16::from_str` returns on a string.
pub open spec fn spec_parse_u16_str(s: Seq<char>) -> Option<u16> {
    match spec_parse_u64_str(s) {
        Some(v) => if v <= u16::MAX { Some(v as u16) } else { None },
        None => None,
    }
}

/// What `u8::from_str` returns on a string.
pub open spec fn spec_parse_u8_str(s: Seq<char>) -> Option<u8> {
    match spec_parse_u64_str(s) {
        Some(v) => if v <= u8::MAX { Some(v as u8) } else { None },
        None => None,
    }
}

/// Parses a decimal `u64` as `u64::from_str` does.
pub fn parse_u64_str(s: &str) -> (r: Option<u64>)
    ensures
        r == spec_parse_u64_str(s@),
{
    let n = s.unicode_len();
    let mut bytes: Vec<u8> = Vec::new();
    let mut i: usize = 0;
    while i < n
        invariant
            n == s@.len(),
            0 <= i <= n,
            all_ascii_chars(s@.subrange(0, i as int)),
            bytes@ == ascii_bytes(s@.subrange(0, i as int)),
        decreases n - i,
    {
        let c = s.get_char(i);
        if (c as u32) >= 128 {
            proof {
                assert((s@[i as int] as u32) >= 128);
            }
            return None;
        }
        bytes.push(c as u8);
        i = i + 1;
        assert(bytes@ =~= ascii_bytes(s@.subrange(0, i as int)));
        assert forall|j: int| 0 <= j < i implies (#[trigger] s@.subrange(0, i as int)[j] as u32) < 128 by {
            if j < i - 1 {
                assert(s@.subrange(0, i - 1)[j] == s@[j]);
            }
        }
    }
    assert(s@.subrange(0, n as int) =~= s@);
    parse_u64_bytes(bytes.as_slice())
}

/// Parses a decimal `u32` as `u32::from_str` does.
pub fn parse_u32_str(s: &str) -> (r: Option<u32>)
    ensures
        r == spec_parse_u32_str(s@),
{
    match parse_u64_str(s) {
        Some(v) => if v <= 4294967295 { Some(v as u32) } else { None },
        None => None,
    }
}

/// Parses a decimal `u16` as `u16::from_str` does.
pub fn parse_u16_str(s: &str) -> (r: Option<u16>)
    ensures
        r == spec_parse_u16_str(s@),
{
    match parse_u64_str(s) {
        Some(v) => if v <= 65535 { Some(v as u16) } else { None },
        None => None,
    }
}

/// Parses a decimal `u8` as `u8::from_str` does.
pub fn parse_u8_str(s: &str) -> (r: Option<u8>)
    ensures
        r == spec_parse_u8_str(s@),
{
    match parse_u64_str(s) {
        Some(v) => if v <= 255 { Some(v as u8) } else { None },
        None => None,
    }
}

/// `a` followed by `b`.
pub fn concat_str(a: &str, b: &str) -> (r: String)
    ensures
        r@ == a@ + b@,
{
    let mut s = a.to_string();
    s.append(b);
    s
}

/// `<host>:<port>`.
pub fn host_port(host: &str, port: u16) -> (r: String)
    ensures
        r@ == host@ + ":"@ + decimal_chars(port as nat),
{
    let mut s = host.to_string();
    s.append(":");
    append_decimal(&mut s, port as u64);
    s
}
/// Index of the first `c` in `s` at or after `pos`, or the length of `s` when there is none.
pub open spec fn next_char_index(s: Seq<char>, c: char, pos: int) -> int
    decreases s.len() - pos,
{
    if pos >= s.len() {
        s.len() as int
    } else if s[pos] == c {
        pos
    } else {
        next_char_index(s, c, pos + 1)
    }
}

/// `next_char_index` finds the first `c` at or after `pos`, or the length when there is none.
pub proof fn lemma_next_char_index(s: Seq<char>, c: char, pos: int)
    requires
        0 <= pos,
    ensures
        pos <= s.len() ==> pos <= next_char_index(s, c, pos) <= s.len(),
        pos > s.len() ==> next_char_index(s, c, pos) == s.len(),
        next_char_index(s, c, pos) < s.len() ==> s[next_char_index(s, c, pos)] == c,
        forall|i: int| pos <= i < next_char_index(s, c, pos) ==> s[i] != c,
    decreases s.len() - pos,
{
    if pos < s.len() && s[pos] != c {
        lemma_next_char_index(s, c, pos + 1);
    }
}

/// Finds the first `c` in `s` at or after `pos`; the length of `s` when there is none.
pub fn find_char(s: &str, c: char, pos: usize) -> (r: usize)
    requires
        pos <= s@.len(),
    ensures
        r == next_char_index(s@, c, pos as int),
        pos <= r <= s@.len(),
{
    let n = s.unicode_len();
    let mut i = pos;
    while i < n
        invariant
            n == s@.len(),
            pos <= i <= n,
            next_char_index(s@, c, pos as int) == next_char_index(s@, c, i as int),
        decreases n - i,
    {
        if s.get_char(i) == c {
            return i;
        }
        i = i + 1;
    }
    i
}

} // verus!
