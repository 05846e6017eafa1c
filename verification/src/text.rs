//! Text rendering helpers shared by the printers of the toolchain.
use vstd::prelude::*;
use vstd::utf8::*;

verus! {

/// What `std::str::from_utf8` reports, as text, for bytes that are not valid UTF-8.
pub uninterp spec fn utf8_error_text(bytes: Seq<u8>) -> Seq<char>;

/// Calls `std::str::from_utf8`: the bytes are accepted exactly when they are valid
/// UTF-8, and the returned slice has exactly those bytes; otherwise the error's
/// display text is returned, as named by `utf8_error_text`.
#[verifier::external_body]
pub(crate) fn str_from_utf8(bytes: &[u8]) -> (r: Result<&str, String>)
    ensures
        r is Ok <==> valid_utf8(bytes@),
        r matches Ok(s) ==> encode_utf8(s@) == bytes@,
        r matches Err(m) ==> m@ == utf8_error_text(bytes@),
{
    match std::str::from_utf8(bytes) {
        Ok(s) => Ok(s),
        Err(e) => Err(e.to_string()),
    }
}

/// Calls `String::into_bytes`: the UTF-8 encoding of the string.
#[verifier::external_body]
pub(crate) fn string_into_bytes(s: String) -> (v: Vec<u8>)
    ensures
        v@ == encode_utf8(s@),
{
    s.into_bytes()
}

/// The character of a decimal digit.
pub open spec fn digit_char(d: nat) -> char {
    if d == 0 { '0' }
    else if d == 1 { '1' }
    else if d == 2 { '2' }
    else if d == 3 { '3' }
    else if d == 4 { '4' }
    else if d == 5 { '5' }
    else if d == 6 { '6' }
    else if d == 7 { '7' }
    else if d == 8 { '8' }
    else { '9' }
}

/// Decimal rendering of a natural number, most significant digit first.
pub open spec fn decimal(n: nat) -> Seq<char>
    decreases n,
{
    if n < 10 {
        seq![digit_char(n)]
    } else {
        decimal(n / 10).push(digit_char(n % 10))
    }
}

/// A run of `n` spaces.
pub open spec fn spaces(n: nat) -> Seq<char> {
    Seq::new(n, |i: int| ' ')
}

/// `s` right-aligned in a field of `width` characters (Rust's `{:width}` for numbers).
pub open spec fn pad_left(s: Seq<char>, width: nat) -> Seq<char> {
    if s.len() >= width { s } else { spaces((width - s.len()) as nat) + s }
}

/// `s` left-aligned in a field of `width` characters (Rust's `{:<width}`, and `{:width}` for text).
pub open spec fn pad_right(s: Seq<char>, width: nat) -> Seq<char> {
    if s.len() >= width { s } else { s + spaces((width - s.len()) as nat) }
}

/// Appends one character to a string.
#[verifier::external_body]
pub(crate) fn push_char(s: &mut String, c: char)
    ensures
        final(s)@ == old(s)@.push(c),
{
    s.push(c);
}

/// Appends a string slice to a string.
#[verifier::external_body]
pub(crate) fn push_str(s: &mut String, t: &str)
    ensures
        final(s)@ == old(s)@ + t@,
{
    s.push_str(t);
}

fn digit(d: u64) -> (c: char)
    requires
        d < 10,
    ensures
        c == digit_char(d as nat),
{
    if d == 0 { '0' }
    else if d == 1 { '1' }
    else if d == 2 { '2' }
    else if d == 3 { '3' }
    else if d == 4 { '4' }
    else if d == 5 { '5' }
    else if d == 6 { '6' }
    else if d == 7 { '7' }
    else if d == 8 { '8' }
    else { '9' }
}

/// Appends the decimal rendering of `n`.
pub fn push_decimal(s: &mut String, n: u64)
    ensures
        final(s)@ == old(s)@ + decimal(n as nat),
    decreases n,
{
    if n >= 10 {
        push_decimal(s, n / 10);
    }
    let c = digit(n % 10);
    push_char(s, c);
    assert(s@ == old(s)@ + decimal(n as nat));
}

/// Appends `n` spaces.
pub fn push_spaces(s: &mut String, n: usize)
    ensures
        final(s)@ == old(s)@ + spaces(n as nat),
{
    let mut i: usize = 0;
    while i < n
        invariant
            i <= n,
            s@ == old(s)@ + spaces(i as nat),
        decreases n - i,
    {
        push_char(s, ' ');
        i = i + 1;
        assert(s@ =~= old(s)@ + spaces(i as nat));
    }
}

/// `n` copies of `c`.
pub open spec fn repeated(c: char, n: nat) -> Seq<char> {
    Seq::new(n, |_i: int| c)
}

/// Appends `n` copies of `c`.
pub fn push_repeated(s: &mut String, c: char, n: usize)
    ensures
        final(s)@ == old(s)@ + repeated(c, n as nat),
{
    let mut i: usize = 0;
    while i < n
        invariant
            i <= n,
            s@ == old(s)@ + repeated(c, i as nat),
        decreases n - i,
    {
        push_char(s, c);
        i = i + 1;
        assert(s@ =~= old(s)@ + repeated(c, i as nat));
    }
}

/// Appends the decimal rendering of `n`, left-aligned in `width` characters.
pub fn push_decimal_right_padded(s: &mut String, n: u64, width: usize)
    ensures
        final(s)@ == old(s)@ + pad_right(decimal(n as nat), width as nat),
{
    let len = decimal_len(n);
    push_decimal(s, n);
    if len < width {
        push_spaces(s, width - len);
    }
    assert(s@ =~= old(s)@ + pad_right(decimal(n as nat), width as nat));
}

/// Ten to the power `k`.
pub open spec fn pow10(k: nat) -> nat
    decreases k,
{
    if k == 0 { 1 } else { 10 * pow10((k - 1) as nat) }
}

/// A number below `10^k` has at most `k` decimal digits.
pub proof fn lemma_decimal_len(n: nat, k: nat)
    requires
        n < pow10(k),
        k >= 1,
    ensures
        decimal(n).len() <= k,
    decreases n,
{
    if n >= 10 {
        if k == 1 {
            assert(pow10(1) == 10) by { reveal_with_fuel(pow10, 2); }
        }
        assert(n / 10 < pow10((k - 1) as nat));
        lemma_decimal_len(n / 10, (k - 1) as nat);
    }
}

/// Every `u64` has at most twenty decimal digits.
pub proof fn lemma_decimal_len_u64(n: u64)
    ensures
        decimal(n as nat).len() <= 20,
{
    assert(pow10(20) == 100000000000000000000nat) by { reveal_with_fuel(pow10, 21); }
    lemma_decimal_len(n as nat, 20);
}

/// The number of decimal digits of `n`.
pub fn decimal_len(n: u64) -> (len: usize)
    ensures
        len == decimal(n as nat).len(),
    decreases n,
{
    proof { lemma_decimal_len_u64(n); }
    if n >= 10 {
        let l = decimal_len(n / 10);
        l + 1
    } else {
        1
    }
}

/// Appends the decimal rendering of `n`, right-aligned in `width` characters.
pub fn push_decimal_padded(s: &mut String, n: u64, width: usize)
    ensures
        final(s)@ == old(s)@ + pad_left(decimal(n as nat), width as nat),
{
    let len = decimal_len(n);
    if len < width {
        push_spaces(s, width - len);
    }
    push_decimal(s, n);
    assert(s@ =~= old(s)@ + pad_left(decimal(n as nat), width as nat));
}

/// The number of occurrences of `c` in `s`.
pub open spec fn count_char(s: Seq<char>, c: char) -> nat
    decreases s.len(),
{
    if s.len() == 0 {
        0
    } else {
        count_char(s.drop_last(), c) + if s.last() == c { 1nat } else { 0nat }
    }
}

/// A character occurs at most as often as the text is long.
pub proof fn lemma_count_char_len(s: Seq<char>, c: char)
    ensures
        count_char(s, c) <= s.len(),
    decreases s.len(),
{
    if s.len() > 0 {
        lemma_count_char_len(s.drop_last(), c);
    }
}

/// The number of lines of a text, as `str::lines` yields them: line breaks
/// separate lines, and a final line break does not start an empty line.
pub open spec fn line_count(s: Seq<char>) -> nat {
    if s.len() == 0 {
        0
    } else {
        count_char(s, '\n') + if s.last() == '\n' { 0nat } else { 1nat }
    }
}

/// The characters of a string slice, in order.
pub fn str_chars(s: &str) -> (v: Vec<char>)
    ensures
        v@ == s@,
{
    broadcast use vstd::string::axiom_spec_iter;
    let mut v: Vec<char> = Vec::new();
    for c in it: s.chars()
        invariant
            v@ == it.seq().take(it.index()),
            it.seq() == s@,
    {
        v.push(c);
        assert(v@ =~= it.seq().take(it.index() + 1));
    }
    v
}

/// The number of lines of `s`, counted as `s.lines().count()` counts them.
pub fn count_lines(s: &str) -> (n: usize)
    ensures
        n == line_count(s@),
{
    let chars = str_chars(s);
    let mut count: usize = 0;
    let mut i: usize = 0;
    while i < chars.len()
        invariant
            i <= chars@.len(),
            count == count_char(chars@.take(i as int), '\n'),
            count <= i,
        decreases chars.len() - i,
    {
        assert(chars@.take(i + 1).drop_last() =~= chars@.take(i as int));
        if chars[i] == '\n' {
            count = count + 1;
        }
        i = i + 1;
    }
    assert(chars@.take(chars@.len() as int) =~= chars@);
    if chars.len() == 0 {
        0
    } else if chars[chars.len() - 1] == '\n' {
        count
    } else {
        proof {
            lemma_count_char_len(chars@.drop_last(), '\n');
        }
        count + 1
    }
}

/// `index` is a character boundary of the UTF-8 encoding of `s` (its end counts).
pub open spec fn at_char_boundary(s: Seq<char>, index: int) -> bool {
    is_char_boundary(encode_utf8(s), index)
}

/// A character boundary of a text, past a boundary `start`, is a boundary of the
/// text's suffix from `start`.
pub proof fn lemma_boundary_in_suffix(bytes: Seq<u8>, start: int, end: int)
    requires
        valid_utf8(bytes),
        0 <= start <= end <= bytes.len(),
        is_char_boundary(bytes, start),
        is_char_boundary(bytes, end),
    ensures
        valid_utf8(bytes.subrange(start, bytes.len() as int)),
        is_char_boundary(bytes.subrange(start, bytes.len() as int), end - start),
{
    let rest = bytes.subrange(start, bytes.len() as int);
    valid_utf8_split(bytes, start);
    if end == start {
    } else if end == bytes.len() {
        is_char_boundary_start_end_of_seq(rest);
    } else {
        is_char_boundary_iff_not_is_continuation_byte(bytes, end);
        is_char_boundary_iff_not_is_continuation_byte(rest, end - start);
        assert(rest[end - start] == bytes[end]);
    }
}

/// The part of `s` between the byte offsets `start` and `end` (`&s[start..end]`).
pub fn substring(s: &str, start: usize, end: usize) -> (r: &str)
    requires
        start <= end <= encode_utf8(s@).len(),
        at_char_boundary(s@, start as int),
        at_char_boundary(s@, end as int),
    ensures
        encode_utf8(r@) == encode_utf8(s@).subrange(start as int, end as int),
{
    proof {
        encode_utf8_valid_utf8(s@);
        lemma_boundary_in_suffix(encode_utf8(s@), start as int, end as int);
    }
    let (_, rest) = s.split_at(start);
    let (mid, _) = rest.split_at(end - start);
    assert(encode_utf8(mid@) =~= encode_utf8(s@).subrange(start as int, end as int));
    mid
}

/// The UTF-8 encoding of a concatenation is the concatenation of the encodings.
pub proof fn lemma_encode_utf8_concat(a: Seq<char>, b: Seq<char>)
    ensures
        encode_utf8(a + b) == encode_utf8(a) + encode_utf8(b),
    decreases a.len(),
{
    if a.len() == 0 {
        assert(a + b =~= b);
        assert(encode_utf8(a) =~= Seq::<u8>::empty());
        assert(encode_utf8(a) + encode_utf8(b) =~= encode_utf8(b));
    } else {
        assert((a + b).drop_first() =~= a.drop_first() + b);
        assert((a + b)[0] == a[0]);
        lemma_encode_utf8_concat(a.drop_first(), b);
        assert(encode_utf8(a + b) =~= encode_utf8(a) + encode_utf8(b));
    }
}

/// The number of bytes of the UTF-8 encoding of the first `i` characters.
pub open spec fn byte_offset(chars: Seq<char>, i: int) -> nat {
    encode_utf8(chars.take(i)).len()
}

/// Taking one more character adds that character's encoded width.
pub proof fn lemma_byte_offset_step(chars: Seq<char>, i: int)
    requires
        0 <= i < chars.len(),
    ensures
        byte_offset(chars, i + 1) == byte_offset(chars, i) + encode_scalar(chars[i] as u32).len(),
        byte_offset(chars, i + 1) <= encode_utf8(chars).len(),
{
    assert(chars.take(i + 1) =~= chars.take(i) + seq![chars[i]]);
    lemma_encode_utf8_concat(chars.take(i), seq![chars[i]]);
    assert(seq![chars[i]].drop_first() =~= Seq::<char>::empty());
    assert(encode_utf8(seq![chars[i]]) =~= encode_scalar(chars[i] as u32) + encode_utf8(
        Seq::<char>::empty(),
    ));
    assert(chars =~= chars.take(i + 1) + chars.skip(i + 1));
    lemma_encode_utf8_concat(chars.take(i + 1), chars.skip(i + 1));
}

/// The number of bytes of the UTF-8 encoding of a character (`char::len_utf8`).
pub fn char_len_utf8(c: char) -> (n: usize)
    ensures
        n == encode_scalar(c as u32).len(),
{
    proof { char_is_scalar(c); }
    let v = c as u32;
    if v <= 0x7F {
        1
    } else if v <= 0x7FF {
        2
    } else if v <= 0xFFFF {
        3
    } else {
        4
    }
}

/// Whether a character has the Unicode `White_Space` property (`char::is_whitespace`).
pub open spec fn is_whitespace(c: char) -> bool {
    let v = c as u32;
    ||| 0x09 <= v <= 0x0D
    ||| v == 0x20
    ||| v == 0x85
    ||| v == 0xA0
    ||| v == 0x1680
    ||| 0x2000 <= v <= 0x200A
    ||| v == 0x2028
    ||| v == 0x2029
    ||| v == 0x202F
    ||| v == 0x205F
    ||| v == 0x3000
}

/// Whether a character has the Unicode `White_Space` property (`char::is_whitespace`).
pub fn char_is_whitespace(c: char) -> (b: bool)
    ensures
        b == is_whitespace(c),
{
    let v = c as u32;
    (0x09 <= v && v <= 0x0D) || v == 0x20 || v == 0x85 || v == 0xA0 || v == 0x1680 || (0x2000 <= v
        && v <= 0x200A) || v == 0x2028 || v == 0x2029 || v == 0x202F || v == 0x205F || v == 0x3000
}

/// Whether `char::is_alphanumeric` holds of a character (Unicode `Alphabetic` or `Numeric`).
pub uninterp spec fn is_alphanumeric(c: char) -> bool;

/// An ASCII letter or digit.
pub open spec fn is_ascii_alphanumeric(c: char) -> bool {
    ('a' <= c && c <= 'z') || ('A' <= c && c <= 'Z') || ('0' <= c && c <= '9')
}

/// Calls `char::is_alphanumeric`; as Unicode classifies U+2404 (a symbol), it is
/// not alphanumeric, and among ASCII characters exactly the letters and digits are.
#[verifier::external_body]
pub(crate) fn char_is_alphanumeric(c: char) -> (b: bool)
    ensures
        b == is_alphanumeric(c),
        c == '\u{2404}' ==> !b,
        (c as u32) < 128 ==> b == is_ascii_alphanumeric(c),
{
    c.is_alphanumeric()
}

/// Whether two string slices hold the same text.
pub fn str_equal(a: &str, b: &str) -> (r: bool)
    ensures
        r == (a@ == b@),
{
    let x = a.as_bytes();
    let y = b.as_bytes();
    if x.len() != y.len() {
        proof {
            if a@ == b@ {
                assert(encode_utf8(a@) == encode_utf8(b@));
            }
        }
        return false;
    }
    let mut i: usize = 0;
    while i < x.len()
        invariant
            x@ == encode_utf8(a@),
            y@ == encode_utf8(b@),
            x@.len() == y@.len(),
            i <= x@.len(),
            forall|j: int| 0 <= j < i ==> x@[j] == y@[j],
        decreases x.len() - i,
    {
        if x[i] != y[i] {
            proof {
                if a@ == b@ {
                    assert(encode_utf8(a@) == encode_utf8(b@));
                }
            }
            return false;
        }
        i = i + 1;
    }
    proof {
        assert(x@ =~= y@);
        encode_utf8_decode_utf8(a@);
        encode_utf8_decode_utf8(b@);
    }
    true
}

/// `parts` with `sep` between each two of them.
pub open spec fn join_with(parts: Seq<Seq<char>>, sep: Seq<char>) -> Seq<char>
    decreases parts.len(),
{
    if parts.len() == 0 {
        Seq::empty()
    } else if parts.len() == 1 {
        parts[0]
    } else {
        join_with(parts.drop_last(), sep) + sep + parts.last()
    }
}

/// The decimal rendering of `n`, with a minus sign before it when `n` is negative.
pub open spec fn signed_decimal(n: int) -> Seq<char> {
    if n < 0 {
        "-"@ + decimal((-n) as nat)
    } else {
        decimal(n as nat)
    }
}

/// Appends the decimal rendering of `n` (see `signed_decimal`).
pub fn push_signed_decimal(s: &mut String, n: i64)
    ensures
        final(s)@ == old(s)@ + signed_decimal(n as int),
{
    if n < 0 {
        push_str(s, "-");
        let m: u64 = (-(n as i128)) as u64;
        push_decimal(s, m);
    } else {
        push_decimal(s, n as u64);
    }
    assert(s@ =~= old(s)@ + signed_decimal(n as int));
}

/// A string holding the text of `t`.
pub fn owned(t: &str) -> (s: String)
    ensures
        s@ == t@,
{
    let mut s = String::new();
    push_str(&mut s, t);
    assert(s@ =~= t@);
    s
}

/// The text that `Debug` shows for a string (in double quotes, with escapes).
pub uninterp spec fn str_debug_text(s: Seq<char>) -> Seq<char>;

/// Formats `s` with `Debug`, as `format!("{:?}", s)` does.
#[verifier::external_body]
pub(crate) fn str_debug(s: &str) -> (r: String)
    ensures
        r@ == str_debug_text(s@),
{
    format!("{:?}", s)
}

} // verus!
