//! The mathematical model of hexadecimal text.
use vstd::prelude::*;

verus! {

/// The sixteen lower-case digits, indexed by their value.
pub open spec fn lower_digits() -> Seq<char> {
    seq!['0', '1', '2', '3', '4', '5', '6', '7', '8', '9', 'a', 'b', 'c', 'd', 'e', 'f']
}

/// The sixteen upper-case digits, indexed by their value.
pub open spec fn upper_digits() -> Seq<char> {
    seq!['0', '1', '2', '3', '4', '5', '6', '7', '8', '9', 'A', 'B', 'C', 'D', 'E', 'F']
}

/// The digit for the value `v` (below 16) in the given case.
pub open spec fn hex_digit(v: u8, upper: bool) -> char
    recommends
        v < 16,
{
    if upper {
        upper_digits()[v as int]
    } else {
        lower_digits()[v as int]
    }
}

/// The two digits of one byte: the high nibble first, zero-padded.
pub open spec fn byte_hex(b: u8, upper: bool) -> Seq<char> {
    seq![hex_digit(b / 16, upper), hex_digit(b % 16, upper)]
}

/// The text of a byte sequence: the two digits of each byte, in order,
/// with nothing between them.
pub open spec fn hex_text(bytes: Seq<u8>, upper: bool) -> Seq<char>
    decreases bytes.len(),
{
    if bytes.len() == 0 {
        Seq::empty()
    } else {
        hex_text(bytes.drop_last(), upper) + byte_hex(bytes.last(), upper)
    }
}

/// The digit for the value `v` in the given case.
pub fn digit(v: u8, upper: bool) -> (c: char)
    requires
        v < 16,
    ensures
        c == hex_digit(v, upper),
{
    let lower = match v {
        0 => '0',
        1 => '1',
        2 => '2',
        3 => '3',
        4 => '4',
        5 => '5',
        6 => '6',
        7 => '7',
        8 => '8',
        9 => '9',
        10 => 'a',
        11 => 'b',
        12 => 'c',
        13 => 'd',
        14 => 'e',
        _ => 'f',
    };
    if !upper || v < 10 {
        lower
    } else {
        match v {
            10 => 'A',
            11 => 'B',
            12 => 'C',
            13 => 'D',
            14 => 'E',
            _ => 'F',
        }
    }
}

} // verus!

verus! {

/// Relies on `String::push`: appends `c` at the end of `s`.
#[verifier::external_body]
fn push_char(s: &mut String, c: char)
    ensures
        final(s)@ == old(s)@.push(c),
{
    s.push(c)
}

/// Appends the text of `bytes` in the given case to `out`.
pub fn render_into(bytes: &[u8], upper: bool, out: &mut String)
    ensures
        final(out)@ == old(out)@ + hex_text(bytes@, upper),
{
    let ghost start = out@;
    let n = bytes.len();
    let mut i: usize = 0;
    while i < n
        invariant
            n == bytes@.len(),
            i <= n,
            out@ == start + hex_text(bytes@.take(i as int), upper),
        decreases n - i,
    {
        let b = bytes[i];
        push_char(out, digit(b / 16, upper));
        push_char(out, digit(b % 16, upper));
        proof {
            let next = bytes@.take(i + 1);
            assert(next.drop_last() =~= bytes@.take(i as int));
            assert(next.last() == b);
            assert(out@ =~= start + hex_text(next, upper));
        }
        i = i + 1;
    }
    assert(bytes@.take(n as int) =~= bytes@);
}

} // verus!

verus! {

/// Whether `c` is a hexadecimal digit of the given case.
pub open spec fn is_hex_digit(c: char, upper: bool) -> bool {
    ('0' <= c && c <= '9') || if upper {
        'A' <= c && c <= 'F'
    } else {
        'a' <= c && c <= 'f'
    }
}

/// The value of the hexadecimal digit `c`, in either case.
pub open spec fn hex_value(c: char) -> int {
    if '0' <= c && c <= '9' {
        c as int - '0' as int
    } else if 'a' <= c && c <= 'f' {
        c as int - 'a' as int + 10
    } else {
        c as int - 'A' as int + 10
    }
}

/// `c` with a lower-case letter digit capitalized; any other char unchanged.
pub open spec fn capitalized(c: char) -> char {
    if c == 'a' {
        'A'
    } else if c == 'b' {
        'B'
    } else if c == 'c' {
        'C'
    } else if c == 'd' {
        'D'
    } else if c == 'e' {
        'E'
    } else if c == 'f' {
        'F'
    } else {
        c
    }
}

proof fn lemma_digit_facts(v: u8, upper: bool)
    requires
        v < 16,
    ensures
        is_hex_digit(hex_digit(v, upper), upper),
        hex_value(hex_digit(v, upper)) == v,
        hex_digit(v, true) == capitalized(hex_digit(v, false)),
{
    assert(v == 0 || v == 1 || v == 2 || v == 3 || v == 4 || v == 5 || v == 6 || v == 7 || v == 8
        || v == 9 || v == 10 || v == 11 || v == 12 || v == 13 || v == 14 || v == 15);
}

/// Rendering `n` bytes gives exactly `2 * n` chars, each a hexadecimal digit
/// of the chosen case.
pub proof fn lemma_hex_text_shape(bytes: Seq<u8>, upper: bool)
    ensures
        hex_text(bytes, upper).len() == 2 * bytes.len(),
        forall|i: int|
            0 <= i < hex_text(bytes, upper).len() ==> is_hex_digit(
                #[trigger] hex_text(bytes, upper)[i],
                upper,
            ),
    decreases bytes.len(),
{
    if bytes.len() > 0 {
        let b = bytes.last();
        lemma_hex_text_shape(bytes.drop_last(), upper);
        lemma_digit_facts(b / 16, upper);
        lemma_digit_facts(b % 16, upper);
    }
}

/// The upper-case text of any bytes is their lower-case text with each
/// letter digit capitalized.
pub proof fn lemma_upper_is_capitalized_lower(bytes: Seq<u8>)
    ensures
        hex_text(bytes, true) == hex_text(bytes, false).map_values(|c: char| capitalized(c)),
    decreases bytes.len(),
{
    if bytes.len() > 0 {
        let b = bytes.last();
        lemma_upper_is_capitalized_lower(bytes.drop_last());
        lemma_digit_facts(b / 16, false);
        lemma_digit_facts(b % 16, false);
        assert(hex_text(bytes, true) =~= hex_text(bytes, false).map_values(
            |c: char| capitalized(c),
        ));
    }
}

/// No bytes render to no text, in either case.
pub proof fn lemma_empty_text(upper: bool)
    ensures
        hex_text(Seq::empty(), upper) == Seq::<char>::empty(),
{
}

/// A single byte renders to two digits, zero-padded, whose base-16 value
/// is the byte.
pub proof fn lemma_single_byte_text(b: u8, upper: bool)
    ensures
        hex_text(seq![b], upper) == byte_hex(b, upper),
        hex_text(seq![b], upper).len() == 2,
        16 * hex_value(hex_text(seq![b], upper)[0]) + hex_value(hex_text(seq![b], upper)[1]) == b,
{
    let one = seq![b];
    assert(one.drop_last() =~= Seq::<u8>::empty());
    assert(one.last() == b);
    assert(hex_text(one.drop_last(), upper) == Seq::<char>::empty());
    assert(hex_text(one, upper) =~= byte_hex(b, upper));
    lemma_digit_facts(b / 16, upper);
    lemma_digit_facts(b % 16, upper);
}

} // verus!
