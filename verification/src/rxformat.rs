use vstd::prelude::*;

verus! {

/// The characters that a sequence of ASCII codes denotes.
pub open spec fn ascii_chars(s: Seq<u8>) -> Seq<char> {
    s.map_values(|b: u8| b as char)
}

/// The ASCII code of the upper-case hexadecimal digit for a value below 16.
pub open spec fn hex_digit_code(n: u8) -> u8
    recommends
        n < 16,
{
    if n < 10 {
        (48 + n) as u8
    } else {
        (55 + n) as u8
    }
}

/// The two upper-case hexadecimal digits of one byte.
pub open spec fn byte_hex(b: u8) -> Seq<char> {
    seq![hex_digit_code(b / 16) as char, hex_digit_code(b % 16) as char]
}

/// The bytes' hexadecimal digit pairs, joined by single spaces.
pub open spec fn hex_join(data: Seq<u8>) -> Seq<char>
    decreases data.len(),
{
    if data.len() == 0 {
        Seq::empty()
    } else if data.len() == 1 {
        byte_hex(data[0])
    } else {
        byte_hex(data[0]) + seq![' '] + hex_join(data.drop_first())
    }
}

/// One displayed line for a received chunk in byte mode: the joined digit
/// pairs followed by one trailing space, separating it from the next chunk.
pub open spec fn hex_line(data: Seq<u8>) -> Seq<char> {
    hex_join(data) + seq![' ']
}

/// What Rust's lossy UTF-8 decoding yields for a byte sequence; it depends
/// on the bytes alone.
pub uninterp spec fn utf8_lossy(bytes: Seq<u8>) -> Seq<char>;

/// Relies on String::from_utf8_lossy: the decoded text is a function of the
/// bytes alone.
#[verifier::external_body]
pub(crate) fn bytes_to_text(data: &Vec<u8>) -> (r: String)
    ensures
        r@ == utf8_lossy(data@),
{
    String::from_utf8_lossy(data).to_string()
}

/// Relies on String::from_utf8: bytes below 128 are single-byte UTF-8 code
/// points, so the decoded string holds exactly those bytes as characters.
#[verifier::external_body]
fn ascii_to_string(bytes: Vec<u8>) -> (r: String)
    requires
        forall|i: int| 0 <= i < bytes@.len() ==> bytes@[i] < 128,
    ensures
        r@ == ascii_chars(bytes@),
{
    match String::from_utf8(bytes) {
        Ok(s) => s,
        Err(_) => String::new(),
    }
}

proof fn lemma_hex_join_push(s: Seq<u8>, b: u8)
    ensures
        s.len() == 0 ==> hex_join(s.push(b)) == byte_hex(b),
        s.len() > 0 ==> hex_join(s.push(b)) == hex_join(s) + seq![' '] + byte_hex(b),
    decreases s.len(),
{
    if s.len() == 0 {
        assert(s.push(b).len() == 1);
        assert(s.push(b)[0] == b);
    } else {
        assert(s.push(b).drop_first() =~= s.drop_first().push(b));
        lemma_hex_join_push(s.drop_first(), b);
        if s.len() == 1 {
            assert(hex_join(s.push(b)) == byte_hex(s[0]) + seq![' '] + byte_hex(b));
            assert(hex_join(s) == byte_hex(s[0]));
        } else {
            assert(hex_join(s.push(b)) == byte_hex(s[0]) + seq![' '] + (hex_join(s.drop_first())
                + seq![' '] + byte_hex(b)));
            assert(byte_hex(s[0]) + seq![' '] + (hex_join(s.drop_first()) + seq![' ']
                + byte_hex(b)) =~= (byte_hex(s[0]) + seq![' '] + hex_join(s.drop_first()))
                + seq![' '] + byte_hex(b));
        }
    }
}

fn hex_code(n: u8) -> (c: u8)
    requires
        n < 16,
    ensures
        c == hex_digit_code(n),
        c < 128,
{
    if n < 10 {
        48 + n
    } else {
        55 + n
    }
}

fn hex_codes(data: &Vec<u8>) -> (r: Vec<u8>)
    ensures
        forall|i: int| 0 <= i < r@.len() ==> r@[i] < 128,
        ascii_chars(r@) == hex_line(data@),
{
    let mut r: Vec<u8> = Vec::new();
    proof {
        assert(ascii_chars(r@) =~= hex_join(data@.take(0)));
    }
    let mut i: usize = 0;
    while i < data.len()
        invariant
            i <= data@.len(),
            forall|k: int| 0 <= k < r@.len() ==> r@[k] < 128,
            ascii_chars(r@) == hex_join(data@.take(i as int)),
        decreases data@.len() - i,
    {
        let ghost prev = r@;
        if i > 0 {
            r.push(32);
        }
        let b = data[i];
        r.push(hex_code(b / 16));
        r.push(hex_code(b % 16));
        proof {
            lemma_hex_join_push(data@.take(i as int), data@[i as int]);
            assert(data@.take(i as int).len() == i as int);
            assert(data@.take(i + 1) =~= data@.take(i as int).push(data@[i as int]));
            assert((32 as u8) as char == ' ');
            assert(ascii_chars(prev).len() == prev.len());
            if i == 0 {
                assert(prev.len() == 0);
                assert(r@ =~= prev.push(hex_digit_code(b / 16)).push(hex_digit_code(b % 16)));
                assert(r@.len() == 2);
                assert(ascii_chars(r@).len() == 2);
                assert(ascii_chars(r@)[0] == (r@[0] as char));
                assert(ascii_chars(r@)[1] == (r@[1] as char));
                assert(ascii_chars(r@) =~= byte_hex(data@[0]));
            } else {
                assert(r@ =~= prev.push(32).push(hex_digit_code(b / 16)).push(
                    hex_digit_code(b % 16),
                ));
                assert forall|k: int| 0 <= k < prev.len() implies ascii_chars(r@)[k]
                    == ascii_chars(prev)[k] by {
                    assert(r@[k] == prev[k]);
                }
                assert(ascii_chars(r@)[prev.len() as int] == ' ');
                assert(ascii_chars(r@)[prev.len() as int + 1] == (hex_digit_code(b / 16) as char));
                assert(ascii_chars(r@)[prev.len() as int + 2] == (hex_digit_code(b % 16) as char));
                assert(ascii_chars(r@) =~= ascii_chars(prev) + seq![' '] + byte_hex(
                    data@[i as int],
                ));
            }
        }
        i += 1;
    }
    r.push(32);
    proof {
        assert(data@.take(i as int) =~= data@);
        assert((32 as u8) as char == ' ');
        assert(ascii_chars(r@) =~= hex_join(data@) + seq![' ']);
    }
    r
}

/// The text shown for one received chunk: in byte mode the upper-case
/// hexadecimal digit pairs joined by spaces with one trailing space,
/// otherwise the chunk decoded as UTF-8 text, lossily.
pub fn format_received(data: &Vec<u8>, byte_mode: bool) -> (r: String)
    ensures
        byte_mode ==> r@ == hex_line(data@),
        !byte_mode ==> r@ == utf8_lossy(data@),
{
    if byte_mode {
        let codes = hex_codes(data);
        ascii_to_string(codes)
    } else {
        bytes_to_text(data)
    }
}

} // verus!
