//! Percent-encoding of URL path segments and query values.

use vstd::prelude::*;
use vstd::string::*;

use crate::text::{digit_char, hex_byte, hex_digit, hex_digit_of, push_char};

verus! {

/// Whether a byte is left as is: ASCII letters, digits and `-_.~`.
pub open spec fn is_unreserved(b: u8) -> bool {
    (65 <= b <= 90) || (97 <= b <= 122) || (48 <= b <= 57) || b == 45 || b == 95 || b == 46 || b == 126
}

/// The percent-encoding of bytes: unreserved bytes as characters, every
/// other byte as `%` and two upper-case hexadecimal digits.
pub open spec fn percent_encoded(bytes: Seq<u8>) -> Seq<char>
    decreases bytes.len(),
{
    if bytes.len() == 0 {
        Seq::empty()
    } else {
        let b = bytes.last();
        percent_encoded(bytes.drop_last()) + if is_unreserved(b) {
            seq![b as char]
        } else {
            seq!['%'] + hex_byte(b, true)
        }
    }
}

/// The value of a hexadecimal digit of either case, or -1.
pub open spec fn hex_value(c: char) -> int {
    let u = c as u32;
    if 48 <= u <= 57 {
        u - 48
    } else if 65 <= u <= 70 {
        u - 55
    } else if 97 <= u <= 102 {
        u - 87
    } else {
        -1
    }
}

/// Percent-decoding: `%` and two hexadecimal digits stand for one byte;
/// any other character for its low byte.
pub open spec fn percent_decoded(s: Seq<char>) -> Seq<u8>
    decreases s.len(),
{
    if s.len() == 0 {
        Seq::empty()
    } else if s[0] == '%' && s.len() >= 3 && hex_value(s[1]) >= 0 && hex_value(s[2]) >= 0 {
        seq![(16 * hex_value(s[1]) + hex_value(s[2])) as u8] + percent_decoded(s.skip(3))
    } else {
        seq![s[0] as u8] + percent_decoded(s.skip(1))
    }
}

/// The encoding of one byte.
pub open spec fn encoded_byte(b: u8) -> Seq<char> {
    if is_unreserved(b) {
        seq![b as char]
    } else {
        seq!['%'] + hex_byte(b, true)
    }
}

proof fn lemma_encoded_front(b: u8, rest: Seq<u8>)
    ensures
        percent_encoded(seq![b] + rest) == encoded_byte(b) + percent_encoded(rest),
    decreases rest.len(),
{
    if rest.len() == 0 {
        assert(seq![b] + rest =~= seq![b]);
        assert(seq![b].drop_last() =~= Seq::<u8>::empty());
        assert(percent_encoded(Seq::<u8>::empty()) == Seq::<char>::empty());
        assert(seq![b].last() == b);
        assert(percent_encoded(seq![b]) == percent_encoded(seq![b].drop_last()) + encoded_byte(b));
        assert(encoded_byte(b) + Seq::<char>::empty() =~= encoded_byte(b));
        assert(Seq::<char>::empty() + encoded_byte(b) =~= encoded_byte(b));
    } else {
        lemma_encoded_front(b, rest.drop_last());
        assert((seq![b] + rest).drop_last() =~= seq![b] + rest.drop_last());
        assert((seq![b] + rest).last() == rest.last());
        assert(percent_encoded(seq![b] + rest) == percent_encoded((seq![b] + rest).drop_last()) + encoded_byte(
            rest.last(),
        ));
        assert(percent_encoded(rest) == percent_encoded(rest.drop_last()) + encoded_byte(rest.last()));
        assert(encoded_byte(b) + percent_encoded(rest.drop_last()) + encoded_byte(rest.last()) =~= encoded_byte(b)
            + (percent_encoded(rest.drop_last()) + encoded_byte(rest.last())));
    }
}

proof fn lemma_hex_value(d: nat)
    requires
        d < 16,
    ensures
        hex_value(hex_digit(d, true)) == d,
{
}

proof fn lemma_decode_unit(b: u8, r: Seq<char>)
    ensures
        percent_decoded(encoded_byte(b) + r) == seq![b] + percent_decoded(r),
{
    let s = encoded_byte(b) + r;
    if is_unreserved(b) {
        assert(s[0] == b as char);
        assert(s.skip(1) =~= r);
        assert((b as char) as u8 == b);
    } else {
        lemma_hex_value((b / 16) as nat);
        lemma_hex_value((b % 16) as nat);
        assert(s[0] == '%');
        assert(s[1] == hex_digit((b / 16) as nat, true));
        assert(s[2] == hex_digit((b % 16) as nat, true));
        assert(s.skip(3) =~= r);
        assert(16 * ((b / 16) as int) + (b % 16) as int == b);
    }
}

/// Decoding an encoding gives back the bytes that were encoded.
pub proof fn law_decode_encoded(bytes: Seq<u8>)
    ensures
        percent_decoded(percent_encoded(bytes)) == bytes,
    decreases bytes.len(),
{
    if bytes.len() > 0 {
        let rest = bytes.skip(1);
        assert(bytes =~= seq![bytes[0]] + rest);
        lemma_encoded_front(bytes[0], rest);
        lemma_decode_unit(bytes[0], percent_encoded(rest));
        law_decode_encoded(rest);
    } else {
        assert(percent_encoded(bytes) == Seq::<char>::empty());
    }
}

/// Percent-encodes the UTF-8 bytes of a string.
pub fn encode(input: &str) -> (r: String)
    ensures
        r@ == percent_encoded(input.spec_bytes()),
{
    let bytes = input.as_bytes();
    let mut s = String::new();
    let mut i: usize = 0;
    while i < bytes.len()
        invariant
            i <= bytes@.len(),
            bytes@ == input.spec_bytes(),
            s@ == percent_encoded(bytes@.take(i as int)),
        decreases bytes.len() - i,
    {
        let b = bytes[i];
        let ghost before = s@;
        assert(bytes@.take(i + 1).drop_last() =~= bytes@.take(i as int));
        if (65 <= b && b <= 90) || (97 <= b && b <= 122) || (48 <= b && b <= 57) || b == 45 || b == 95 || b
            == 46 || b == 126 {
            push_char(&mut s, b as char);
            assert(s@ =~= before + seq![b as char]);
        } else {
            push_char(&mut s, '%');
            push_char(&mut s, hex_digit_of(b / 16, true));
            push_char(&mut s, hex_digit_of(b % 16, true));
            assert(s@ =~= before + (seq!['%'] + hex_byte(b, true)));
        }
        i = i + 1;
    }
    assert(bytes@.take(bytes@.len() as int) =~= bytes@);
    s
}

} // verus!
