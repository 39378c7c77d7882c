//! SHA-256 digests of framed bytes, and the stable identities drawn from them.

use sha2::Digest;
use vstd::prelude::*;

use crate::text::{begins_with, hex, hex_digit, hex_text, is_digit};

verus! {

/// The 32 bytes of the SHA-256 digest of some bytes, as the `sha2` crate computes it.
pub uninterp spec fn sha256_array(bytes: Seq<u8>) -> [u8; 32];

/// `sha2::Sha256::digest`: the digest of `bytes`, which always has 32 bytes.
#[verifier::external_body]
pub(crate) fn sha256(bytes: &Vec<u8>) -> (digest: Vec<u8>)
    ensures
        digest@ == sha256_array(bytes@)@,
{
    sha2::Sha256::digest(bytes.as_slice()).to_vec()
}

/// The SHA-256 digest of some bytes.
pub open spec fn sha256_of(bytes: Seq<u8>) -> Seq<u8> {
    sha256_array(bytes)@
}

/// The eight bytes of a number, most significant first.
pub open spec fn big_endian(number: u64) -> Seq<u8> {
    seq![
        (number >> 56) as u8,
        (number >> 48) as u8,
        (number >> 40) as u8,
        (number >> 32) as u8,
        (number >> 24) as u8,
        (number >> 16) as u8,
        (number >> 8) as u8,
        number as u8,
    ]
}

/// A text framed by its length in bytes, then its UTF-8 bytes.
pub open spec fn framed(text: Seq<char>) -> Seq<u8> {
    big_endian(vstd::utf8::encode_utf8(text).len() as u64) + vstd::utf8::encode_utf8(text)
}

/// Texts framed one after another.
pub open spec fn framed_all(texts: Seq<Seq<char>>) -> Seq<u8>
    decreases texts.len(),
{
    if texts.len() == 0 {
        Seq::empty()
    } else {
        framed_all(texts.drop_last()) + framed(texts.last())
    }
}

/// Appends the UTF-8 bytes of a text.
pub(crate) fn push_text(bytes: &mut Vec<u8>, text: &str)
    ensures
        final(bytes)@ == old(bytes)@ + vstd::utf8::encode_utf8(text@),
{
    let content: &[u8] = text.as_bytes();
    let mut index: usize = 0;
    while index < content.len()
        invariant
            index <= content@.len(),
            content@ == vstd::utf8::encode_utf8(text@),
            bytes@ == old(bytes)@ + content@.take(index as int),
        decreases content@.len() - index,
    {
        bytes.push(content[index]);
        assert(content@.take(index as int + 1) =~= content@.take(index as int).push(content@[index as int]));
        index = index + 1;
    }
    assert(content@.take(content@.len() as int) =~= content@);
}

/// Appends one framed text.
pub(crate) fn push_framed(bytes: &mut Vec<u8>, text: &str)
    ensures
        final(bytes)@ == old(bytes)@ + framed(text@),
{
    let length: u64 = text.as_bytes().len() as u64;
    bytes.push((length >> 56) as u8);
    bytes.push((length >> 48) as u8);
    bytes.push((length >> 40) as u8);
    bytes.push((length >> 32) as u8);
    bytes.push((length >> 24) as u8);
    bytes.push((length >> 16) as u8);
    bytes.push((length >> 8) as u8);
    bytes.push(length as u8);
    push_text(bytes, text);
    assert(bytes@ =~= old(bytes)@ + framed(text@));
}

/// Framing one text after others.
pub proof fn framed_next(texts: Seq<Seq<char>>, text: Seq<char>)
    ensures
        framed_all(texts.push(text)) == framed_all(texts) + framed(text),
{
    assert(texts.push(text).drop_last() =~= texts);
}

/// Frames texts one after another.
pub(crate) fn frame_all(texts: &Vec<String>) -> (bytes: Vec<u8>)
    ensures
        bytes@ == framed_all(texts.deep_view()),
{
    let ghost model = texts.deep_view();
    let mut bytes: Vec<u8> = Vec::new();
    let mut index: usize = 0;
    assert(model.take(0) =~= Seq::empty());
    while index < texts.len()
        invariant
            index <= texts@.len(),
            model == texts.deep_view(),
            bytes@ == framed_all(model.take(index as int)),
        decreases texts@.len() - index,
    {
        assert(model[index as int] == texts@[index as int]@);
        proof {
            crate::value::take_next(model, index as int);
            framed_next(model.take(index as int), model[index as int]);
        }
        push_framed(&mut bytes, texts[index].as_str());
        index = index + 1;
    }
    assert(model.take(index as int) =~= model);
    bytes
}

/// Whether the length of a text in bytes fits its frame.
pub open spec fn fits_frame(text: Seq<char>) -> bool {
    vstd::utf8::encode_utf8(text).len() <= u64::MAX
}

proof fn framed_first(texts: Seq<Seq<char>>)
    requires
        texts.len() > 0,
    ensures
        framed_all(texts) == framed(texts[0]) + framed_all(texts.skip(1)),
    decreases texts.len(),
{
    let rest = texts.skip(1);
    if texts.len() == 1 {
        assert(texts.drop_last() =~= Seq::empty());
        assert(rest =~= Seq::empty());
        assert(framed_all(texts.drop_last()) =~= Seq::empty());
        assert(framed_all(texts) =~= framed(texts[0]) + framed_all(rest));
    } else {
        framed_first(texts.drop_last());
        assert(texts.drop_last().skip(1) =~= rest.drop_last());
        assert(rest.last() == texts.last());
        assert(framed_all(texts) =~= framed(texts[0]) + framed_all(rest));
    }
}

proof fn big_endian_is_injective(a: u64, b: u64)
    requires
        big_endian(a) == big_endian(b),
    ensures
        a == b,
{
    let (x, y) = (big_endian(a), big_endian(b));
    assert(x[0] == y[0] && x[1] == y[1] && x[2] == y[2] && x[3] == y[3] && x[4] == y[4] && x[5] == y[5] && x[6] == y[6]
        && x[7] == y[7]);
    assert(a == b) by (bit_vector)
        requires
            (a >> 56) as u8 == (b >> 56) as u8,
            (a >> 48) as u8 == (b >> 48) as u8,
            (a >> 40) as u8 == (b >> 40) as u8,
            (a >> 32) as u8 == (b >> 32) as u8,
            (a >> 24) as u8 == (b >> 24) as u8,
            (a >> 16) as u8 == (b >> 16) as u8,
            (a >> 8) as u8 == (b >> 8) as u8,
            a as u8 == b as u8,
    ;
}

/// Framed texts do not run together: different lists of texts are framed as different bytes.
pub proof fn framing_is_injective(left: Seq<Seq<char>>, right: Seq<Seq<char>>)
    requires
        forall|i: int| 0 <= i < left.len() ==> fits_frame(#[trigger] left[i]),
        forall|i: int| 0 <= i < right.len() ==> fits_frame(#[trigger] right[i]),
        framed_all(left) == framed_all(right),
    ensures
        left == right,
    decreases left.len() + right.len(),
{
    if left.len() == 0 || right.len() == 0 {
        if left.len() > 0 {
            framed_first(left);
            assert(framed_all(left).len() >= 8);
        }
        if right.len() > 0 {
            framed_first(right);
            assert(framed_all(right).len() >= 8);
        }
        assert(left =~= right);
    } else {
        framed_first(left);
        framed_first(right);
        let (a, b) = (vstd::utf8::encode_utf8(left[0]), vstd::utf8::encode_utf8(right[0]));
        let (x, y) = (framed_all(left), framed_all(right));
        assert(x.take(8) =~= big_endian(a.len() as u64));
        assert(y.take(8) =~= big_endian(b.len() as u64));
        big_endian_is_injective(a.len() as u64, b.len() as u64);
        assert(fits_frame(left[0]) && fits_frame(right[0]));
        assert(a.len() == b.len());
        assert(x.subrange(8, 8 + a.len() as int) =~= a);
        assert(y.subrange(8, 8 + b.len() as int) =~= b);
        vstd::utf8::encode_utf8_decode_utf8(left[0]);
        vstd::utf8::encode_utf8_decode_utf8(right[0]);
        assert(left[0] == right[0]);
        assert(x.skip(8 + a.len() as int) =~= framed_all(left.skip(1)));
        assert(y.skip(8 + b.len() as int) =~= framed_all(right.skip(1)));
        assert forall|i: int| 0 <= i < left.skip(1).len() implies fits_frame(#[trigger] left.skip(1)[i]) by {
            assert(left.skip(1)[i] == left[i + 1]);
        }
        assert forall|i: int| 0 <= i < right.skip(1).len() implies fits_frame(#[trigger] right.skip(1)[i]) by {
            assert(right.skip(1)[i] == right[i + 1]);
        }
        framing_is_injective(left.skip(1), right.skip(1));
        assert(left =~= seq![left[0]] + left.skip(1));
        assert(right =~= seq![right[0]] + right.skip(1));
    }
}

/// The lowercase hexadecimal SHA-256 digest of some bytes.
pub open spec fn sha256_hex(bytes: Seq<u8>) -> Seq<char> {
    hex(sha256_of(bytes))
}

/// A lowercase hexadecimal digit.
pub open spec fn is_lower_hex(character: char) -> bool {
    is_digit(character) || 97 <= character as u32 <= 102
}

/// Whether a text is the hexadecimal form of a digest: 64 lowercase hexadecimal digits.
pub open spec fn is_digest_text(text: Seq<char>) -> bool {
    text.len() == 64 && forall|i: int| 0 <= i < 64 ==> is_lower_hex(#[trigger] text[i])
}

/// Whether a text is a prefix and, behind it, the hexadecimal form of a digest.
pub open spec fn is_prefixed_digest(text: Seq<char>, prefix: Seq<char>) -> bool {
    begins_with(text, prefix) && is_digest_text(text.skip(prefix.len() as int))
}

proof fn hex_digits_are_lowercase(digit: nat)
    requires
        digit < 16,
    ensures
        is_lower_hex(hex_digit(digit)),
{
}

/// Every digest is written with 64 lowercase hexadecimal digits.
pub proof fn digests_have_one_form(bytes: Seq<u8>)
    ensures
        is_digest_text(sha256_hex(bytes)),
{
    let digest = sha256_of(bytes);
    assert forall|i: int| 0 <= i < 64 implies is_lower_hex(#[trigger] hex(digest)[i]) by {
        hex_digits_are_lowercase(digest[i / 2] as nat / 16);
        hex_digits_are_lowercase(digest[i / 2] as nat % 16);
    }
}

/// A digest behind a prefix is written in one form.
pub proof fn prefixed_digests_have_one_form(prefix: Seq<char>, bytes: Seq<u8>)
    ensures
        is_prefixed_digest(prefix + sha256_hex(bytes), prefix),
{
    digests_have_one_form(bytes);
    let text = prefix + sha256_hex(bytes);
    assert(text.take(prefix.len() as int) =~= prefix);
    assert(text.skip(prefix.len() as int) =~= sha256_hex(bytes));
}

/// Renders the SHA-256 digest of some bytes in hexadecimal.
pub(crate) fn sha256_text(bytes: &Vec<u8>) -> (text: String)
    ensures
        text@ == sha256_hex(bytes@),
{
    let digest = sha256(bytes);
    hex_text(&digest)
}

/// The number whose bytes, most significant first, are `bytes`.
pub open spec fn big_endian_number(bytes: Seq<u8>) -> u128
    decreases bytes.len(),
{
    if bytes.len() == 0 {
        0u128
    } else {
        (big_endian_number(bytes.drop_last()) << 8) | (bytes.last() as u128)
    }
}

/// A number with the bits that mark a version 4, RFC 4122 UUID.
pub open spec fn is_version_4(number: u128) -> bool {
    (number >> 76) & 0xf == 4 && (number >> 62) & 0x3 == 2
}

/// The stable UUID of a seed: the first sixteen bytes of its digest, marked as version 4.
pub open spec fn stable_uuid(seed: Seq<u8>) -> u128 {
    (big_endian_number(sha256_of(seed).take(16)) & 0xffff_ffff_ffff_0fff_3fff_ffff_ffff_ffffu128)
        | 0x0000_0000_0000_4000_8000_0000_0000_0000u128
}

/// Derives the stable UUID of a seed.
pub(crate) fn stable_uuid_number(seed: &Vec<u8>) -> (number: u128)
    ensures
        number == stable_uuid(seed@),
        is_version_4(number),
{
    let digest = sha256(seed);
    let mut number: u128 = 0;
    let mut index: usize = 0;
    while index < 16
        invariant
            index <= 16,
            digest@.len() == 32,
            number == big_endian_number(digest@.take(index as int)),
        decreases 16 - index,
    {
        assert(digest@.take(index as int + 1).drop_last() =~= digest@.take(index as int));
        number = (number << 8) | (digest[index] as u128);
        index = index + 1;
    }
    let marked: u128 = (number & 0xffff_ffff_ffff_0fff_3fff_ffff_ffff_ffffu128)
        | 0x0000_0000_0000_4000_8000_0000_0000_0000u128;
    assert((marked >> 76) & 0xf == 4 && (marked >> 62) & 0x3 == 2) by (bit_vector)
        requires
            marked == (number & 0xffff_ffff_ffff_0fff_3fff_ffff_ffff_ffffu128)
                | 0x0000_0000_0000_4000_8000_0000_0000_0000u128,
    ;
    marked
}

} // verus!
