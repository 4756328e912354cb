//! Conversion between the gateway's GB18030 byte encoding and UTF-8 text.
//!
//! The codec itself is the `encoding` crate's; this module adds the
//! fixed-width framing the gateway uses (null-padded byte fields) and states
//! exactly how every conversion relates to the codec's result.

use vstd::prelude::*;

use crate::error::CtpResult;

verus! {

/// What GB18030 decoding (with the replacing trap) yields on a byte string.
/// The result is a function of the bytes alone.
pub uninterp spec fn gb18030_decoding(bytes: Seq<u8>) -> Seq<char>;

/// What GB18030 encoding (with the replacing trap) yields on a text.
/// The result is a function of the characters alone.
pub uninterp spec fn gb18030_encoding(text: Seq<char>) -> Seq<u8>;

/// The byte string with its trailing null bytes removed.
pub open spec fn spec_trim_nulls(bytes: Seq<u8>) -> Seq<u8>
    decreases bytes.len(),
{
    if bytes.len() == 0 {
        bytes
    } else if bytes.last() == 0u8 {
        spec_trim_nulls(bytes.drop_last())
    } else {
        bytes
    }
}

/// A fixed-width field of `n` bytes: the encoding truncated to `n` bytes if it
/// is longer, and null-padded to `n` bytes if it is shorter.
pub open spec fn spec_fixed_bytes(enc: Seq<u8>, n: nat) -> Seq<u8> {
    if enc.len() >= n {
        enc.take(n as int)
    } else {
        enc + Seq::new((n - enc.len()) as nat, |i: int| 0u8)
    }
}

/// Relies on `encoding::Encoding::decode` with `GB18030` and
/// `DecoderTrap::Replace`: the result depends on the input bytes alone, the
/// replacing trap never reports failure, and an empty input decodes to the
/// empty string.
#[verifier::external_body]
fn decode_gb18030_replace(bytes: &Vec<u8>) -> (r: String)
    ensures
        r@ == gb18030_decoding(bytes@),
        bytes@.len() == 0 ==> r@.len() == 0,
{
    encoding::Encoding::decode(
        encoding::all::GB18030,
        bytes,
        encoding::DecoderTrap::Replace,
    ).unwrap_or_default()
}

/// Relies on `encoding::Encoding::encode` with `GB18030` and
/// `EncoderTrap::Replace`: the result depends on the input characters alone,
/// the replacing trap never reports failure for this ASCII-compatible
/// encoding, and an empty input encodes to no bytes.
#[verifier::external_body]
fn encode_gb18030_replace(text: &str) -> (r: Vec<u8>)
    ensures
        r@ == gb18030_encoding(text@),
        text@.len() == 0 ==> r@.len() == 0,
{
    encoding::Encoding::encode(
        encoding::all::GB18030,
        text,
        encoding::EncoderTrap::Replace,
    ).unwrap_or_default()
}

/// Converter between GB18030 byte fields and UTF-8 strings.
pub struct GbkConverter;

impl GbkConverter {
    /// Decodes a GB18030 byte string to UTF-8 text, ignoring trailing null
    /// padding. Always succeeds: decoding errors are replaced, not reported.
    pub fn gb18030_to_utf8(bytes: &[u8]) -> (r: CtpResult<String>)
        ensures
            r matches Ok(s) && s@ == gb18030_decoding(spec_trim_nulls(bytes@)),
    {
        let trimmed = Self::trim_null_bytes(bytes);
        Ok(decode_gb18030_replace(&trimmed))
    }

    /// Encodes UTF-8 text as GB18030 bytes. Always succeeds: unencodable
    /// characters are replaced, not reported.
    pub fn utf8_to_gb18030(utf8_str: &str) -> (r: CtpResult<Vec<u8>>)
        ensures
            r matches Ok(b) && b@ == gb18030_encoding(utf8_str@),
    {
        Ok(encode_gb18030_replace(utf8_str))
    }

    /// Copies the bytes of `bytes` up to and including the last nonzero byte.
    fn trim_null_bytes(bytes: &[u8]) -> (r: Vec<u8>)
        ensures
            r@ == spec_trim_nulls(bytes@),
    {
        let mut end: usize = bytes.len();
        proof {
            assert(bytes@.take(end as int) =~= bytes@);
        }
        while end > 0 && bytes[end - 1] == 0u8
            invariant
                end <= bytes@.len(),
                spec_trim_nulls(bytes@) == spec_trim_nulls(bytes@.take(end as int)),
            decreases end,
        {
            proof {
                assert(bytes@.take(end as int).last() == 0u8);
                assert(bytes@.take(end as int).drop_last() =~= bytes@.take(end - 1));
            }
            end = end - 1;
        }
        let mut r: Vec<u8> = Vec::new();
        let mut i: usize = 0;
        while i < end
            invariant
                i <= end <= bytes@.len(),
                r@ == bytes@.take(end as int).take(i as int),
            decreases end - i,
        {
            r.push(bytes[i]);
            proof {
                assert(bytes@.take(end as int).take(i + 1) =~= bytes@.take(end as int).take(
                    i as int,
                ).push(bytes@[i as int]));
            }
            i = i + 1;
        }
        proof {
            assert(bytes@.take(end as int).take(end as int) =~= bytes@.take(end as int));
            if end > 0 {
                assert(bytes@.take(end as int).last() != 0u8);
                assert(spec_trim_nulls(bytes@.take(end as int)) == bytes@.take(end as int));
            }
        }
        r
    }

    /// Decodes a fixed-width GB18030 field, ignoring its null padding.
    pub fn fixed_bytes_to_utf8<const N: usize>(bytes: &[u8; N]) -> (r: CtpResult<String>)
        ensures
            r matches Ok(s) && s@ == gb18030_decoding(spec_trim_nulls(bytes@)),
    {
        Self::gb18030_to_utf8(bytes.as_slice())
    }

    /// Encodes UTF-8 text into a fixed-width GB18030 field: the encoding
    /// truncated to `N` bytes if longer, null-padded to `N` bytes if shorter.
    /// Always succeeds.
    pub fn utf8_to_fixed_bytes<const N: usize>(utf8_str: &str) -> (r: CtpResult<[u8; N]>)
        ensures
            r matches Ok(a) && a@ == spec_fixed_bytes(gb18030_encoding(utf8_str@), N as nat),
    {
        let gb_bytes = encode_gb18030_replace(utf8_str);
        let mut result: [u8; N] = [0u8; N];
        let limit: usize = if gb_bytes.len() >= N {
            N
        } else {
            gb_bytes.len()
        };
        let mut i: usize = 0;
        while i < limit
            invariant
                i <= limit,
                limit <= N,
                limit <= gb_bytes@.len(),
                result@.len() == N,
                forall|j: int| 0 <= j < i ==> result@[j] == gb_bytes@[j],
                forall|j: int| i <= j < N ==> result@[j] == 0u8,
            decreases limit - i,
        {
            result[i] = gb_bytes[i];
            i = i + 1;
        }
        proof {
            assert(result@ =~= spec_fixed_bytes(gb_bytes@, N as nat));
        }
        Ok(result)
    }
}

} // verus!
