//! Base64 encoding of media, through the `base64` crate.

use vstd::prelude::*;
use base64::Engine;

verus! {

/// The 64 characters of the standard base64 alphabet (RFC 4648).
pub open spec fn base64_alphabet() -> Seq<char> {
    "ABCDEFGHIJKLMNOPQRSTUVWXYZabcdefghijklmnopqrstuvwxyz0123456789+/"@
}

/// The base64 character for a 6-bit group.
pub open spec fn base64_digit(n: int) -> char {
    base64_alphabet()[n]
}

/// The standard base64 encoding (RFC 4648 alphabet, with `=` padding) of
/// `bytes`: every three bytes become four characters of six bits each, and
/// a final group of one or two bytes is padded with `=` to four characters.
pub open spec fn base64_standard(b: Seq<u8>) -> Seq<char>
    decreases b.len(),
{
    if b.len() == 0 {
        seq![]
    } else {
        let x0 = b[0] as int;
        let x1 = if b.len() > 1 { b[1] as int } else { 0 };
        let x2 = if b.len() > 2 { b[2] as int } else { 0 };
        let c0 = base64_digit(x0 / 4);
        let c1 = base64_digit((x0 % 4) * 16 + x1 / 16);
        let c2 = base64_digit((x1 % 16) * 4 + x2 / 64);
        let c3 = base64_digit(x2 % 64);
        if b.len() == 1 {
            seq![c0, c1, '=', '=']
        } else if b.len() == 2 {
            seq![c0, c1, c2, '=']
        } else {
            seq![c0, c1, c2, c3] + base64_standard(b.subrange(3, b.len() as int))
        }
    }
}

/// Whether the encoding of `len` bytes has a length that fits in memory
/// (`4 * ceil(len / 3)` at most `usize::MAX`); the encoder panics otherwise.
pub open spec fn base64_encodable(len: nat) -> bool {
    4 * ((len + 2) / 3) <= usize::MAX
}

/// `out` is the encoding of `input` when there is one, and absent otherwise.
pub open spec fn encodes_opt(out: Option<String>, input: Option<Vec<u8>>) -> bool {
    match input {
        Some(bytes) => out matches Some(s) && s@ == base64_standard(bytes@),
        None => out is None,
    }
}

/// `out` lists the encodings of `input`, in order.
pub open spec fn encodes_all(out: Seq<String>, input: Seq<Vec<u8>>) -> bool {
    &&& out.len() == input.len()
    &&& forall|i: int| 0 <= i < input.len() ==> #[trigger] out[i]@ == base64_standard(input[i]@)
}

/// Every buffer of `input` can be encoded.
pub open spec fn all_encodable(input: Seq<Vec<u8>>) -> bool {
    forall|i: int| 0 <= i < input.len() ==> base64_encodable(#[trigger] input[i]@.len())
}

/// An optional encoding is present exactly when there are bytes, and is
/// then their encoding; a list of encodings has one per buffer, in order.
pub proof fn lemma_encodings_follow_input(
    out: Option<String>,
    input: Option<Vec<u8>>,
    outs: Seq<String>,
    inputs: Seq<Vec<u8>>,
)
    ensures
        encodes_opt(out, input) ==> (out is Some <==> input is Some),
        encodes_opt(out, input) && input is Some ==> out->0@ == base64_standard(input->0@),
        encodes_all(outs, inputs) ==> outs.len() == inputs.len() && forall|i: int|
            0 <= i < inputs.len() ==> #[trigger] outs[i]@ == base64_standard(inputs[i]@),
{
}

/// The encoding of one to three bytes is four characters of the standard
/// alphabet (`=` for padding), and each further three bytes add four more.
pub proof fn lemma_base64_length(b: Seq<u8>)
    ensures
        base64_standard(b).len() == 4 * ((b.len() + 2) / 3),
    decreases b.len(),
{
    if b.len() >= 3 {
        let rest = b.subrange(3, b.len() as int);
        lemma_base64_length(rest);
        assert((rest.len() + 2) / 3 + 1 == (b.len() + 2) / 3);
    }
}

/// Whether `len` bytes can be encoded.
pub fn base64_fits(len: usize) -> (r: bool)
    ensures
        r == base64_encodable(len as nat),
{
    let chunks: u128 = (len as u128 + 2) / 3;
    4 * chunks <= usize::MAX as u128
}

/// Calls `base64::engine::general_purpose::STANDARD.encode` (`Engine::encode`
/// of the `base64` crate, with the standard alphabet and padding): the
/// result is the standard base64 encoding of the bytes, `base64_standard`. The crate panics when the encoded length
/// overflows `usize`, which `requires` rules out.
#[verifier::external_body]
pub(crate) fn encode_base64(bytes: &[u8]) -> (s: String)
    requires
        base64_encodable(bytes@.len()),
    ensures
        s@ == base64_standard(bytes@),
{
    base64::engine::general_purpose::STANDARD.encode(bytes)
}

/// The encoding of `bytes`.
pub fn encode_media(bytes: &Vec<u8>) -> (s: String)
    requires
        base64_encodable(bytes@.len()),
    ensures
        s@ == base64_standard(bytes@),
{
    encode_base64(bytes.as_slice())
}

/// The encoding of an optional buffer.
pub fn encode_optional(bytes: &Option<Vec<u8>>) -> (r: Option<String>)
    requires
        bytes matches Some(b) ==> base64_encodable(b@.len()),
    ensures
        encodes_opt(r, *bytes),
{
    match bytes {
        Some(b) => Some(encode_media(b)),
        None => None,
    }
}

/// The encodings of a list of buffers, in order.
pub fn encode_all(images: &Vec<Vec<u8>>) -> (r: Vec<String>)
    requires
        all_encodable(images@),
    ensures
        encodes_all(r@, images@),
{
    let mut out: Vec<String> = Vec::new();
    let mut i: usize = 0;
    while i < images.len()
        invariant
            i <= images@.len(),
            all_encodable(images@),
            out@.len() == i,
            forall|j: int| 0 <= j < i ==> #[trigger] out@[j]@ == base64_standard(images@[j]@),
        decreases images@.len() - i,
    {
        assert(base64_encodable(images@[i as int]@.len()));
        out.push(encode_media(&images[i]));
        i = i + 1;
    }
    out
}

} // verus!
