//! The byte-level tokenizer: one token per UTF-8 byte, plus special tokens
//! from 256 up.

use vstd::prelude::*;
use vstd::string::StringSliceAdditionalSpecFns;
use vstd::utf8::{decode_utf8, valid_utf8};

verus! {

/// A tokenizer with one token per byte value (0..=255) and special tokens
/// (`BOS`, `EOS`) above them.
pub struct ByteTokenizer;

/// The bytes that a token sequence stands for: the tokens below 256, in order.
pub open spec fn kept_bytes(ids: Seq<u32>) -> Seq<u8>
    decreases ids.len(),
{
    if ids.len() == 0 {
        Seq::empty()
    } else if ids.last() < 256 {
        kept_bytes(ids.drop_last()).push(ids.last() as u8)
    } else {
        kept_bytes(ids.drop_last())
    }
}

/// The text that `String::from_utf8_lossy` makes of a byte string.
pub uninterp spec fn utf8_lossy(bytes: Seq<u8>) -> Seq<char>;

/// `String::from_utf8_lossy`, taken to an owned string: its result depends on
/// the bytes alone (named `utf8_lossy`), and the standard library documents
/// that valid UTF-8 comes back as the text it encodes and that invalid
/// sequences are replaced by U+FFFD. Which characters stand around the
/// replacements is left to the name.
#[verifier::external_body]
fn string_from_utf8_lossy(bytes: &[u8]) -> (r: String)
    ensures
        r@ == utf8_lossy(bytes@),
        valid_utf8(bytes@) ==> r@ == decode_utf8(bytes@),
        !valid_utf8(bytes@) ==> r@.contains('\u{FFFD}'),
{
    String::from_utf8_lossy(bytes).into_owned()
}

impl ByteTokenizer {
    pub const VOCAB_SIZE: usize = 260;

    pub const BOS: u32 = 256;

    pub const EOS: u32 = 257;

    /// One token per UTF-8 byte of `text`.
    pub fn encode(text: &str) -> (r: Vec<u32>)
        ensures
            r@.len() == text.spec_bytes().len(),
            forall|i: int| 0 <= i < r@.len() ==> #[trigger] r@[i] == text.spec_bytes()[i] as u32,
    {
        let b = text.as_bytes();
        let mut out: Vec<u32> = Vec::new();
        let mut i: usize = 0;
        while i < b.len()
            invariant
                i <= b@.len(),
                out@.len() == i,
                forall|j: int| 0 <= j < i ==> #[trigger] out@[j] == b@[j] as u32,
            decreases b@.len() - i,
        {
            out.push(b[i] as u32);
            i = i + 1;
        }
        out
    }

    /// The text that the byte tokens stand for; special tokens (256 and up)
    /// are skipped.
    pub fn decode(ids: &[u32]) -> (r: String)
        ensures
            r@ == utf8_lossy(kept_bytes(ids@)),
            valid_utf8(kept_bytes(ids@)) ==> r@ == decode_utf8(kept_bytes(ids@)),
            !valid_utf8(kept_bytes(ids@)) ==> r@.contains('\u{FFFD}'),
    {
        let mut bytes: Vec<u8> = Vec::new();
        let mut i: usize = 0;
        while i < ids.len()
            invariant
                i <= ids@.len(),
                bytes@ == kept_bytes(ids@.take(i as int)),
            decreases ids@.len() - i,
        {
            assert(ids@.take(i + 1).drop_last() =~= ids@.take(i as int));
            if ids[i] < 256 {
                bytes.push(ids[i] as u8);
            }
            i = i + 1;
        }
        assert(ids@.take(ids@.len() as int) =~= ids@);
        string_from_utf8_lossy(bytes.as_slice())
    }
}

/// Decoding the tokens of a text gives the text back.
pub proof fn law_decode_encode(text: Seq<char>, ids: Seq<u32>)
    requires
        ids.len() == vstd::utf8::encode_utf8(text).len(),
        forall|i: int| 0 <= i < ids.len() ==> #[trigger] ids[i] == vstd::utf8::encode_utf8(text)[i] as u32,
    ensures
        valid_utf8(kept_bytes(ids)),
        decode_utf8(kept_bytes(ids)) == text,
{
    let b = vstd::utf8::encode_utf8(text);
    lemma_kept_all(ids, b);
    vstd::utf8::encode_utf8_valid_utf8(text);
    vstd::utf8::encode_utf8_decode_utf8(text);
}

proof fn lemma_kept_all(ids: Seq<u32>, b: Seq<u8>)
    requires
        ids.len() == b.len(),
        forall|i: int| 0 <= i < ids.len() ==> #[trigger] ids[i] == b[i] as u32,
    ensures
        kept_bytes(ids) == b,
    decreases ids.len(),
{
    if ids.len() > 0 {
        lemma_kept_all(ids.drop_last(), b.drop_last());
        assert(kept_bytes(ids) =~= b);
    }
}

} // verus!
