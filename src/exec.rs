//! Shaping what a one-shot remote command printed.
use vstd::prelude::*;

use vstd::utf8::{decode_utf8, valid_utf8};

use crate::text::{chars_of, range_texts, split_on, split_ranges, string_of_range, texts_of};

verus! {

/// The text that lossy UTF-8 decoding makes of some bytes.
pub uninterp spec fn lossy_text_of(bytes: Seq<u8>) -> Seq<char>;

/// Relies on `String::from_utf8_lossy`: the bytes decoded as UTF-8, each
/// undecodable sequence replaced, so that decoding never fails. Valid UTF-8
/// decodes as such; no bytes give the empty text.
#[verifier::external_body]
pub(crate) fn decode_lossy(bytes: &[u8]) -> (r: String)
    ensures
        r@ == lossy_text_of(bytes@),
        valid_utf8(bytes@) ==> r@ == decode_utf8(bytes@),
        bytes@.len() == 0 ==> r@.len() == 0,
{
    String::from_utf8_lossy(bytes).into_owned()
}

/// A command's output, whole or cut into lines.
pub enum ExecOutput {
    Text(String),
    Lines(Vec<String>),
}

/// The lines of `output`: the pieces between `'\n'` characters, so that a
/// trailing newline leaves an empty last line.
pub fn split_output_lines(output: &str) -> (r: Vec<String>)
    ensures
        texts_of(r@) == split_on(output@, '\n'),
{
    let s = chars_of(output);
    let ranges = split_ranges(&s, 0, s.len(), '\n');
    assert(s@.subrange(0, s@.len() as int) =~= s@);
    let mut out: Vec<String> = Vec::new();
    let mut k: usize = 0;
    while k < ranges.len()
        invariant
            0 <= k <= ranges@.len(),
            crate::text::ranges_within(ranges@, 0, s@.len() as int),
            texts_of(out@) == range_texts(s@, ranges@).subrange(0, k as int),
        decreases ranges@.len() - k,
    {
        let (a, b) = ranges[k];
        let line = string_of_range(&s, a, b);
        let ghost prev = texts_of(out@);
        out.push(line);
        assert(texts_of(out@) =~= prev.push(line@));
        assert(range_texts(s@, ranges@)[k as int] == s@.subrange(a as int, b as int));
        k = k + 1;
        assert(texts_of(out@) =~= range_texts(s@, ranges@).subrange(0, k as int));
    }
    assert(range_texts(s@, ranges@).subrange(0, k as int) =~= range_texts(s@, ranges@));
    out
}

/// `r` is `text` whole when `split` is off, and its lines when it is on.
pub open spec fn shaped(r: ExecOutput, text: Seq<char>, split: bool) -> bool {
    match r {
        ExecOutput::Text(t) => !split && t@ == text,
        ExecOutput::Lines(v) => split && texts_of(v@) == split_on(text, '\n'),
    }
}

/// The output as the caller asked for it: whole, or cut into lines.
pub fn shape_output(output: String, split: bool) -> (r: ExecOutput)
    ensures
        shaped(r, output@, split),
{
    if split {
        ExecOutput::Lines(split_output_lines(output.as_str()))
    } else {
        ExecOutput::Text(output)
    }
}

/// Decodes the bytes a command printed, never failing on bad UTF-8, and
/// shapes the text as asked.
pub fn decode_output(bytes: &[u8], split: bool) -> (r: ExecOutput)
    ensures
        shaped(r, lossy_text_of(bytes@), split),
        valid_utf8(bytes@) ==> lossy_text_of(bytes@) == decode_utf8(bytes@),
{
    let text = decode_lossy(bytes);
    shape_output(text, split)
}

} // verus!
