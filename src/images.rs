//! Names of the archive files that exported container images are saved to.
use vstd::prelude::*;

use crate::text::{
    chars_of, concat_text, lemma_split_on_nonempty, range_texts, split_on, split_ranges,
    string_of_range,
};

verus! {

/// The file an image is exported to: the image name up to its first `':'`
/// (the tag is dropped), followed by `.tar`.
pub open spec fn image_file_name(name: Seq<char>) -> Seq<char> {
    split_on(name, ':')[0] + ".tar"@
}

pub fn get_image_file_name(name: &str) -> (r: String)
    ensures
        r@ == image_file_name(name@),
{
    let s = chars_of(name);
    let parts = split_ranges(&s, 0, s.len(), ':');
    assert(s@.subrange(0, s@.len() as int) =~= s@);
    proof {
        lemma_split_on_nonempty(s@, ':');
    }
    assert(range_texts(s@, parts@).len() == parts@.len());
    let (a, b) = parts[0];
    assert(range_texts(s@, parts@)[0] == s@.subrange(a as int, b as int));
    let repo = string_of_range(&s, a, b);
    concat_text(repo.as_str(), ".tar")
}

} // verus!
