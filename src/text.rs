//! Character-level helpers shared by the parsers: splitting text at a
//! separator, and moving between `str`/`String` and character vectors.
use vstd::prelude::*;

verus! {

/// The pieces of `s` between occurrences of `sep`, in order. Like
/// `str::split`, text without a separator is one piece, and two adjacent
/// separators give an empty piece between them.
pub open spec fn split_on(s: Seq<char>, sep: char) -> Seq<Seq<char>>
    decreases s.len(),
{
    if s.len() == 0 {
        seq![Seq::<char>::empty()]
    } else {
        let prev = split_on(s.drop_last(), sep);
        if s.last() == sep {
            prev.push(Seq::<char>::empty())
        } else {
            prev.update(prev.len() - 1, prev.last().push(s.last()))
        }
    }
}

/// `split_on` never yields an empty list of pieces.
pub proof fn lemma_split_on_nonempty(s: Seq<char>, sep: char)
    ensures
        split_on(s, sep).len() >= 1,
    decreases s.len(),
{
    if s.len() > 0 {
        lemma_split_on_nonempty(s.drop_last(), sep);
    }
}

/// The pieces that hold at least one character, in order.
pub open spec fn non_empty(pieces: Seq<Seq<char>>) -> Seq<Seq<char>>
    decreases pieces.len(),
{
    if pieces.len() == 0 {
        Seq::<Seq<char>>::empty()
    } else {
        let prev = non_empty(pieces.drop_last());
        if pieces.last().len() > 0 {
            prev.push(pieces.last())
        } else {
            prev
        }
    }
}

/// The text that the half-open ranges select from `s`.
pub open spec fn range_texts(s: Seq<char>, ranges: Seq<(usize, usize)>) -> Seq<Seq<char>> {
    ranges.map_values(|p: (usize, usize)| s.subrange(p.0 as int, p.1 as int))
}

/// The texts of some strings.
pub open spec fn texts_of(v: Seq<String>) -> Seq<Seq<char>> {
    v.map_values(|s: String| s@)
}

/// Every range lies within `lo..hi` and is not reversed.
pub open spec fn ranges_within(ranges: Seq<(usize, usize)>, lo: int, hi: int) -> bool {
    forall|k: int|
        0 <= k < ranges.len() ==> lo <= (#[trigger] ranges[k]).0 <= ranges[k].1 <= hi
}

/// Relies on `str::chars`: the characters of the string, in order.
#[verifier::external_body]
pub(crate) fn chars_of(s: &str) -> (r: Vec<char>)
    ensures
        r@ == s@,
{
    s.chars().collect()
}

/// Relies on `String`'s `FromIterator<&char>`: the string of these characters.
#[verifier::external_body]
fn string_of(cs: &Vec<char>) -> (r: String)
    ensures
        r@ == cs@,
{
    cs.iter().collect()
}

/// The characters of `s` at `lo..hi`, as a `String`.
pub fn string_of_range(s: &Vec<char>, lo: usize, hi: usize) -> (r: String)
    requires
        lo <= hi <= s@.len(),
    ensures
        r@ == s@.subrange(lo as int, hi as int),
{
    let mut buf: Vec<char> = Vec::new();
    let mut i: usize = lo;
    while i < hi
        invariant
            lo <= i <= hi <= s@.len(),
            buf@ == s@.subrange(lo as int, i as int),
        decreases hi - i,
    {
        buf.push(s[i]);
        i = i + 1;
        assert(buf@ =~= s@.subrange(lo as int, i as int));
    }
    string_of(&buf)
}

/// All of `cs` as a `String`.
pub fn string_from_chars(cs: &Vec<char>) -> (r: String)
    ensures
        r@ == cs@,
{
    string_of(cs)
}

/// `a` followed by `b`.
pub fn concat_text(a: &str, b: &str) -> (r: String)
    ensures
        r@ == a@ + b@,
{
    let mut cs = chars_of(a);
    let tail = chars_of(b);
    let ghost head = cs@;
    let mut i: usize = 0;
    while i < tail.len()
        invariant
            0 <= i <= tail@.len(),
            cs@ == head + tail@.subrange(0, i as int),
        decreases tail@.len() - i,
    {
        cs.push(tail[i]);
        i = i + 1;
        assert(cs@ =~= head + tail@.subrange(0, i as int));
    }
    assert(tail@.subrange(0, i as int) =~= tail@);
    string_of(&cs)
}

/// Whether the two texts hold the same characters.
pub fn same_text(a: &str, b: &str) -> (r: bool)
    ensures
        r == (a@ == b@),
{
    let x = chars_of(a);
    let y = chars_of(b);
    if x.len() != y.len() {
        return false;
    }
    let mut i: usize = 0;
    while i < x.len()
        invariant
            0 <= i <= x@.len(),
            x@.len() == y@.len(),
            x@ == a@,
            y@ == b@,
            x@.subrange(0, i as int) == y@.subrange(0, i as int),
        decreases x@.len() - i,
    {
        if x[i] != y[i] {
            assert(x@[i as int] != y@[i as int]);
            return false;
        }
        i = i + 1;
        assert(x@.subrange(0, i as int) =~= x@.subrange(0, i as int - 1).push(x@[i as int - 1]));
        assert(y@.subrange(0, i as int) =~= y@.subrange(0, i as int - 1).push(y@[i as int - 1]));
    }
    assert(x@ =~= x@.subrange(0, i as int));
    assert(y@ =~= y@.subrange(0, i as int));
    true
}

/// The pieces of `s[lo..hi]` between occurrences of `sep`, as ranges into `s`.
pub fn split_ranges(s: &Vec<char>, lo: usize, hi: usize, sep: char) -> (r: Vec<(usize, usize)>)
    requires
        lo <= hi <= s@.len(),
    ensures
        range_texts(s@, r@) == split_on(s@.subrange(lo as int, hi as int), sep),
        ranges_within(r@, lo as int, hi as int),
{
    let mut done: Vec<(usize, usize)> = Vec::new();
    let mut start: usize = lo;
    let mut i: usize = lo;
    assert(s@.subrange(lo as int, lo as int) =~= Seq::<char>::empty());
    assert(range_texts(s@, done@) =~= Seq::<Seq<char>>::empty());
    while i < hi
        invariant
            lo <= start <= i <= hi <= s@.len(),
            ranges_within(done@, lo as int, start as int),
            split_on(s@.subrange(lo as int, i as int), sep)
                == range_texts(s@, done@).push(s@.subrange(start as int, i as int)),
        decreases hi - i,
    {
        let ghost before = s@.subrange(lo as int, i as int);
        let ghost after = s@.subrange(lo as int, i as int + 1);
        assert(after.drop_last() =~= before);
        assert(after.last() == s@[i as int]);
        if s[i] == sep {
            done.push((start, i));
            start = i + 1;
            assert(range_texts(s@, done@) =~= range_texts(s@, done@.drop_last()).push(
                s@.subrange(done@.last().0 as int, i as int),
            ));
            assert(s@.subrange(start as int, i as int + 1) =~= Seq::<char>::empty());
        } else {
            assert(s@.subrange(start as int, i as int + 1) =~= s@.subrange(
                start as int,
                i as int,
            ).push(s@[i as int]));
        }
        i = i + 1;
        assert(split_on(s@.subrange(lo as int, i as int), sep) =~= range_texts(s@, done@).push(
            s@.subrange(start as int, i as int),
        ));
    }
    done.push((start, hi));
    assert(range_texts(s@, done@) =~= split_on(s@.subrange(lo as int, hi as int), sep));
    done
}

/// The ranges of `ranges` that select at least one character, in order.
pub fn non_empty_ranges(s: &Vec<char>, ranges: &Vec<(usize, usize)>) -> (r: Vec<(usize, usize)>)
    requires
        ranges_within(ranges@, 0, s@.len() as int),
    ensures
        range_texts(s@, r@) == non_empty(range_texts(s@, ranges@)),
        ranges_within(r@, 0, s@.len() as int),
{
    let mut kept: Vec<(usize, usize)> = Vec::new();
    let mut k: usize = 0;
    assert(range_texts(s@, ranges@).subrange(0, 0) =~= Seq::<Seq<char>>::empty());
    assert(range_texts(s@, kept@) =~= Seq::<Seq<char>>::empty());
    while k < ranges.len()
        invariant
            0 <= k <= ranges@.len(),
            ranges_within(ranges@, 0, s@.len() as int),
            ranges_within(kept@, 0, s@.len() as int),
            range_texts(s@, kept@) == non_empty(range_texts(s@, ranges@).subrange(0, k as int)),
        decreases ranges@.len() - k,
    {
        let (a, b) = ranges[k];
        let ghost all = range_texts(s@, ranges@);
        assert(all.subrange(0, k as int + 1).drop_last() =~= all.subrange(0, k as int));
        assert(all.subrange(0, k as int + 1).last() == s@.subrange(a as int, b as int));
        if a < b {
            kept.push((a, b));
            assert(range_texts(s@, kept@) =~= range_texts(s@, kept@.drop_last()).push(
                s@.subrange(a as int, b as int),
            ));
        }
        k = k + 1;
    }
    assert(range_texts(s@, ranges@).subrange(0, k as int) =~= range_texts(s@, ranges@));
    kept
}

} // verus!
