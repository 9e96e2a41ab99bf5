//! Parsing of the long-format (`ls -l`) listing that a remote shell prints.
//!
//! This is a text scrape: each line is cut at spaces (runs of spaces count
//! as one cut), and a line with fewer than nine fields is skipped.
use vstd::prelude::*;

use vstd::utf8::{decode_utf8, valid_utf8};

use crate::exec::{decode_lossy, lossy_text_of};
use crate::text::{
    chars_of, concat_text, non_empty, non_empty_ranges, range_texts, ranges_within, split_on, split_ranges,
    string_of_range,
};

verus! {

/// Number of fields a listing line must have to describe an entry.
pub const MIN_FIELDS: usize = 9;

/// One entry of a remote directory listing. The size is kept as the text
/// the listing printed.
pub struct File {
    access: String,
    user: String,
    group: String,
    size: String,
    month: String,
    day: String,
    time: String,
    name: String,
    is_dir: bool,
}

/// The mathematical content of a [`File`].
pub ghost struct FileView {
    pub access: Seq<char>,
    pub user: Seq<char>,
    pub group: Seq<char>,
    pub size: Seq<char>,
    pub month: Seq<char>,
    pub day: Seq<char>,
    pub time: Seq<char>,
    pub name: Seq<char>,
    pub is_dir: bool,
}

impl View for File {
    type V = FileView;

    closed spec fn view(&self) -> FileView {
        FileView {
            access: self.access@,
            user: self.user@,
            group: self.group@,
            size: self.size@,
            month: self.month@,
            day: self.day@,
            time: self.time@,
            name: self.name@,
            is_dir: self.is_dir,
        }
    }
}

/// The fields of one listing line: its space-separated words.
pub open spec fn fields_of(line: Seq<char>) -> Seq<Seq<char>> {
    non_empty(split_on(line, ' '))
}

/// Whether a permission string marks a directory.
pub open spec fn is_dir_access(access: Seq<char>) -> bool {
    access.len() > 0 && access[0] == 'd'
}

/// The entry that a line of at least nine fields describes: permissions,
/// link count (unused), owner, group, size, month, day, time, name.
pub open spec fn entry_of(fields: Seq<Seq<char>>) -> FileView
    recommends
        fields.len() >= 9,
{
    FileView {
        access: fields[0],
        user: fields[2],
        group: fields[3],
        size: fields[4],
        month: fields[5],
        day: fields[6],
        time: fields[7],
        name: fields[8],
        is_dir: is_dir_access(fields[0]),
    }
}

/// The entries that the lines describe, in order; short lines are skipped.
pub open spec fn entries_of(lines: Seq<Seq<char>>) -> Seq<FileView>
    decreases lines.len(),
{
    if lines.len() == 0 {
        Seq::<FileView>::empty()
    } else {
        let prev = entries_of(lines.drop_last());
        if fields_of(lines.last()).len() >= 9 {
            prev.push(entry_of(fields_of(lines.last())))
        } else {
            prev
        }
    }
}

/// The entries of a whole listing: its lines are separated by `'\n'`.
pub open spec fn listing_of(output: Seq<char>) -> Seq<FileView> {
    entries_of(split_on(output, '\n'))
}

/// The views of a list of entries.
pub open spec fn views_of(files: Seq<File>) -> Seq<FileView> {
    files.map_values(|f: File| f@)
}

impl File {
    pub fn access(&self) -> (r: &String)
        ensures
            r@ == self@.access,
    {
        &self.access
    }

    pub fn user(&self) -> (r: &String)
        ensures
            r@ == self@.user,
    {
        &self.user
    }

    pub fn group(&self) -> (r: &String)
        ensures
            r@ == self@.group,
    {
        &self.group
    }

    pub fn size(&self) -> (r: &String)
        ensures
            r@ == self@.size,
    {
        &self.size
    }

    pub fn month(&self) -> (r: &String)
        ensures
            r@ == self@.month,
    {
        &self.month
    }

    pub fn day(&self) -> (r: &String)
        ensures
            r@ == self@.day,
    {
        &self.day
    }

    pub fn time(&self) -> (r: &String)
        ensures
            r@ == self@.time,
    {
        &self.time
    }

    pub fn name(&self) -> (r: &String)
        ensures
            r@ == self@.name,
    {
        &self.name
    }

    pub fn is_dir(&self) -> (r: bool)
        ensures
            r == self@.is_dir,
    {
        self.is_dir
    }
}

/// Builds the entry of one line from the ranges of its fields.
fn entry_from_fields(s: &Vec<char>, fields: &Vec<(usize, usize)>) -> (r: File)
    requires
        fields@.len() >= 9,
        ranges_within(fields@, 0, s@.len() as int),
    ensures
        r@ == entry_of(range_texts(s@, fields@)),
{
    let ghost texts = range_texts(s@, fields@);
    let (a0, b0) = fields[0];
    let access = string_of_range(s, a0, b0);
    let is_dir = a0 < b0 && s[a0] == 'd';
    let (a2, b2) = fields[2];
    let (a3, b3) = fields[3];
    let (a4, b4) = fields[4];
    let (a5, b5) = fields[5];
    let (a6, b6) = fields[6];
    let (a7, b7) = fields[7];
    let (a8, b8) = fields[8];
    let f = File {
        access,
        user: string_of_range(s, a2, b2),
        group: string_of_range(s, a3, b3),
        size: string_of_range(s, a4, b4),
        month: string_of_range(s, a5, b5),
        day: string_of_range(s, a6, b6),
        time: string_of_range(s, a7, b7),
        name: string_of_range(s, a8, b8),
        is_dir,
    };
    assert(texts[0] == s@.subrange(a0 as int, b0 as int));
    assert(f@ == entry_of(texts));
    f
}

/// Parses the output of `ls -l` into its entries. Lines with fewer than
/// nine space-separated fields (the `total` header, blank or damaged lines)
/// are skipped.
pub fn parse_listing(output: &str) -> (r: Vec<File>)
    ensures
        views_of(r@) == listing_of(output@),
{
    let s = chars_of(output);
    let lines = split_ranges(&s, 0, s.len(), '\n');
    assert(s@.subrange(0, s@.len() as int) =~= s@);
    let ghost line_texts = range_texts(s@, lines@);
    let mut out: Vec<File> = Vec::new();
    let mut k: usize = 0;
    assert(line_texts.subrange(0, 0) =~= Seq::<Seq<char>>::empty());
    assert(views_of(out@) =~= Seq::<FileView>::empty());
    while k < lines.len()
        invariant
            0 <= k <= lines@.len(),
            line_texts == range_texts(s@, lines@),
            ranges_within(lines@, 0, s@.len() as int),
            views_of(out@) == entries_of(line_texts.subrange(0, k as int)),
        decreases lines@.len() - k,
    {
        let (a, b) = lines[k];
        let pieces = split_ranges(&s, a, b, ' ');
        let fields = non_empty_ranges(&s, &pieces);
        assert(line_texts.subrange(0, k as int + 1).drop_last() =~= line_texts.subrange(
            0,
            k as int,
        ));
        assert(line_texts.subrange(0, k as int + 1).last() == s@.subrange(a as int, b as int));
        assert(range_texts(s@, fields@) == fields_of(s@.subrange(a as int, b as int)));
        if fields.len() >= MIN_FIELDS {
            let f = entry_from_fields(&s, &fields);
            out.push(f);
            assert(views_of(out@) =~= views_of(out@.drop_last()).push(f@));
        }
        k = k + 1;
    }
    assert(line_texts.subrange(0, k as int) =~= line_texts);
    out
}

/// Parses the raw bytes a listing command printed, decoding them as UTF-8
/// without failing on bad sequences.
pub fn parse_listing_output(bytes: &[u8]) -> (r: Vec<File>)
    ensures
        views_of(r@) == listing_of(lossy_text_of(bytes@)),
        valid_utf8(bytes@) ==> views_of(r@) == listing_of(decode_utf8(bytes@)),
{
    let text = decode_lossy(bytes);
    parse_listing(text.as_str())
}

/// The shell command that lists `path` in long format.
pub fn list_command(path: &str) -> (r: String)
    ensures
        r@ == "ls -l "@ + path@,
{
    concat_text("ls -l ", path)
}

} // verus!
