//! Descriptions of local directory entries for the file browser.
use vstd::prelude::*;

use readable::byte::Byte;

verus! {

/// Relies on readable's `Byte::from(u64)` and its `Display`: the size as
/// short text with a decimal unit, such as `2.101 MB`. Its unit is chosen
/// with floating-point logarithms, so nothing is claimed of the text.
#[verifier::external_body]
fn human_size(size: u64) -> String {
    Byte::from(size).to_string()
}

/// One entry of a local directory.
pub struct FileInfo {
    name: String,
    file_type: String,
    size: u64,
    human_size: String,
}

/// The mathematical content of a [`FileInfo`].
pub ghost struct FileInfoView {
    pub name: Seq<char>,
    pub file_type: Seq<char>,
    pub size: u64,
    pub human_size: Seq<char>,
}

impl View for FileInfo {
    type V = FileInfoView;

    closed spec fn view(&self) -> FileInfoView {
        FileInfoView {
            name: self.name@,
            file_type: self.file_type@,
            size: self.size,
            human_size: self.human_size@,
        }
    }
}

/// The kind word of an entry.
pub open spec fn file_type_word(is_dir: bool) -> Seq<char> {
    if is_dir {
        "directory"@
    } else {
        "file"@
    }
}

impl FileInfo {
    /// Describes an entry from its name, whether it is a directory, its
    /// length in bytes and that length as readable text.
    pub fn describe(name: String, is_dir: bool, size: u64, human_size: String) -> (r: FileInfo)
        ensures
            r@ == (FileInfoView {
                name: name@,
                file_type: file_type_word(is_dir),
                size,
                human_size: human_size@,
            }),
    {
        let kind = if is_dir {
            "directory"
        } else {
            "file"
        };
        FileInfo { name, file_type: kind.to_owned(), size, human_size }
    }

    /// Describes an entry, writing its length as readable text.
    pub fn describe_sized(name: String, is_dir: bool, size: u64) -> (r: FileInfo)
        ensures
            r@.name == name@,
            r@.file_type == file_type_word(is_dir),
            r@.size == size,
    {
        let text = human_size(size);
        FileInfo::describe(name, is_dir, size, text)
    }

    pub fn name(&self) -> (r: &String)
        ensures
            r@ == self@.name,
    {
        &self.name
    }

    pub fn file_type(&self) -> (r: &String)
        ensures
            r@ == self@.file_type,
    {
        &self.file_type
    }

    pub fn size(&self) -> (r: u64)
        ensures
            r == self@.size,
    {
        self.size
    }

    pub fn human_size(&self) -> (r: &String)
        ensures
            r@ == self@.human_size,
    {
        &self.human_size
    }
}

} // verus!
