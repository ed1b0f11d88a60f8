//! Sending a folder: walking it, naming its files, and the list of its files
//! that the receiver decides on.
use vstd::prelude::*;
use vstd::utf8::is_ascii_chars;

use crate::protocol::FolderFileEntry;
use crate::text::{replace_char, replaced, str_equal};

verus! {

/// The lower case form of a text.
pub uninterp spec fn lowercase_of(text: Seq<char>) -> Seq<char>;

/// The lower case form of an ASCII character.
pub open spec fn ascii_lower(c: char) -> char {
    if 'A' <= c <= 'Z' {
        (c as u32 + 32) as char
    } else {
        c
    }
}

/// `str::to_lowercase`: the lower case form of the text by the rules of
/// Unicode; of ASCII text, each capital letter made small.
pub assume_specification[ str::to_lowercase ](input: &str) -> (out: String)
    ensures
        out@ == lowercase_of(input@),
        is_ascii_chars(input@) ==> out@ == input@.map_values(|c: char| ascii_lower(c)),
;

/// The type of a file with this (lower case) extension.
pub open spec fn mime_of(ext: Seq<char>) -> Seq<char> {
    if ext == "jpg"@ || ext == "jpeg"@ {
        "image/jpeg"@
    } else if ext == "png"@ {
        "image/png"@
    } else if ext == "gif"@ {
        "image/gif"@
    } else if ext == "webp"@ {
        "image/webp"@
    } else if ext == "mp4"@ {
        "video/mp4"@
    } else if ext == "mov"@ {
        "video/quicktime"@
    } else if ext == "mkv"@ {
        "video/x-matroska"@
    } else if ext == "webm"@ {
        "video/webm"@
    } else if ext == "pdf"@ {
        "application/pdf"@
    } else if ext == "doc"@ {
        "application/msword"@
    } else if ext == "docx"@ {
        "application/vnd.openxmlformats-officedocument.wordprocessingml.document"@
    } else if ext == "xls"@ {
        "application/vnd.ms-excel"@
    } else if ext == "xlsx"@ {
        "application/vnd.openxmlformats-officedocument.spreadsheetml.sheet"@
    } else if ext == "ppt"@ {
        "application/vnd.ms-powerpoint"@
    } else if ext == "pptx"@ {
        "application/vnd.openxmlformats-officedocument.presentationml.presentation"@
    } else if ext == "txt"@ {
        "text/plain"@
    } else if ext == "zip"@ {
        "application/zip"@
    } else if ext == "apk"@ {
        "application/vnd.android.package-archive"@
    } else {
        "application/octet-stream"@
    }
}

/// The type of a file with this (lower case) extension.
pub fn mime_for_lowercase(ext: &str) -> (s: &'static str)
    ensures
        s@ == mime_of(ext@),
{
    if str_equal(ext, "jpg") || str_equal(ext, "jpeg") {
        "image/jpeg"
    } else if str_equal(ext, "png") {
        "image/png"
    } else if str_equal(ext, "gif") {
        "image/gif"
    } else if str_equal(ext, "webp") {
        "image/webp"
    } else if str_equal(ext, "mp4") {
        "video/mp4"
    } else if str_equal(ext, "mov") {
        "video/quicktime"
    } else if str_equal(ext, "mkv") {
        "video/x-matroska"
    } else if str_equal(ext, "webm") {
        "video/webm"
    } else if str_equal(ext, "pdf") {
        "application/pdf"
    } else if str_equal(ext, "doc") {
        "application/msword"
    } else if str_equal(ext, "docx") {
        "application/vnd.openxmlformats-officedocument.wordprocessingml.document"
    } else if str_equal(ext, "xls") {
        "application/vnd.ms-excel"
    } else if str_equal(ext, "xlsx") {
        "application/vnd.openxmlformats-officedocument.spreadsheetml.sheet"
    } else if str_equal(ext, "ppt") {
        "application/vnd.ms-powerpoint"
    } else if str_equal(ext, "pptx") {
        "application/vnd.openxmlformats-officedocument.presentationml.presentation"
    } else if str_equal(ext, "txt") {
        "text/plain"
    } else if str_equal(ext, "zip") {
        "application/zip"
    } else if str_equal(ext, "apk") {
        "application/vnd.android.package-archive"
    } else {
        "application/octet-stream"
    }
}

/// The type of a file with this extension, in either case. A file without an
/// extension has the general type.
pub fn mime_guess_from_extension(extension: Option<&str>) -> (s: String)
    ensures
        s@ == mime_of(
            lowercase_of(
                match extension {
                    Some(e) => e@,
                    None => ""@,
                },
            ),
        ),
        extension matches Some(e) ==> is_ascii_chars(e@) ==> s@ == mime_of(
            e@.map_values(|c: char| ascii_lower(c)),
        ),
        extension is None ==> s@ == mime_of(""@),
{
    let ext: String = match extension {
        Some(e) => e.to_lowercase(),
        None => "".to_lowercase(),
    };
    proof {
        reveal_strlit("");
        assert(""@.map_values(|c: char| ascii_lower(c)) =~= ""@);
    }
    mime_for_lowercase(ext.as_str()).to_string()
}

/// The path of a file inside the folder, with forward slashes on every system;
/// of a file that is not inside it, its whole path as it is.
pub fn relative_path_string(inside: Option<&str>, whole: &str) -> (s: String)
    ensures
        s@ == (match inside {
            Some(p) => replaced(p@, '\\', '/'),
            None => whole@,
        }),
{
    match inside {
        Some(p) => replace_char(p, '\\', '/'),
        None => whole.to_string(),
    }
}

/// The name of the folder in its offer.
pub fn folder_name_or_default(name: Option<String>) -> (s: String)
    ensures
        match name {
            Some(n) => s == n,
            None => s@ == "folder"@,
        },
{
    match name {
        Some(n) => n,
        None => "folder".to_string(),
    }
}

/// The name of a file in its offer.
pub fn file_name_or_default(name: Option<String>) -> (s: String)
    ensures
        match name {
            Some(n) => s == n,
            None => s@ == "file"@,
        },
{
    match name {
        Some(n) => n,
        None => "file".to_string(),
    }
}

/// What a directory entry is.
#[derive(Debug, Clone, Copy, PartialEq, Eq, Structural)]
pub enum EntryKind {
    Directory,
    File,
    Symlink,
}

/// A walk over a folder. The directories still to be read are on a stack of
/// its own, so that the depth of the folder is not bounded by the call stack;
/// links are left out, so that a cycle of links cannot keep it going.
pub struct FolderWalk {
    pub stack: Vec<String>,
    pub files: Vec<String>,
}

impl FolderWalk {
    pub fn new(root: String) -> (r: Self)
        ensures
            r.stack@ == seq![root],
            r.files@ == Seq::<String>::empty(),
    {
        let mut stack: Vec<String> = Vec::new();
        stack.push(root);
        assert(stack@ =~= seq![root]);
        FolderWalk { stack, files: Vec::new() }
    }

    /// The directory to read next: the one found last.
    pub fn next_directory(&mut self) -> (r: Option<String>)
        ensures
            final(self).files == old(self).files,
            match r {
                Some(d) => {
                    &&& old(self).stack@.len() > 0
                    &&& d == old(self).stack@.last()
                    &&& final(self).stack@ == old(self).stack@.drop_last()
                },
                None => old(self).stack@.len() == 0 && final(self).stack@ == old(self).stack@,
            },
    {
        self.stack.pop()
    }

    /// Takes note of an entry of the directory that is being read.
    pub fn visit(&mut self, path: String, kind: EntryKind)
        ensures
            final(self).stack@ == (if kind is Directory {
                old(self).stack@.push(path)
            } else {
                old(self).stack@
            }),
            final(self).files@ == (if kind is File {
                old(self).files@.push(path)
            } else {
                old(self).files@
            }),
    {
        match kind {
            EntryKind::Directory => {
                self.stack.push(path);
            },
            EntryKind::File => {
                self.files.push(path);
            },
            EntryKind::Symlink => {},
        }
    }
}

/// The bytes of all the files of a folder.
pub open spec fn sizes_sum(entries: Seq<FolderFileEntry>) -> int
    decreases entries.len(),
{
    if entries.len() == 0 {
        0
    } else {
        sizes_sum(entries.drop_last()) + entries.last().file_size
    }
}

/// The list of a folder's files, in the order in which they were found, and
/// the sum of their sizes.
pub struct FolderManifest {
    pub entries: Vec<FolderFileEntry>,
    pub total_size: u64,
}

impl FolderManifest {
    pub open spec fn wf(self) -> bool {
        self.total_size == sizes_sum(self.entries@)
    }

    pub fn new() -> (r: Self)
        ensures
            r.wf(),
            r.entries@ == Seq::<FolderFileEntry>::empty(),
            r.total_size == 0,
    {
        FolderManifest { entries: Vec::new(), total_size: 0 }
    }

    /// Whether a file of this size can still be counted.
    pub fn has_room(&self, file_size: u64) -> (b: bool)
        ensures
            b == (self.total_size + file_size <= u64::MAX),
    {
        file_size <= u64::MAX - self.total_size
    }

    /// Adds a file.
    pub fn add_file(&mut self, relative_path: String, file_size: u64, mime_type: String)
        requires
            old(self).wf(),
            old(self).total_size + file_size <= u64::MAX,
        ensures
            final(self).wf(),
            final(self).entries@ == old(self).entries@.push(
                (FolderFileEntry { relative_path, file_size, mime_type }),
            ),
            final(self).total_size == old(self).total_size + file_size,
    {
        self.total_size = self.total_size + file_size;
        self.entries.push(FolderFileEntry { relative_path, file_size, mime_type });
        assert(self.entries@.drop_last() =~= old(self).entries@);
    }
}

} // verus!
