use vstd::prelude::*;

use super::permissions::{perm_text, FilePermissions};
use super::type_parser::{kind_letter, kind_of_mode, FileType};
use humansize::{file_size_opts, FileSize};

verus! {

/// The text that humansize gives for a size in bytes, in decimal units.
pub uninterp spec fn decimal_size_of(n: u64) -> Seq<char>;

/// Relies on humansize's `FileSize::file_size` with the `DECIMAL` options:
/// on an unsigned number it always returns `Ok`, and its text depends on the
/// number alone.
#[verifier::external_body]
fn decimal_size(n: u64) -> (r: Result<String, String>)
    ensures
        r is Ok,
        r->Ok_0@ == decimal_size_of(n),
{
    n.file_size(file_size_opts::DECIMAL)
}

/// Relies on chrono's `DateTime::from_timestamp`, `with_timezone(&Local)` and
/// `format("%b %e %T")`: the time `secs` seconds and `nanos` nanoseconds after
/// the epoch, in the machine's time zone (`None` out of chrono's range). The
/// text depends on the time zone, so nothing is stated of it.
#[verifier::external_body]
fn local_time_text(secs: i64, nanos: u32) -> (r: Option<String>) {
    match chrono::DateTime::from_timestamp(secs, nanos) {
        Some(t) => Some(t.with_timezone(&chrono::Local).format("%b %e %T").to_string()),
        None => None,
    }
}

/// The info panel of an entry: kind letter and permission letters, then the
/// size, the modification time and the content type, one per line.
pub open spec fn info_text(
    kind: FileType,
    perms: Seq<char>,
    size: Seq<char>,
    time: Seq<char>,
    mime: Seq<char>,
) -> Seq<char> {
    seq![kind_letter(kind)] + perms + seq!['\n'] + size + seq!['\n'] + time + seq!['\n'] + mime
}

/// What the listing knows of one entry.
#[derive(Debug)]
pub struct FileData {
    pub name: String,
    file_type: FileType,
    permissions: FilePermissions,
    mod_secs: i64,
    mod_nanos: u32,
    file_size: u64,
}

impl FileData {
    /// The name of the entry.
    pub closed spec fn name_view(&self) -> Seq<char> {
        self.name@
    }

    /// The kind of the entry.
    pub closed spec fn kind(&self) -> FileType {
        self.file_type
    }

    /// The permission letters of the entry.
    pub closed spec fn perms(&self) -> Seq<char> {
        self.permissions@
    }

    /// The size of the entry in bytes.
    pub closed spec fn size(&self) -> u64 {
        self.file_size
    }

    /// The modification time: seconds and nanoseconds after the epoch.
    pub closed spec fn mod_time(&self) -> (i64, u32) {
        (self.mod_secs, self.mod_nanos)
    }

    /// The permission letters of any entry are nine.
    pub proof fn perms_nine_letters(&self)
        ensures
            self.perms().len() == 9,
    {
        self.permissions.nine_letters();
    }

    /// The entry `name`, from its mode bits, its modification time (seconds
    /// and nanoseconds after the epoch) and its size in bytes.
    pub fn new(name: String, mode: u32, mod_secs: i64, mod_nanos: u32, file_size: u64) -> (r: FileData)
        ensures
            r.name_view() == name@,
            r.kind() == kind_of_mode(mode),
            r.perms() == perm_text(mode),
            r.size() == file_size,
            r.mod_time() == (mod_secs, mod_nanos),
    {
        FileData {
            name,
            file_type: FileType::new(mode),
            permissions: FilePermissions::new(mode),
            mod_secs,
            mod_nanos,
            file_size,
        }
    }

    /// The info panel, given the texts of the size, the modification time and
    /// the content type.
    pub fn info_from(&self, size: &str, time: &str, mime: &str) -> (r: String)
        ensures
            r@ == info_text(self.kind(), self.perms(), size@, time@, mime@),
    {
        let mut text = String::new();
        text.append(self.file_type.letter_text());
        let perms = self.permissions.to_string();
        text.append(perms.as_str());
        proof {
            reveal_strlit("\n");
        }
        text.append("\n");
        text.append(size);
        text.append("\n");
        text.append(time);
        text.append("\n");
        text.append(mime);
        assert(text@ =~= info_text(self.kind(), self.perms(), size@, time@, mime@));
        text
    }

    /// The info panel, with `mime` as the content type: the size in decimal
    /// units, and the modification time in the machine's time zone (empty
    /// where it cannot be shown).
    pub fn info(&self, mime: &str) -> (r: String)
        ensures
            exists|time: Seq<char>|
                r@ == info_text(self.kind(), self.perms(), decimal_size_of(self.size()), time, mime@),
    {
        let size = match decimal_size(self.file_size) {
            Ok(s) => s,
            Err(e) => e,
        };
        let time = match local_time_text(self.mod_secs, self.mod_nanos) {
            Some(t) => t,
            None => String::new(),
        };
        let r = self.info_from(size.as_str(), time.as_str(), mime);
        assert(r@ == info_text(self.kind(), self.perms(), decimal_size_of(self.size()), time@, mime@));
        r
    }

    /// Whether the entry is a directory.
    pub fn is_dir(&self) -> (r: bool)
        ensures
            r == (self.kind() == FileType::DIR),
    {
        self.file_type == FileType::DIR
    }

    /// Whether the entry is a regular file.
    pub fn is_file(&self) -> (r: bool)
        ensures
            r == (self.kind() == FileType::REG),
    {
        self.file_type == FileType::REG
    }
}

} // verus!
