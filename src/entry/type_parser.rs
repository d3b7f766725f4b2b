use vstd::prelude::*;

verus! {

/// The kind of a filesystem entry, read from the file-type bits of a mode.
#[derive(Clone, Copy, Debug, PartialEq, Eq, Structural)]
pub enum FileType {
    SOCK,
    LNK,
    REG,
    BLK,
    DIR,
    CHR,
    FIFO,
    UNDEFINED,
}

/// The mask that selects the file-type bits of a mode (`S_IFMT`).
pub const FILE_TYPE_MASK: u32 = 0o170000;

/// The kind that the file-type bits `bits` name.
pub open spec fn kind_of_bits(bits: u32) -> FileType {
    if bits == 0o140000 {
        FileType::SOCK
    } else if bits == 0o120000 {
        FileType::LNK
    } else if bits == 0o100000 {
        FileType::REG
    } else if bits == 0o060000 {
        FileType::BLK
    } else if bits == 0o040000 {
        FileType::DIR
    } else if bits == 0o020000 {
        FileType::CHR
    } else if bits == 0o010000 {
        FileType::FIFO
    } else {
        FileType::UNDEFINED
    }
}

/// The kind of an entry whose full mode is `mode`.
pub open spec fn kind_of_mode(mode: u32) -> FileType {
    kind_of_bits(mode & FILE_TYPE_MASK)
}

/// The letter that `ls -l` shows for a kind.
pub open spec fn kind_letter(t: FileType) -> char {
    match t {
        FileType::SOCK => 's',
        FileType::LNK => 'l',
        FileType::REG => '-',
        FileType::BLK => 'b',
        FileType::DIR => 'd',
        FileType::CHR => 'c',
        FileType::FIFO => 'p',
        FileType::UNDEFINED => '\0',
    }
}

impl FileType {
    /// The kind of an entry, from its whole mode (`st_mode`).
    pub fn new(file: u32) -> (r: FileType)
        ensures
            r == kind_of_mode(file),
    {
        FileType::from(file & FILE_TYPE_MASK)
    }

    /// The letter that `ls -l` shows for this kind.
    pub fn letter(&self) -> (r: char)
        ensures
            r == kind_letter(*self),
    {
        char::from(*self)
    }

    /// The letter that `ls -l` shows for this kind, as text.
    pub fn letter_text(&self) -> (r: &'static str)
        ensures
            r@ == seq![kind_letter(*self)],
    {
        proof {
            reveal_strlit("s");
            reveal_strlit("l");
            reveal_strlit("-");
            reveal_strlit("b");
            reveal_strlit("d");
            reveal_strlit("c");
            reveal_strlit("p");
            reveal_strlit("\0");
        }
        let r = match self {
            FileType::SOCK => "s",
            FileType::LNK => "l",
            FileType::REG => "-",
            FileType::BLK => "b",
            FileType::DIR => "d",
            FileType::CHR => "c",
            FileType::FIFO => "p",
            FileType::UNDEFINED => "\0",
        };
        assert(r@ =~= seq![kind_letter(*self)]);
        r
    }
}

impl From<u32> for FileType {
    fn from(file_type: u32) -> (r: FileType) {
        match file_type {
            0o140000 => FileType::SOCK,
            0o120000 => FileType::LNK,
            0o100000 => FileType::REG,
            0o060000 => FileType::BLK,
            0o040000 => FileType::DIR,
            0o020000 => FileType::CHR,
            0o010000 => FileType::FIFO,
            _ => FileType::UNDEFINED,
        }
    }
}

impl vstd::std_specs::convert::FromSpecImpl<u32> for FileType {
    open spec fn obeys_from_spec() -> bool {
        true
    }

    open spec fn from_spec(v: u32) -> FileType {
        kind_of_bits(v)
    }
}

impl From<FileType> for char {
    fn from(file_type: FileType) -> (r: char) {
        match file_type {
            FileType::SOCK => 's',
            FileType::LNK => 'l',
            FileType::REG => '-',
            FileType::BLK => 'b',
            FileType::DIR => 'd',
            FileType::CHR => 'c',
            FileType::FIFO => 'p',
            FileType::UNDEFINED => '\0',
        }
    }
}

impl vstd::std_specs::convert::FromSpecImpl<FileType> for char {
    open spec fn obeys_from_spec() -> bool {
        true
    }

    open spec fn from_spec(v: FileType) -> char {
        kind_letter(v)
    }
}

} // verus!
