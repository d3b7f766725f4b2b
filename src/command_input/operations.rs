use vstd::prelude::*;

verus! {

/// Which filesystem entry a create command makes.
#[derive(Clone, Copy, Debug, PartialEq, Eq, Structural)]
pub enum EntryKind {
    Dir,
    File,
}

/// A command that passed validation, with its arguments.
#[derive(Debug)]
pub enum Command {
    /// Mark an entry as the source of the next paste.
    Copy(String),
    /// Mark an entry to be moved by the next paste.
    Cut(String),
    /// Bring the marked entry into the current directory.
    Paste,
    /// Remove an entry, recursively for a directory.
    Delete(String),
    /// Rename an entry: old name, new name.
    Rename(String, String),
    /// Make an empty directory or an empty regular file.
    Create(EntryKind, String),
    /// Set an entry's permission bits.
    Edit(String, u32),
}

/// A command as a mathematical value.
pub enum CommandModel {
    Copy(Seq<char>),
    Cut(Seq<char>),
    Paste,
    Delete(Seq<char>),
    Rename(Seq<char>, Seq<char>),
    Create(EntryKind, Seq<char>),
    Edit(Seq<char>, u32),
}

impl View for Command {
    type V = CommandModel;

    open spec fn view(&self) -> CommandModel {
        match self {
            Command::Copy(f) => CommandModel::Copy(f@),
            Command::Cut(f) => CommandModel::Cut(f@),
            Command::Paste => CommandModel::Paste,
            Command::Delete(f) => CommandModel::Delete(f@),
            Command::Rename(f, t) => CommandModel::Rename(f@, t@),
            Command::Create(k, n) => CommandModel::Create(*k, n@),
            Command::Edit(f, m) => CommandModel::Edit(f@, *m),
        }
    }
}

/// The clipboard: the entry that the next paste brings, if any. An entry is
/// named by the directory it was marked in and its name there.
#[derive(Debug)]
pub enum Pending {
    /// Nothing was ever marked.
    Idle,
    /// An entry marked for copying.
    Copy { dir: String, name: String },
    /// An entry marked for moving.
    Cut { dir: String, name: String },
    /// The last mark was used by a paste.
    Consumed,
}

/// The clipboard as a mathematical value.
pub enum PendingModel {
    Idle,
    Copy(Seq<char>, Seq<char>),
    Cut(Seq<char>, Seq<char>),
    Consumed,
}

impl View for Pending {
    type V = PendingModel;

    open spec fn view(&self) -> PendingModel {
        match self {
            Pending::Idle => PendingModel::Idle,
            Pending::Copy { dir, name } => PendingModel::Copy(dir@, name@),
            Pending::Cut { dir, name } => PendingModel::Cut(dir@, name@),
            Pending::Consumed => PendingModel::Consumed,
        }
    }
}

/// A change to the filesystem that a command asks for. Each names entries by
/// a directory and a name in it.
#[derive(Debug)]
pub enum Effect {
    /// Copy `src_dir/name` to `dest_dir/name` (recursively for a directory),
    /// then remove the source when `remove_source` holds.
    Transfer { src_dir: String, name: String, dest_dir: String, remove_source: bool },
    /// Remove `dir/name`, recursively for a directory.
    Remove { dir: String, name: String },
    /// Rename `dir/from` to `dir/to`.
    Rename { dir: String, from: String, to: String },
    /// Make `dir/name`, empty, of the given kind; fails if it exists.
    Create { dir: String, kind: EntryKind, name: String },
    /// Set the permission bits of `dir/name` to `mode`.
    SetMode { dir: String, name: String, mode: u32 },
}

/// An effect as a mathematical value.
pub enum EffectModel {
    Transfer(Seq<char>, Seq<char>, Seq<char>, bool),
    Remove(Seq<char>, Seq<char>),
    Rename(Seq<char>, Seq<char>, Seq<char>),
    Create(Seq<char>, EntryKind, Seq<char>),
    SetMode(Seq<char>, Seq<char>, u32),
}

impl View for Effect {
    type V = EffectModel;

    open spec fn view(&self) -> EffectModel {
        match self {
            Effect::Transfer { src_dir, name, dest_dir, remove_source } => EffectModel::Transfer(
                src_dir@,
                name@,
                dest_dir@,
                *remove_source,
            ),
            Effect::Remove { dir, name } => EffectModel::Remove(dir@, name@),
            Effect::Rename { dir, from, to } => EffectModel::Rename(dir@, from@, to@),
            Effect::Create { dir, kind, name } => EffectModel::Create(dir@, *kind, name@),
            Effect::SetMode { dir, name, mode } => EffectModel::SetMode(dir@, name@, *mode),
        }
    }
}

/// The view of an effect that may be absent.
pub open spec fn effect_view(e: Option<Effect>) -> Option<EffectModel> {
    match e {
        Some(x) => Some(x@),
        None => None,
    }
}

/// What a paste brings, given the clipboard, into the directory `dest`.
pub open spec fn paste_effect(p: PendingModel, dest: Seq<char>) -> Option<EffectModel> {
    match p {
        PendingModel::Copy(d, n) => Some(EffectModel::Transfer(d, n, dest, false)),
        PendingModel::Cut(d, n) => Some(EffectModel::Transfer(d, n, dest, true)),
        _ => None,
    }
}

/// One step of the clipboard machine: the clipboard after running `cmd` in the
/// directory `cwd`, and the change that it asks of the filesystem.
pub open spec fn step(p: PendingModel, cmd: CommandModel, cwd: Seq<char>) -> (PendingModel, Option<EffectModel>) {
    match cmd {
        CommandModel::Copy(f) => (PendingModel::Copy(cwd, f), None),
        CommandModel::Cut(f) => (PendingModel::Cut(cwd, f), None),
        CommandModel::Paste => (PendingModel::Consumed, paste_effect(p, cwd)),
        CommandModel::Delete(f) => (p, Some(EffectModel::Remove(cwd, f))),
        CommandModel::Rename(f, t) => (p, Some(EffectModel::Rename(cwd, f, t))),
        CommandModel::Create(k, n) => (p, Some(EffectModel::Create(cwd, k, n))),
        CommandModel::Edit(f, m) => (p, Some(EffectModel::SetMode(cwd, f, m))),
    }
}

/// An owned copy of `s`.
pub(crate) fn owned(s: &str) -> (r: String)
    ensures
        r@ == s@,
{
    s.to_owned()
}

/// Holds the clipboard across commands and turns each command into the change
/// it asks of the filesystem.
pub struct OperationExecutor {
    pending: Pending,
}

impl View for OperationExecutor {
    type V = PendingModel;

    closed spec fn view(&self) -> PendingModel {
        self.pending@
    }
}

impl Default for OperationExecutor {
    fn default() -> (r: OperationExecutor)
        ensures
            r@ == PendingModel::Idle,
    {
        OperationExecutor { pending: Pending::Idle }
    }
}

impl OperationExecutor {
    /// The clipboard as it stands.
    pub fn pending(&self) -> (r: &Pending)
        ensures
            r@ == self@,
    {
        &self.pending
    }

    /// Marks `dir/file_name` for copying, replacing any earlier mark.
    pub fn copy(&mut self, dir: &str, file_name: &str)
        ensures
            final(self)@ == PendingModel::Copy(dir@, file_name@),
    {
        self.pending = Pending::Copy { dir: owned(dir), name: owned(file_name) };
    }

    /// Marks `dir/file_name` for moving, replacing any earlier mark.
    pub fn cut(&mut self, dir: &str, file_name: &str)
        ensures
            final(self)@ == PendingModel::Cut(dir@, file_name@),
    {
        self.pending = Pending::Cut { dir: owned(dir), name: owned(file_name) };
    }

    /// Uses the mark: a transfer of the marked entry into `dest_dir`, or
    /// nothing when no mark is left. The mark is gone afterwards.
    pub fn paste(&mut self, dest_dir: &str) -> (r: Option<Effect>)
        ensures
            final(self)@ == PendingModel::Consumed,
            effect_view(r) == paste_effect(old(self)@, dest_dir@),
    {
        let r = match &self.pending {
            Pending::Copy { dir, name } => Some(
                Effect::Transfer {
                    src_dir: dir.clone(),
                    name: name.clone(),
                    dest_dir: owned(dest_dir),
                    remove_source: false,
                },
            ),
            Pending::Cut { dir, name } => Some(
                Effect::Transfer {
                    src_dir: dir.clone(),
                    name: name.clone(),
                    dest_dir: owned(dest_dir),
                    remove_source: true,
                },
            ),
            _ => None,
        };
        self.pending = Pending::Consumed;
        r
    }

    /// The removal of `dir/file_name`; the clipboard is left alone.
    pub fn delete(&self, dir: &str, file_name: &str) -> (r: Effect)
        ensures
            r@ == EffectModel::Remove(dir@, file_name@),
    {
        Effect::Remove { dir: owned(dir), name: owned(file_name) }
    }

    /// The renaming of `dir/file_name` to `dir/new_name`.
    pub fn rename(&self, dir: &str, file_name: &str, new_name: &str) -> (r: Effect)
        ensures
            r@ == EffectModel::Rename(dir@, file_name@, new_name@),
    {
        Effect::Rename { dir: owned(dir), from: owned(file_name), to: owned(new_name) }
    }

    /// The making of an empty `dir/name` of the given kind.
    pub fn create(&self, dir: &str, kind: EntryKind, name: &str) -> (r: Effect)
        ensures
            r@ == EffectModel::Create(dir@, kind, name@),
    {
        Effect::Create { dir: owned(dir), kind, name: owned(name) }
    }

    /// The setting of the permission bits of `dir/file_name` to `mode`.
    pub fn edit(&self, dir: &str, file_name: &str, mode: u32) -> (r: Effect)
        ensures
            r@ == EffectModel::SetMode(dir@, file_name@, mode),
    {
        Effect::SetMode { dir: owned(dir), name: owned(file_name), mode }
    }

    /// Runs a validated command in the directory `cwd`: updates the clipboard
    /// and returns the change it asks of the filesystem, if any.
    pub fn run(&mut self, cmd: &Command, cwd: &str) -> (r: Option<Effect>)
        ensures
            (final(self)@, effect_view(r)) == step(old(self)@, cmd@, cwd@),
    {
        match cmd {
            Command::Copy(f) => {
                self.copy(cwd, f.as_str());
                None
            },
            Command::Cut(f) => {
                self.cut(cwd, f.as_str());
                None
            },
            Command::Paste => self.paste(cwd),
            Command::Delete(f) => Some(self.delete(cwd, f.as_str())),
            Command::Rename(f, t) => Some(self.rename(cwd, f.as_str(), t.as_str())),
            Command::Create(k, n) => Some(self.create(cwd, *k, n.as_str())),
            Command::Edit(f, m) => Some(self.edit(cwd, f.as_str(), *m)),
        }
    }
}

} // verus!
