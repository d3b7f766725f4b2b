use vstd::prelude::*;

use super::operations::{
    effect_view, owned, step, Command, CommandModel, Effect, EffectModel, EntryKind,
    OperationExecutor, Pending, PendingModel,
};
use crate::entry::permissions::{is_permission_spec, parse_permissions, permission_mask};

verus! {

/// What the command line shows: text being typed, the listing, or an error.
#[derive(Clone, Copy, Debug, PartialEq, Eq, Structural)]
pub enum InputMode {
    Editing,
    Normal,
    Error,
}

/// Why a command was refused before anything ran.
#[derive(Clone, Copy, Debug, PartialEq, Eq, Structural)]
pub enum ParseError {
    /// The first token is not exactly two characters.
    MalformedCommand,
    /// The operation needs a selected entry and none is selected.
    MissingSelection,
    /// The operation character names no operation.
    OperationNotFound,
    /// The operation takes another number of tokens.
    WrongArgumentCount,
    /// A permission spec or an entry kind is not well formed.
    InvalidArgument,
}

/// Whether `c` separates tokens: one of the five ASCII whitespace characters
/// (space, tab, line feed, form feed, carriage return).
pub open spec fn is_separator(c: char) -> bool {
    c == ' ' || c == '\t' || c == '\n' || c == '\x0C' || c == '\r'
}

/// The length of the run of non-separators that `s` starts with.
pub open spec fn token_len(s: Seq<char>) -> nat
    decreases s.len(),
{
    if s.len() == 0 || is_separator(s[0]) {
        0
    } else {
        1 + token_len(s.drop_first())
    }
}

/// The tokens of `s`: its maximal runs of non-separators, in order.
pub open spec fn tokens(s: Seq<char>) -> Seq<Seq<char>>
    decreases s.len(),
    via tokens_decreases
{
    if s.len() == 0 {
        Seq::empty()
    } else if is_separator(s[0]) {
        tokens(s.drop_first())
    } else {
        let k = token_len(s);
        seq![s.take(k as int)] + tokens(s.skip(k as int))
    }
}

proof fn lemma_token_len_bounded(s: Seq<char>)
    ensures
        1 <= s.len() && !is_separator(s[0]) ==> 1 <= token_len(s),
        token_len(s) <= s.len(),
    decreases s.len(),
{
    if s.len() > 0 && !is_separator(s[0]) {
        lemma_token_len_bounded(s.drop_first());
    }
}

#[via_fn]
proof fn tokens_decreases(s: Seq<char>) {
    lemma_token_len_bounded(s);
}

proof fn lemma_token_len_run(s: Seq<char>, k: int)
    requires
        0 <= k <= s.len(),
        forall|j: int| 0 <= j < k ==> !is_separator(#[trigger] s[j]),
        k == s.len() || is_separator(s[k]),
    ensures
        token_len(s) == k,
    decreases k,
{
    if k > 0 {
        lemma_token_len_run(s.drop_first(), k - 1);
    }
}

fn is_separator_char(c: char) -> (r: bool)
    ensures
        r == is_separator(c),
{
    c == ' ' || c == '\t' || c == '\n' || c == '\x0C' || c == '\r'
}

/// Splits `s` at runs of ASCII whitespace, dropping empty tokens.
pub fn split_tokens(s: &str) -> (r: Vec<&str>)
    ensures
        r@.map_values(|t: &str| t@) == tokens(s@),
{
    let n = s.unicode_len();
    let mut toks: Vec<&str> = Vec::new();
    let mut i: usize = 0;
    assert(s@.skip(0) =~= s@);
    assert(toks@.map_values(|t: &str| t@) + tokens(s@) =~= tokens(s@));
    while i < n
        invariant
            n == s@.len(),
            i <= n,
            toks@.map_values(|t: &str| t@) + tokens(s@.skip(i as int)) == tokens(s@),
        decreases n - i,
    {
        let c = s.get_char(i);
        if is_separator_char(c) {
            assert(s@.skip(i as int).drop_first() =~= s@.skip(i + 1));
            i = i + 1;
        } else {
            let mut j: usize = i + 1;
            while j < n && !is_separator_char(s.get_char(j))
                invariant
                    n == s@.len(),
                    i < j <= n,
                    forall|m: int| i <= m < j ==> !is_separator(#[trigger] s@[m]),
                decreases n - j,
            {
                j = j + 1;
            }
            let tok = s.substring_char(i, j);
            proof {
                let rest = s@.skip(i as int);
                lemma_token_len_run(rest, j - i);
                assert(rest.take(j - i) =~= tok@);
                assert(rest.skip(j - i) =~= s@.skip(j as int));
                let old_view = toks@.map_values(|t: &str| t@);
                assert(tokens(rest) == seq![tok@] + tokens(s@.skip(j as int)));
                assert(old_view + tokens(rest) =~= old_view.push(tok@) + tokens(s@.skip(j as int)));
            }
            let ghost before = toks@;
            toks.push(tok);
            assert(toks@.map_values(|t: &str| t@) =~= before.map_values(|t: &str| t@).push(tok@));
            i = j;
        }
    }
    assert(s@.skip(n as int) =~= Seq::<char>::empty());
    assert(toks@.map_values(|t: &str| t@) + Seq::empty() =~= toks@.map_values(|t: &str| t@));
    toks
}

/// The selected entry's name as a mathematical value.
pub open spec fn selection_view(file_name: Option<&str>) -> Option<Seq<char>> {
    match file_name {
        Some(f) => Some(f@),
        None => None,
    }
}

/// Whether operation `op` works on the selected entry (all but create and paste).
pub open spec fn needs_selection(op: char) -> bool {
    op != 'n' && op != 'p'
}

/// The shape check of a command from its tokens alone, once the first token
/// has at least two characters (the second names the operation): the number
/// of tokens, a permission argument of three octal digits, an entry kind of
/// `d` or `f`.
pub open spec fn shape_check(toks: Seq<Seq<char>>) -> Result<(), ParseError> {
    let op = toks[0][1];
    if op == 'c' || op == 'd' || op == 'm' || op == 'p' {
        if toks.len() != 1 {
            Err(ParseError::WrongArgumentCount)
        } else {
            Ok(())
        }
    } else if op == 'e' || op == 'r' {
        if toks.len() != 2 {
            Err(ParseError::WrongArgumentCount)
        } else if op == 'e' && !is_permission_spec(toks[1]) {
            Err(ParseError::InvalidArgument)
        } else {
            Ok(())
        }
    } else if op == 'n' {
        if toks.len() != 3 {
            Err(ParseError::WrongArgumentCount)
        } else if toks[1] != seq!['d'] && toks[1] != seq!['f'] {
            Err(ParseError::InvalidArgument)
        } else {
            Ok(())
        }
    } else {
        Err(ParseError::OperationNotFound)
    }
}

/// The command that well-shaped tokens `toks` stand for, on the selected
/// entry `sel` (which create and paste do not read).
pub open spec fn command_of(toks: Seq<Seq<char>>, sel: Option<Seq<char>>) -> CommandModel {
    let op = toks[0][1];
    if op == 'c' {
        CommandModel::Copy(sel->0)
    } else if op == 'd' {
        CommandModel::Delete(sel->0)
    } else if op == 'm' {
        CommandModel::Cut(sel->0)
    } else if op == 'p' {
        CommandModel::Paste
    } else if op == 'r' {
        CommandModel::Rename(sel->0, toks[1])
    } else if op == 'e' {
        CommandModel::Edit(sel->0, permission_mask(toks[1]) as u32)
    } else if toks[1] == seq!['d'] {
        CommandModel::Create(EntryKind::Dir, toks[2])
    } else {
        CommandModel::Create(EntryKind::File, toks[2])
    }
}

/// The command that the tokens `toks` stand for, on the selected entry `sel`,
/// or the shape error that refuses them.
pub open spec fn validated(toks: Seq<Seq<char>>, sel: Option<Seq<char>>) -> Result<CommandModel, ParseError> {
    match shape_check(toks) {
        Ok(_) => Ok(command_of(toks, sel)),
        Err(e) => Err(e),
    }
}

/// The meaning of the command text `input` when `sel` is the selected entry.
pub open spec fn parse_spec(input: Seq<char>, sel: Option<Seq<char>>) -> Result<CommandModel, ParseError> {
    let toks = tokens(input);
    if toks.len() == 0 || toks[0].len() != 2 {
        Err(ParseError::MalformedCommand)
    } else if sel is None && needs_selection(toks[0][1]) {
        Err(ParseError::MissingSelection)
    } else {
        validated(toks, sel)
    }
}

/// The view of a parse outcome.
pub open spec fn parsed_view(r: Result<Command, ParseError>) -> Result<CommandModel, ParseError> {
    match r {
        Ok(c) => Ok(c@),
        Err(e) => Err(e),
    }
}

fn is_single(s: &str, c: char) -> (r: bool)
    ensures
        r == (s@ == seq![c]),
{
    if s.unicode_len() != 1 {
        return false;
    }
    let first = s.get_char(0);
    assert(first == c ==> s@ =~= seq![c]);
    first == c
}

/// The command line: text typed after `:`, the mode it shows, the directory
/// that commands run in, and the clipboard that persists between commands.
pub struct CommandHandler {
    pub input: String,
    pub input_mode: InputMode,
    /// The directory that names resolve against (empty: the process's own).
    pub cwd: String,
    /// The clipboard, which persists between commands.
    pub executor: OperationExecutor,
}

impl Default for CommandHandler {
    fn default() -> (r: CommandHandler)
        ensures
            r.input@ == Seq::<char>::empty(),
            r.input_mode == InputMode::Normal,
            r.cwd@ == Seq::<char>::empty(),
            r.pending() == PendingModel::Idle,
    {
        CommandHandler {
            input: String::new(),
            input_mode: InputMode::Normal,
            cwd: String::new(),
            executor: OperationExecutor::default(),
        }
    }
}

impl CommandHandler {
    /// The clipboard as a mathematical value.
    pub open spec fn pending(&self) -> PendingModel {
        self.executor@
    }

    /// The clipboard as it stands.
    pub fn clipboard(&self) -> (r: &Pending)
        ensures
            r@ == self.pending(),
    {
        self.executor.pending()
    }

    /// Decodes the argument of an edit command.
    fn validate_permissions(perms: &str) -> (r: Result<u32, ParseError>)
        ensures
            is_permission_spec(perms@) ==> r == Ok::<u32, ParseError>(permission_mask(perms@) as u32),
            !is_permission_spec(perms@) ==> r == Err::<u32, ParseError>(ParseError::InvalidArgument),
    {
        match parse_permissions(perms) {
            Some(m) => Ok(m),
            None => Err(ParseError::InvalidArgument),
        }
    }

    /// Checks the shape of a command from its tokens alone; the first token
    /// has at least two characters, the second naming the operation.
    fn validate_input(command: &Vec<&str>) -> (r: Result<(), ParseError>)
        requires
            command@.len() >= 1,
            command@[0]@.len() >= 2,
        ensures
            r == shape_check(command@.map_values(|t: &str| t@)),
    {
        let ghost toks = command@.map_values(|t: &str| t@);
        assert(toks[0] == command@[0]@);
        let op = command[0].get_char(1);
        let n = command.len();
        if op == 'c' || op == 'd' || op == 'm' || op == 'p' {
            if n != 1 {
                Err(ParseError::WrongArgumentCount)
            } else {
                Ok(())
            }
        } else if op == 'e' || op == 'r' {
            if n != 2 {
                return Err(ParseError::WrongArgumentCount);
            }
            assert(toks[1] == command@[1]@);
            if op == 'e' {
                match Self::validate_permissions(command[1]) {
                    Ok(_) => Ok(()),
                    Err(e) => Err(e),
                }
            } else {
                Ok(())
            }
        } else if op == 'n' {
            if n != 3 {
                return Err(ParseError::WrongArgumentCount);
            }
            assert(toks[1] == command@[1]@);
            if is_single(command[1], 'd') || is_single(command[1], 'f') {
                Ok(())
            } else {
                Err(ParseError::InvalidArgument)
            }
        } else {
            Err(ParseError::OperationNotFound)
        }
    }

    /// Builds the command that well-shaped tokens stand for, on the selected
    /// entry `file_name`.
    fn build_command(command: &Vec<&str>, file_name: Option<&str>) -> (r: Command)
        requires
            command@.len() >= 1,
            command@[0]@.len() >= 2,
            shape_check(command@.map_values(|t: &str| t@)) is Ok,
            file_name is None ==> !needs_selection(command@[0]@[1]),
        ensures
            r@ == command_of(command@.map_values(|t: &str| t@), selection_view(file_name)),
    {
        let ghost toks = command@.map_values(|t: &str| t@);
        assert(toks[0] == command@[0]@);
        let op = command[0].get_char(1);
        if op == 'p' {
            return Command::Paste;
        }
        if op == 'n' {
            assert(toks[1] == command@[1]@);
            assert(toks[2] == command@[2]@);
            if is_single(command[1], 'd') {
                return Command::Create(EntryKind::Dir, owned(command[2]));
            } else {
                return Command::Create(EntryKind::File, owned(command[2]));
            }
        }
        let f = owned(file_name.unwrap());
        if op == 'c' {
            Command::Copy(f)
        } else if op == 'd' {
            Command::Delete(f)
        } else if op == 'm' {
            Command::Cut(f)
        } else {
            assert(toks[1] == command@[1]@);
            if op == 'r' {
                Command::Rename(f, owned(command[1]))
            } else {
                Command::Edit(f, Self::validate_permissions(command[1]).unwrap())
            }
        }
    }

    /// Parses and validates the command text `input` when `file_name` is the
    /// selected entry; touches nothing.
    pub fn parse_command(input: &str, file_name: Option<&str>) -> (r: Result<Command, ParseError>)
        ensures
            parsed_view(r) == parse_spec(input@, selection_view(file_name)),
    {
        let command = split_tokens(input);
        let ghost toks = command@.map_values(|t: &str| t@);
        if command.len() == 0 {
            return Err(ParseError::MalformedCommand);
        }
        assert(toks[0] == command@[0]@);
        if command[0].unicode_len() != 2 {
            return Err(ParseError::MalformedCommand);
        }
        let op = command[0].get_char(1);
        if file_name.is_none() && op != 'n' && op != 'p' {
            return Err(ParseError::MissingSelection);
        }
        match Self::validate_input(&command) {
            Ok(()) => Ok(Self::build_command(&command, file_name)),
            Err(e) => Err(e),
        }
    }

    /// Runs the command typed so far on the selected entry `file_name`, and
    /// clears the text. A refused command shows the error mode and changes
    /// nothing else. An accepted one updates the clipboard; when it asks
    /// nothing of the filesystem it shows the normal mode, else it returns the
    /// change, whose outcome `complete` then shows.
    pub fn exec(&mut self, file_name: Option<&str>) -> (r: Option<Effect>)
        ensures
            final(self).input@ == Seq::<char>::empty(),
            final(self).cwd == old(self).cwd,
            match parse_spec(old(self).input@, selection_view(file_name)) {
                Err(_) => {
                    &&& final(self).input_mode == InputMode::Error
                    &&& r is None
                    &&& final(self).pending() == old(self).pending()
                },
                Ok(cmd) => {
                    let (p, e) = step(old(self).pending(), cmd, old(self).cwd@);
                    &&& final(self).pending() == p
                    &&& effect_view(r) == e
                    &&& final(self).input_mode == if e is None {
                        InputMode::Normal
                    } else {
                        old(self).input_mode
                    }
                },
            },
    {
        let parsed = Self::parse_command(self.input.as_str(), file_name);
        let r = match parsed {
            Ok(cmd) => {
                let effect = self.executor.run(&cmd, self.cwd.as_str());
                if effect.is_none() {
                    self.input_mode = InputMode::Normal;
                }
                effect
            },
            Err(_) => {
                self.input_mode = InputMode::Error;
                None
            },
        };
        self.input = String::new();
        r
    }

    /// Shows the outcome of the change that `exec` returned.
    pub fn complete(&mut self, succeeded: bool)
        ensures
            final(self).input_mode == if succeeded {
                InputMode::Normal
            } else {
                InputMode::Error
            },
            final(self).input == old(self).input,
            final(self).cwd == old(self).cwd,
            final(self).pending() == old(self).pending(),
    {
        self.input_mode = if succeeded {
            InputMode::Normal
        } else {
            InputMode::Error
        };
    }
}

/// A command whose first token is not exactly two characters is refused as
/// malformed, whatever is selected.
pub proof fn malformed_first_token_refused(input: Seq<char>, sel: Option<Seq<char>>)
    requires
        tokens(input).len() == 0 || tokens(input)[0].len() != 2,
    ensures
        parse_spec(input, sel) == Err::<CommandModel, ParseError>(ParseError::MalformedCommand),
{
}

/// An operation other than create and paste is refused when nothing is
/// selected.
pub proof fn missing_selection_refused(input: Seq<char>)
    requires
        tokens(input).len() >= 1,
        tokens(input)[0].len() == 2,
        needs_selection(tokens(input)[0][1]),
    ensures
        parse_spec(input, None) == Err::<CommandModel, ParseError>(ParseError::MissingSelection),
{
}

/// Copy, delete, cut and paste take no argument: any extra token is refused.
pub proof fn extra_token_refused(input: Seq<char>, sel: Option<Seq<char>>)
    requires
        tokens(input).len() >= 2,
        tokens(input)[0].len() == 2,
        tokens(input)[0][1] == 'c' || tokens(input)[0][1] == 'd' || tokens(input)[0][1] == 'm'
            || tokens(input)[0][1] == 'p',
    ensures
        parse_spec(input, sel) is Err,
{
}

/// An edit command is accepted exactly when its one argument is three octal
/// digits and an entry is selected, and then sets the mode those digits name.
pub proof fn edit_needs_octal_digits(input: Seq<char>, sel: Option<Seq<char>>)
    requires
        tokens(input).len() == 2,
        tokens(input)[0].len() == 2,
        tokens(input)[0][1] == 'e',
    ensures
        !is_permission_spec(tokens(input)[1]) ==> parse_spec(input, sel) is Err,
        is_permission_spec(tokens(input)[1]) && sel is Some ==> parse_spec(input, sel) == Ok::<
            CommandModel,
            ParseError,
        >(CommandModel::Edit(sel->0, permission_mask(tokens(input)[1]) as u32)),
{
}

/// A create command is accepted exactly when its kind is `d` or `f`, and then
/// makes an entry of that kind under the given name.
pub proof fn create_needs_known_kind(input: Seq<char>, sel: Option<Seq<char>>)
    requires
        tokens(input).len() == 3,
        tokens(input)[0].len() == 2,
        tokens(input)[0][1] == 'n',
    ensures
        tokens(input)[1] != seq!['d'] && tokens(input)[1] != seq!['f'] ==> parse_spec(input, sel)
            == Err::<CommandModel, ParseError>(ParseError::InvalidArgument),
        tokens(input)[1] == seq!['d'] ==> parse_spec(input, sel) == Ok::<CommandModel, ParseError>(
            CommandModel::Create(EntryKind::Dir, tokens(input)[2]),
        ),
        tokens(input)[1] == seq!['f'] ==> parse_spec(input, sel) == Ok::<CommandModel, ParseError>(
            CommandModel::Create(EntryKind::File, tokens(input)[2]),
        ),
{
}

/// A rename command with the selection `old` renames `old` to its argument in
/// the current directory, and leaves the clipboard alone.
pub proof fn rename_moves_selection(input: Seq<char>, old: Seq<char>, p: PendingModel, cwd: Seq<char>)
    requires
        tokens(input).len() == 2,
        tokens(input)[0].len() == 2,
        tokens(input)[0][1] == 'r',
    ensures
        parse_spec(input, Some(old)) == Ok::<CommandModel, ParseError>(
            CommandModel::Rename(old, tokens(input)[1]),
        ),
        step(p, CommandModel::Rename(old, tokens(input)[1]), cwd) == (
            p,
            Some(EffectModel::Rename(cwd, old, tokens(input)[1])),
        ),
{
}

/// A paste with nothing marked, before any copy or cut or after an earlier
/// paste, asks nothing of the filesystem and leaves the clipboard used up.
pub proof fn paste_without_mark_is_noop(p: PendingModel, cwd: Seq<char>)
    requires
        p is Idle || p is Consumed,
    ensures
        step(p, CommandModel::Paste, cwd) == (PendingModel::Consumed, None::<EffectModel>),
{
}

/// A copy followed by a paste copies the marked entry, from the directory it
/// was marked in, into the directory of the paste, and keeps the source; a
/// second paste then does nothing.
pub proof fn copy_then_paste_duplicates(
    p: PendingModel,
    file: Seq<char>,
    src_dir: Seq<char>,
    dest_dir: Seq<char>,
)
    ensures
        ({
            let after_copy = step(p, CommandModel::Copy(file), src_dir).0;
            let (after_paste, e) = step(after_copy, CommandModel::Paste, dest_dir);
            &&& e == Some(EffectModel::Transfer(src_dir, file, dest_dir, false))
            &&& after_paste == PendingModel::Consumed
            &&& step(after_paste, CommandModel::Paste, dest_dir).1 == None::<EffectModel>
        }),
{
}

/// A cut followed by a paste copies the marked entry into the directory of
/// the paste and then removes the source.
pub proof fn cut_then_paste_moves(
    p: PendingModel,
    file: Seq<char>,
    src_dir: Seq<char>,
    dest_dir: Seq<char>,
)
    ensures
        ({
            let after_cut = step(p, CommandModel::Cut(file), src_dir).0;
            let (after_paste, e) = step(after_cut, CommandModel::Paste, dest_dir);
            &&& e == Some(EffectModel::Transfer(src_dir, file, dest_dir, true))
            &&& after_paste == PendingModel::Consumed
        }),
{
}

/// An operation character outside the seven is refused.
pub proof fn unknown_operation_refused(input: Seq<char>, sel: Option<Seq<char>>)
    requires
        tokens(input).len() >= 1,
        tokens(input)[0].len() == 2,
        !(tokens(input)[0][1] == 'c' || tokens(input)[0][1] == 'd' || tokens(input)[0][1] == 'm'
            || tokens(input)[0][1] == 'p' || tokens(input)[0][1] == 'e' || tokens(input)[0][1] == 'r'
            || tokens(input)[0][1] == 'n'),
    ensures
        parse_spec(input, sel) is Err,
        sel is Some ==> parse_spec(input, sel) == Err::<CommandModel, ParseError>(
            ParseError::OperationNotFound,
        ),
{
}

} // verus!
