use rufile::command_input::input::{CommandHandler, InputMode, ParseError};
use rufile::command_input::operations::{Command, Effect, EntryKind, Pending};
use rufile::entry::permissions::{parse_permissions, FilePermissions};

fn handler_in(dir: &str) -> CommandHandler {
    let mut h = CommandHandler::default();
    h.cwd = dir.to_string();
    h
}

fn run(h: &mut CommandHandler, text: &str, sel: Option<&str>) -> Option<Effect> {
    h.input = text.to_string();
    h.input_mode = InputMode::Editing;
    h.exec(sel)
}

#[test]
fn malformed_first_token_is_refused() {
    let mut h = handler_in("/work");
    assert!(run(&mut h, ":cc", Some("a")).is_none());
    assert_eq!(InputMode::Error, h.input_mode);
    assert!(h.input.is_empty());
    assert!(matches!(h.clipboard(), Pending::Idle));
    assert_eq!(Err(ParseError::MalformedCommand), CommandHandler::parse_command(":cc", Some("a")).map(|_| ()));
    assert_eq!(Err(ParseError::MalformedCommand), CommandHandler::parse_command("   ", Some("a")).map(|_| ()));
    assert_eq!(Err(ParseError::MalformedCommand), CommandHandler::parse_command("", None).map(|_| ()));
}

#[test]
fn missing_selection_is_refused() {
    let mut h = handler_in("/work");
    assert!(run(&mut h, ":c", None).is_none());
    assert_eq!(InputMode::Error, h.input_mode);
    assert_eq!(Err(ParseError::MissingSelection), CommandHandler::parse_command(":c", None).map(|_| ()));
    assert_eq!(Err(ParseError::MissingSelection), CommandHandler::parse_command(":r x", None).map(|_| ()));
}

#[test]
fn extra_token_is_refused() {
    for text in [":c extra", ":d extra", ":m extra", ":p extra"] {
        let mut h = handler_in("/work");
        assert!(run(&mut h, text, Some("a")).is_none());
        assert_eq!(InputMode::Error, h.input_mode);
        assert_eq!(
            Err(ParseError::WrongArgumentCount),
            CommandHandler::parse_command(text, Some("a")).map(|_| ())
        );
    }
}

#[test]
fn edit_checks_permission_digits() {
    let mut h = handler_in("/work");
    assert!(run(&mut h, ":e 7777", Some("f")).is_none());
    assert_eq!(InputMode::Error, h.input_mode);
    assert!(run(&mut h, ":e 1a0", Some("f")).is_none());
    assert_eq!(InputMode::Error, h.input_mode);
    assert!(run(&mut h, ":e 8", Some("f")).is_none());
    assert_eq!(InputMode::Error, h.input_mode);
    match run(&mut h, ":e 755", Some("f")) {
        Some(Effect::SetMode { dir, name, mode }) => {
            assert_eq!("/work", dir);
            assert_eq!("f", name);
            assert_eq!(0o755, mode);
        }
        other => panic!("unexpected {:?}", other),
    }
    h.complete(true);
    assert_eq!(InputMode::Normal, h.input_mode);
}

#[test]
fn permission_digits_decode() {
    assert_eq!(Some(0o755), parse_permissions("755"));
    assert_eq!(Some(0o000), parse_permissions("000"));
    assert_eq!(Some(0o777), parse_permissions("777"));
    assert_eq!(Some(0o644), parse_permissions("644"));
    assert_eq!(None, parse_permissions("7777"));
    assert_eq!(None, parse_permissions("75"));
    assert_eq!(None, parse_permissions("758"));
    assert_eq!(None, parse_permissions("1a0"));
    assert_eq!(None, parse_permissions(""));
}

#[test]
fn create_checks_kind() {
    let mut h = handler_in("/work");
    assert!(run(&mut h, ":n x newthing", None).is_none());
    assert_eq!(InputMode::Error, h.input_mode);
    assert_eq!(
        Err(ParseError::InvalidArgument),
        CommandHandler::parse_command(":n x newthing", None).map(|_| ())
    );
    match run(&mut h, ":n d newdir", None) {
        Some(Effect::Create { dir, kind, name }) => {
            assert_eq!("/work", dir);
            assert_eq!(EntryKind::Dir, kind);
            assert_eq!("newdir", name);
        }
        other => panic!("unexpected {:?}", other),
    }
    match CommandHandler::parse_command(":n f newfile", Some("ignored")) {
        Ok(Command::Create(EntryKind::File, name)) => assert_eq!("newfile", name),
        other => panic!("unexpected {:?}", other),
    }
}

#[test]
fn rename_renames_selection() {
    let mut h = handler_in("/work");
    match run(&mut h, ":r new_name", Some("old")) {
        Some(Effect::Rename { dir, from, to }) => {
            assert_eq!("/work", dir);
            assert_eq!("old", from);
            assert_eq!("new_name", to);
        }
        other => panic!("unexpected {:?}", other),
    }
    assert!(h.input.is_empty());
    h.complete(true);
    assert_eq!(InputMode::Normal, h.input_mode);
    h.complete(false);
    assert_eq!(InputMode::Error, h.input_mode);
}

#[test]
fn paste_without_mark_does_nothing() {
    let mut h = handler_in("/work");
    assert!(run(&mut h, ":p", None).is_none());
    assert_eq!(InputMode::Normal, h.input_mode);
    assert!(matches!(h.clipboard(), Pending::Consumed));
    assert!(run(&mut h, ":p", Some("a")).is_none());
    assert_eq!(InputMode::Normal, h.input_mode);
}

#[test]
fn copy_then_paste_keeps_source() {
    let mut h = handler_in("/src");
    assert!(run(&mut h, ":c", Some("tree")).is_none());
    assert_eq!(InputMode::Normal, h.input_mode);
    match h.clipboard() {
        Pending::Copy { dir, name } => {
            assert_eq!("/src", dir);
            assert_eq!("tree", name);
        }
        other => panic!("unexpected {:?}", other),
    }
    h.cwd = "/dest".to_string();
    match run(&mut h, ":p", None) {
        Some(Effect::Transfer { src_dir, name, dest_dir, remove_source }) => {
            assert_eq!("/src", src_dir);
            assert_eq!("tree", name);
            assert_eq!("/dest", dest_dir);
            assert!(!remove_source);
        }
        other => panic!("unexpected {:?}", other),
    }
    // Paste is one-shot: the mark is used up by the first paste.
    assert!(run(&mut h, ":p", None).is_none());
    assert_eq!(InputMode::Normal, h.input_mode);
}

#[test]
fn cut_then_paste_moves_source() {
    let mut h = handler_in("/src");
    assert!(run(&mut h, ":c", Some("first")).is_none());
    assert!(run(&mut h, ":m", Some("tree")).is_none());
    h.cwd = "/dest".to_string();
    match run(&mut h, ":p", None) {
        Some(Effect::Transfer { src_dir, name, dest_dir, remove_source }) => {
            assert_eq!("/src", src_dir);
            assert_eq!("tree", name);
            assert_eq!("/dest", dest_dir);
            assert!(remove_source);
        }
        other => panic!("unexpected {:?}", other),
    }
    assert!(matches!(h.clipboard(), Pending::Consumed));
}

#[test]
fn delete_removes_selection() {
    let mut h = handler_in("/work");
    match run(&mut h, "  :d   ", Some("gone")) {
        Some(Effect::Remove { dir, name }) => {
            assert_eq!("/work", dir);
            assert_eq!("gone", name);
        }
        other => panic!("unexpected {:?}", other),
    }
}

#[test]
fn unknown_operation_is_refused() {
    let mut h = handler_in("/work");
    assert!(run(&mut h, ":x", Some("a")).is_none());
    assert_eq!(InputMode::Error, h.input_mode);
    assert_eq!(
        Err(ParseError::OperationNotFound),
        CommandHandler::parse_command(":x", Some("a")).map(|_| ())
    );
}

#[test]
fn refused_command_keeps_clipboard() {
    let mut h = handler_in("/src");
    assert!(run(&mut h, ":c", Some("kept")).is_none());
    assert!(run(&mut h, ":c extra", Some("other")).is_none());
    assert_eq!(InputMode::Error, h.input_mode);
    match h.clipboard() {
        Pending::Copy { name, .. } => assert_eq!("kept", name),
        other => panic!("unexpected {:?}", other),
    }
}

#[test]
fn decoded_permissions_display_as_letters() {
    assert_eq!("rwxr-xr-x", FilePermissions::new(parse_permissions("755").unwrap()).to_string());
    assert_eq!("rw-r-----", FilePermissions::new(parse_permissions("640").unwrap()).to_string());
    assert_eq!("rw-r--r--", FilePermissions::new(0o100644).to_string());
}
