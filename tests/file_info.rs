use rufile::entry::file_data::FileData;
use rufile::entry::type_parser::FileType;
use rufile::event::EventConfig;

#[test]
fn file_data_classifies_mode() {
    let f = FileData::new("notes.txt".to_string(), 0o100644, 0, 0, 1500);
    assert!(f.is_file());
    assert!(!f.is_dir());
    let d = FileData::new("src".to_string(), 0o040755, 0, 0, 4096);
    assert!(d.is_dir());
    assert!(!d.is_file());
    assert_eq!("src", d.name);
}

#[test]
fn info_lines() {
    let f = FileData::new("notes.txt".to_string(), 0o100644, 0, 0, 1500);
    assert_eq!("-rw-r--r--\n2 KB\nJan  1 00:00:00\ntext/plain", f.info_from("2 KB", "Jan  1 00:00:00", "text/plain"));
    let d = FileData::new("src".to_string(), 0o040755, 0, 0, 4096);
    assert_eq!("drwxr-xr-x\n\n\n", d.info_from("", "", ""));
}

#[test]
fn info_shows_decimal_size() {
    let f = FileData::new("notes.txt".to_string(), 0o100644, 0, 0, 1500);
    let text = f.info("text/plain");
    assert!(text.starts_with("-rw-r--r--\n1.50 KB\n"), "{}", text);
    assert!(text.ends_with("\ntext/plain"), "{}", text);
    let g = FileData::new("big".to_string(), 0o100600, 0, 0, 1000);
    assert!(g.info("").starts_with("-rw-------\n1 KB\n"));
}

#[test]
fn file_type_letter_text() {
    assert_eq!("d", FileType::new(0o040755).letter_text());
    assert_eq!('-', FileType::new(0o100644).letter());
}

#[test]
fn default_tick_rate() {
    assert_eq!(200, EventConfig::default().tick_rate_ms);
}
