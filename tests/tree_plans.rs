use rufile::command_input::tree::{
    copy_plan, deletion_plan, removal_plan, transfer_plan, Step, TreeEntry,
};

fn listing() -> Vec<TreeEntry> {
    vec![
        TreeEntry { rel: "a".to_string(), is_dir: true },
        TreeEntry { rel: "a/x.txt".to_string(), is_dir: false },
        TreeEntry { rel: "b.txt".to_string(), is_dir: false },
    ]
}

fn describe(steps: &[Step]) -> Vec<String> {
    steps
        .iter()
        .map(|s| match s {
            Step::MakeDir(p) => format!("mkdir {}", p),
            Step::CopyFile(p) => format!("copy {}", p),
            Step::RemoveFile(p) => format!("rm {}", p),
            Step::RemoveDir(p) => format!("rmdir {}", p),
        })
        .collect()
}

#[test]
fn copy_plan_makes_root_then_each_entry() {
    let steps = copy_plan(&listing());
    assert_eq!(vec!["mkdir ", "mkdir a", "copy a/x.txt", "copy b.txt"], describe(&steps));
}

#[test]
fn removal_plan_removes_children_first() {
    let steps = removal_plan(&listing());
    assert_eq!(vec!["rm b.txt", "rm a/x.txt", "rmdir a", "rmdir "], describe(&steps));
}

#[test]
fn plans_of_empty_directory() {
    assert_eq!(vec!["mkdir "], describe(&copy_plan(&Vec::new())));
    assert_eq!(vec!["rmdir "], describe(&removal_plan(&Vec::new())));
}

#[test]
fn transfer_plan_of_file() {
    assert_eq!(vec!["copy "], describe(&transfer_plan(false, &Vec::new(), false)));
    assert_eq!(vec!["copy ", "rm "], describe(&transfer_plan(false, &Vec::new(), true)));
}

#[test]
fn transfer_plan_of_directory_removes_after_copying() {
    assert_eq!(
        vec!["mkdir ", "mkdir a", "copy a/x.txt", "copy b.txt"],
        describe(&transfer_plan(true, &listing(), false))
    );
    assert_eq!(
        vec![
            "mkdir ", "mkdir a", "copy a/x.txt", "copy b.txt", "rm b.txt", "rm a/x.txt", "rmdir a",
            "rmdir ",
        ],
        describe(&transfer_plan(true, &listing(), true))
    );
}

#[test]
fn deletion_plan_of_file_and_directory() {
    assert_eq!(vec!["rm "], describe(&deletion_plan(false, &Vec::new())));
    assert_eq!(vec!["rm b.txt", "rm a/x.txt", "rmdir a", "rmdir "], describe(&deletion_plan(true, &listing())));
}
