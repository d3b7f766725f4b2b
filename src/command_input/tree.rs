use vstd::prelude::*;

verus! {

/// One entry below the root of a directory tree: its path relative to the
/// root (names joined by `/`) and whether it is a directory.
#[derive(Debug)]
pub struct TreeEntry {
    pub rel: String,
    pub is_dir: bool,
}

/// One filesystem call of a recursive copy or removal. Each path is relative
/// to a root; the empty path is the root itself. A copy reads below the
/// source root and writes below the destination root.
#[derive(Debug)]
pub enum Step {
    MakeDir(String),
    CopyFile(String),
    RemoveFile(String),
    RemoveDir(String),
}

/// A step as a mathematical value.
pub enum StepModel {
    MakeDir(Seq<char>),
    CopyFile(Seq<char>),
    RemoveFile(Seq<char>),
    RemoveDir(Seq<char>),
}

impl View for Step {
    type V = StepModel;

    open spec fn view(&self) -> StepModel {
        match self {
            Step::MakeDir(p) => StepModel::MakeDir(p@),
            Step::CopyFile(p) => StepModel::CopyFile(p@),
            Step::RemoveFile(p) => StepModel::RemoveFile(p@),
            Step::RemoveDir(p) => StepModel::RemoveDir(p@),
        }
    }
}

/// The steps as mathematical values.
pub open spec fn steps_view(steps: Seq<Step>) -> Seq<StepModel> {
    steps.map_values(|s: Step| s@)
}

/// The step that copies one entry: a directory is made, a file copied.
pub open spec fn copy_step(e: TreeEntry) -> StepModel {
    if e.is_dir {
        StepModel::MakeDir(e.rel@)
    } else {
        StepModel::CopyFile(e.rel@)
    }
}

/// The step that removes one entry, once whatever it holds is gone.
pub open spec fn remove_step(e: TreeEntry) -> StepModel {
    if e.is_dir {
        StepModel::RemoveDir(e.rel@)
    } else {
        StepModel::RemoveFile(e.rel@)
    }
}

/// A recursive copy of a tree whose entries are listed in `es`: the
/// destination root first, then each entry in the order of the listing.
pub open spec fn copy_plan_of(es: Seq<TreeEntry>) -> Seq<StepModel> {
    seq![StepModel::MakeDir(Seq::empty())] + es.map_values(|e: TreeEntry| copy_step(e))
}

/// A recursive removal of a tree whose entries are listed in `es`: each entry
/// in the reverse order of the listing, then the root.
pub open spec fn removal_plan_of(es: Seq<TreeEntry>) -> Seq<StepModel> {
    Seq::new(es.len(), |i: int| remove_step(es[es.len() - 1 - i])) + seq![
        StepModel::RemoveDir(Seq::empty()),
    ]
}

/// Whether path `a` lies strictly inside directory path `d` (every path lies
/// inside the root, the empty path).
pub open spec fn lies_within(a: Seq<char>, d: Seq<char>) -> bool {
    if d.len() == 0 {
        a.len() > 0
    } else {
        a.len() > d.len() && a.take(d.len() as int) == d && a[d.len() as int] == '/'
    }
}

/// A listing in which every directory comes before what lies within it, as a
/// depth-first walk lists a tree.
pub open spec fn parents_first(es: Seq<TreeEntry>) -> bool {
    forall|i: int, j: int|
        0 <= i < es.len() && 0 <= j < es.len() && es[i].is_dir && lies_within(es[j].rel@, es[i].rel@)
            ==> i < j
}

/// The path that a step acts on.
pub open spec fn step_path(s: StepModel) -> Seq<char> {
    match s {
        StepModel::MakeDir(p) => p,
        StepModel::CopyFile(p) => p,
        StepModel::RemoveFile(p) => p,
        StepModel::RemoveDir(p) => p,
    }
}

/// The steps of a recursive copy of the tree listed in `entries`.
pub fn copy_plan(entries: &Vec<TreeEntry>) -> (r: Vec<Step>)
    ensures
        steps_view(r@) == copy_plan_of(entries@),
{
    let mut steps: Vec<Step> = Vec::new();
    steps.push(Step::MakeDir(String::new()));
    let mut i: usize = 0;
    while i < entries.len()
        invariant
            i <= entries@.len(),
            steps_view(steps@) == copy_plan_of(entries@.take(i as int)),
        decreases entries@.len() - i,
    {
        let e = &entries[i];
        let ghost before = steps@;
        if e.is_dir {
            steps.push(Step::MakeDir(e.rel.clone()));
        } else {
            steps.push(Step::CopyFile(e.rel.clone()));
        }
        assert(steps_view(steps@) =~= steps_view(before).push(copy_step(*e)));
        assert(entries@.take(i + 1) =~= entries@.take(i as int).push(*e));
        assert(copy_plan_of(entries@.take(i + 1)) =~= copy_plan_of(entries@.take(i as int)).push(
            copy_step(*e),
        ));
        i = i + 1;
    }
    assert(entries@.take(entries@.len() as int) =~= entries@);
    steps
}

/// The steps of a recursive removal of the tree listed in `entries`.
pub fn removal_plan(entries: &Vec<TreeEntry>) -> (r: Vec<Step>)
    ensures
        steps_view(r@) == removal_plan_of(entries@),
{
    let n = entries.len();
    let mut steps: Vec<Step> = Vec::new();
    let mut i: usize = 0;
    while i < n
        invariant
            n == entries@.len(),
            i <= n,
            steps_view(steps@) =~= Seq::new(i as nat, |k: int| remove_step(entries@[n - 1 - k])),
        decreases n - i,
    {
        let e = &entries[n - 1 - i];
        let ghost before = steps@;
        if e.is_dir {
            steps.push(Step::RemoveDir(e.rel.clone()));
        } else {
            steps.push(Step::RemoveFile(e.rel.clone()));
        }
        assert(steps_view(steps@) =~= steps_view(before).push(remove_step(*e)));
        i = i + 1;
    }
    let ghost before = steps@;
    steps.push(Step::RemoveDir(String::new()));
    assert(steps_view(steps@) =~= steps_view(before).push(StepModel::RemoveDir(Seq::empty())));
    assert(steps_view(steps@) =~= removal_plan_of(entries@));
    steps
}

/// A recursive copy makes the destination root, then makes every directory
/// and copies every file of the listing under its own relative path, and a
/// directory is made before anything that lies within it.
pub proof fn copy_plan_keeps_names(es: Seq<TreeEntry>)
    requires
        parents_first(es),
    ensures
        copy_plan_of(es).len() == es.len() + 1,
        copy_plan_of(es)[0] == StepModel::MakeDir(Seq::<char>::empty()),
        forall|i: int| 0 <= i < es.len() ==> #[trigger] copy_plan_of(es)[i + 1] == copy_step(es[i]),
        forall|a: int, b: int|
            0 <= a < copy_plan_of(es).len() && 0 <= b < copy_plan_of(es).len()
                && copy_plan_of(es)[a] is MakeDir && lies_within(
                step_path(copy_plan_of(es)[b]),
                step_path(copy_plan_of(es)[a]),
            ) ==> a < b,
{
    let p = copy_plan_of(es);
    assert forall|a: int, b: int|
        0 <= a < p.len() && 0 <= b < p.len() && p[a] is MakeDir && lies_within(
            step_path(p[b]),
            step_path(p[a]),
        ) implies a < b by {
        if a > 0 && b > 0 {
            assert(p[a] == copy_step(es[a - 1]));
            assert(p[b] == copy_step(es[b - 1]));
        } else if b == 0 {
            assert(step_path(p[b]).len() == 0);
        }
    }
}

/// A recursive removal removes every entry of the listing and the root last,
/// and removes a directory only after everything that lies within it.
pub proof fn removal_plan_children_first(es: Seq<TreeEntry>)
    requires
        parents_first(es),
    ensures
        removal_plan_of(es).len() == es.len() + 1,
        removal_plan_of(es)[es.len() as int] == StepModel::RemoveDir(Seq::<char>::empty()),
        forall|i: int|
            0 <= i < es.len() ==> #[trigger] removal_plan_of(es)[es.len() - 1 - i] == remove_step(es[i]),
        forall|a: int, b: int|
            0 <= a < removal_plan_of(es).len() && 0 <= b < removal_plan_of(es).len()
                && removal_plan_of(es)[a] is RemoveDir && lies_within(
                step_path(removal_plan_of(es)[b]),
                step_path(removal_plan_of(es)[a]),
            ) ==> b < a,
{
    let p = removal_plan_of(es);
    let n = es.len() as int;
    assert forall|i: int| 0 <= i < n implies #[trigger] p[n - 1 - i] == remove_step(es[i]) by {
        assert(es[n - 1 - (n - 1 - i)] == es[i]);
    }
    assert forall|a: int, b: int|
        0 <= a < p.len() && 0 <= b < p.len() && p[a] is RemoveDir && lies_within(
            step_path(p[b]),
            step_path(p[a]),
        ) implies b < a by {
        if a < n && b < n {
            assert(p[a] == remove_step(es[n - 1 - a]));
            assert(p[b] == remove_step(es[n - 1 - b]));
        } else if b == n {
            assert(step_path(p[b]).len() == 0);
        }
    }
}

/// Whether a step writes below the destination (makes a directory or copies
/// a file) rather than removing below the source.
pub open spec fn is_copy_step(s: StepModel) -> bool {
    s is MakeDir || s is CopyFile
}

/// The removal of an entry: a file is the root itself; a directory goes with
/// everything listed in `es`.
pub open spec fn deletion_plan_of(is_dir: bool, es: Seq<TreeEntry>) -> Seq<StepModel> {
    if is_dir {
        removal_plan_of(es)
    } else {
        seq![StepModel::RemoveFile(Seq::empty())]
    }
}

/// Bringing an entry over: a file is copied as the root itself, a directory
/// with everything listed in `es`; for a move the source is removed after.
pub open spec fn transfer_plan_of(is_dir: bool, es: Seq<TreeEntry>, remove_source: bool) -> Seq<StepModel> {
    let copy = if is_dir {
        copy_plan_of(es)
    } else {
        seq![StepModel::CopyFile(Seq::empty())]
    };
    if remove_source {
        copy + deletion_plan_of(is_dir, es)
    } else {
        copy
    }
}

/// The steps that remove an entry, a directory whose tree is listed in
/// `entries` or else a file.
pub fn deletion_plan(is_dir: bool, entries: &Vec<TreeEntry>) -> (r: Vec<Step>)
    ensures
        steps_view(r@) == deletion_plan_of(is_dir, entries@),
{
    if is_dir {
        removal_plan(entries)
    } else {
        let r = vec![Step::RemoveFile(String::new())];
        assert(steps_view(r@) =~= deletion_plan_of(is_dir, entries@));
        r
    }
}

/// The steps that copy an entry, a directory whose tree is listed in
/// `entries` or else a file, and for a move then remove the source. Every
/// removal comes after every copy, so a failure part way leaves the source
/// whole.
pub fn transfer_plan(is_dir: bool, entries: &Vec<TreeEntry>, remove_source: bool) -> (r: Vec<Step>)
    ensures
        steps_view(r@) == transfer_plan_of(is_dir, entries@, remove_source),
        forall|i: int, j: int|
            0 <= i < j < r@.len() && !is_copy_step(#[trigger] steps_view(r@)[i]) ==> !is_copy_step(
                #[trigger] steps_view(r@)[j],
            ),
{
    let mut r = if is_dir {
        copy_plan(entries)
    } else {
        let c = vec![Step::CopyFile(String::new())];
        assert(steps_view(c@) =~= seq![StepModel::CopyFile(Seq::<char>::empty())]);
        c
    };
    let ghost copy = steps_view(r@);
    assert forall|k: int| 0 <= k < copy.len() implies is_copy_step(#[trigger] copy[k]) by {
        if is_dir && k > 0 {
            assert(copy[k] == copy_step(entries@[k - 1]));
        }
    }
    if remove_source {
        let mut removal = deletion_plan(is_dir, entries);
        let ghost rem = steps_view(removal@);
        assert forall|k: int| 0 <= k < rem.len() implies !is_copy_step(#[trigger] rem[k]) by {
            if is_dir && k < entries@.len() {
                assert(rem[k] == remove_step(entries@[entries@.len() - 1 - k]));
            }
        }
        let ghost before = r@;
        let ghost other = removal@;
        r.append(&mut removal);
        assert(steps_view(r@) =~= copy + rem) by {
            assert(r@ =~= before + other);
        }
    }
    r
}

} // verus!
