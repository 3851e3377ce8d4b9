//! The path planner: which entries to create, where, and in what order.
//!
//! Each listed path becomes one [`Target`], in the order of the list. A target
//! says whether the path is to be a directory or a file, and for a file which
//! directory has to be created first. Whether a path is a directory is decided
//! from the flag and the text alone, never from what is on disk.

use vstd::prelude::*;
use vstd::string::*;
use crate::config::Config;
use crate::path::{
    ends_with_separator, has_leading_separator, has_trailing_separator, join, joined,
    lemma_placed_below_begins_with_base, lemma_without_leading_separators, parent, path_parent,
    place_below, placed_below, same_text, strip_leading_separator, without_leading_separator,
    without_leading_separators, SEPARATOR,
};

verus! {

/// The two kinds of filesystem entry that are created.
#[derive(Clone, Copy, Debug, PartialEq, Eq, Structural)]
pub enum EntryKind {
    File,
    Directory,
}

/// How the path of a target comes to exist.
#[derive(Clone, Debug, PartialEq, Eq)]
pub enum Creation {
    /// Create the directory and every missing ancestor.
    Directory,
    /// Create `parent` and every missing ancestor of it, where there is one,
    /// then create the file, emptying it if it exists already.
    File { parent: Option<String> },
    /// The path is the fresh temp entry itself: it exists, nothing is left to
    /// do.
    TempEntry,
}

/// Model of a [`Creation`].
pub enum CreationView {
    Directory,
    File { parent: Option<Seq<char>> },
    TempEntry,
}

impl View for Creation {
    type V = CreationView;

    open spec fn view(&self) -> CreationView {
        match self {
            Creation::Directory => CreationView::Directory,
            Creation::File { parent } => CreationView::File { parent: parent.deep_view() },
            Creation::TempEntry => CreationView::TempEntry,
        }
    }
}

/// One path to create, which is also one path of the output.
#[derive(Clone, Debug, PartialEq, Eq)]
pub struct Target {
    /// The path, as given or as placed below the temp base; never
    /// canonicalized.
    pub path: String,
    pub how: Creation,
}

/// Model of a [`Target`].
pub struct TargetView {
    pub path: Seq<char>,
    pub how: CreationView,
}

impl View for Target {
    type V = TargetView;

    open spec fn view(&self) -> TargetView {
        TargetView { path: self.path@, how: self.how@ }
    }
}

impl DeepView for Target {
    type V = TargetView;

    open spec fn deep_view(&self) -> TargetView {
        self@
    }
}

/// One filesystem operation.
#[derive(Clone, Debug, PartialEq, Eq)]
pub enum FsStep {
    /// Create a directory and every missing ancestor; an existing directory
    /// is no error.
    CreateDirAll(String),
    /// Create a file, or empty it if it exists.
    CreateFile(String),
}

/// Model of an [`FsStep`].
pub enum FsStepView {
    CreateDirAll(Seq<char>),
    CreateFile(Seq<char>),
}

impl View for FsStep {
    type V = FsStepView;

    open spec fn view(&self) -> FsStepView {
        match self {
            FsStep::CreateDirAll(dir) => FsStepView::CreateDirAll(dir@),
            FsStep::CreateFile(file) => FsStepView::CreateFile(file@),
        }
    }
}

impl DeepView for FsStep {
    type V = FsStepView;

    open spec fn deep_view(&self) -> FsStepView {
        self@
    }
}

/// A request for one fresh, uniquely named temp entry that is kept when the
/// process exits.
#[derive(Clone, Debug, PartialEq, Eq)]
pub struct TempRequest {
    pub kind: EntryKind,
    /// The temp base: the directory in which the entry is made.
    pub base: String,
    /// Whether the temp base is a configured subdirectory, to be created with
    /// its missing ancestors before the entry is made.
    pub create_base: bool,
}

/// Model of a [`TempRequest`].
pub struct TempRequestView {
    pub kind: EntryKind,
    pub base: Seq<char>,
    pub create_base: bool,
}

impl View for TempRequest {
    type V = TempRequestView;

    open spec fn view(&self) -> TempRequestView {
        TempRequestView { kind: self.kind, base: self.base@, create_base: self.create_base }
    }
}

/// A path is a directory target if directory mode is on or its text ends in
/// the separator.
pub open spec fn is_directory_target(path: Seq<char>, dir_mode: bool) -> bool {
    dir_mode || has_trailing_separator(path)
}

/// `dir` is the empty path or `.`: either way the current directory.
pub open spec fn is_current_directory(dir: Seq<char>) -> bool {
    dir.len() == 0 || dir == seq!['.']
}

/// The directory to create before a file whose parent is `parent`: the parent
/// itself, unless there is none, it is the current directory, or it is the
/// temp base `base`, which exists.
pub open spec fn parent_needing_creation(
    parent: Option<Seq<char>>,
    base: Option<Seq<char>>,
) -> Option<Seq<char>> {
    match parent {
        Some(dir) => if is_current_directory(dir) || base == Some(dir) {
            None
        } else {
            Some(dir)
        },
        None => None,
    }
}

/// The target at `full` for the path given as `given`. The kind follows from
/// the text as given.
pub open spec fn target_for(
    given: Seq<char>,
    full: Seq<char>,
    dir_mode: bool,
    base: Option<Seq<char>>,
) -> TargetView {
    TargetView {
        path: full,
        how: if is_directory_target(given, dir_mode) {
            CreationView::Directory
        } else {
            CreationView::File { parent: parent_needing_creation(path_parent(full), base) }
        },
    }
}

/// The targets of an invocation outside temp mode: one for each path, where
/// it was given.
pub open spec fn plain_targets(paths: Seq<Seq<char>>, dir_mode: bool) -> Seq<TargetView> {
    Seq::new(paths.len(), |i: int| target_for(paths[i], paths[i], dir_mode, None))
}

/// The targets of an invocation in temp mode, once the temp entry exists at
/// `entry`: the entry alone where no path was given, else one target for each
/// path, placed below the entry. A path given as absolute is placed below the
/// entry like any other, without its leading separators.
pub open spec fn temp_targets(entry: Seq<char>, paths: Seq<Seq<char>>, dir_mode: bool) -> Seq<
    TargetView,
> {
    if paths.len() == 0 {
        seq![TargetView { path: entry, how: CreationView::TempEntry }]
    } else {
        Seq::new(
            paths.len(),
            |i: int| target_for(paths[i], placed_below(entry, paths[i]), dir_mode, Some(entry)),
        )
    }
}

/// The created paths: the path of each target, in order.
pub open spec fn created_paths(targets: Seq<TargetView>) -> Seq<Seq<char>> {
    Seq::new(targets.len(), |i: int| targets[i].path)
}

/// The filesystem operations that carry out one target, in order.
pub open spec fn steps_of(target: TargetView) -> Seq<FsStepView> {
    match target.how {
        CreationView::Directory => seq![FsStepView::CreateDirAll(target.path)],
        CreationView::File { parent: Some(dir) } => seq![
            FsStepView::CreateDirAll(dir),
            FsStepView::CreateFile(target.path),
        ],
        CreationView::File { parent: None } => seq![FsStepView::CreateFile(target.path)],
        CreationView::TempEntry => seq![],
    }
}

/// The temp base: the configured subdirectory of the system temp root
/// `root`, its name taken without one leading separator, or `root` itself
/// where none is configured.
pub open spec fn resolved_temp_base(config: Option<Seq<char>>, root: Seq<char>) -> Seq<char> {
    match config {
        Some(name) => joined(root, without_leading_separator(name)),
        None => root,
    }
}

/// The request for a temp entry of kind `kind`.
pub open spec fn temp_request(kind: EntryKind, config: Option<Seq<char>>, root: Seq<char>)
    -> TempRequestView {
    TempRequestView {
        kind,
        base: resolved_temp_base(config, root),
        create_base: config is Some,
    }
}

/// The kind of temp entry that temp mode starts with: a file where no path
/// was given and directory mode is off, else a directory.
pub open spec fn temp_entry_kind(path_count: nat, dir_mode: bool) -> EntryKind {
    if path_count == 0 && !dir_mode {
        EntryKind::File
    } else {
        EntryKind::Directory
    }
}

/// Whether `path` is to be created as a directory: directory mode is on, or
/// the path ends in the separator.
pub fn is_dir_path(path: &str, dir_mode: bool) -> (r: bool)
    ensures
        r == is_directory_target(path@, dir_mode),
{
    dir_mode || ends_with_separator(path)
}

/// Whether `dir` is the empty path or `.`.
pub fn names_current_directory(dir: &str) -> (r: bool)
    ensures
        r == is_current_directory(dir@),
{
    let n: usize = dir.unicode_len();
    if n == 0 {
        true
    } else if n == 1 {
        let dot = dir.get_char(0) == '.';
        assert(dot <==> dir@ =~= seq!['.']);
        dot
    } else {
        false
    }
}

/// Given the parent of a file's path, the directory to create before the
/// file: the parent, unless it is absent, the current directory, or the temp
/// base.
pub fn parent_to_create(parent: Option<String>, base: Option<&str>) -> (r: Option<String>)
    ensures
        r.deep_view() == parent_needing_creation(parent.deep_view(), base.deep_view()),
{
    match parent {
        Some(dir) => {
            let is_base = match base {
                Some(b) => same_text(dir.as_str(), b),
                None => false,
            };
            if names_current_directory(dir.as_str()) || is_base {
                None
            } else {
                Some(dir)
            }
        },
        None => None,
    }
}

/// The directory to create, with its missing ancestors, before a file can be
/// created at `path`, if there is one. `base` is the temp base in temp mode.
pub fn ensure_parent_exists(path: &str, base: Option<&str>) -> (r: Option<String>)
    ensures
        r.deep_view() == parent_needing_creation(path_parent(path@), base.deep_view()),
{
    parent_to_create(parent(path), base)
}

/// The target at `full` for the path given as `given`.
pub fn plan_target(given: &str, full: String, dir_mode: bool, base: Option<&str>) -> (r: Target)
    ensures
        r@ == target_for(given@, full@, dir_mode, base.deep_view()),
{
    let how = if is_dir_path(given, dir_mode) {
        Creation::Directory
    } else {
        Creation::File { parent: ensure_parent_exists(full.as_str(), base) }
    };
    Target { path: full, how }
}

/// Plans the creation of `paths` where they are given: one target for each
/// path, in the order of the list.
pub fn create_paths(paths: &[String], dir_mode: bool) -> (created: Vec<Target>)
    ensures
        created.deep_view() == plain_targets(paths.deep_view(), dir_mode),
        created.len() == paths.len(),
        created_paths(created.deep_view()) == paths.deep_view(),
{
    let mut created: Vec<Target> = Vec::new();
    let mut i: usize = 0;
    while i < paths.len()
        invariant
            i <= paths.len(),
            created.len() == i,
            forall|k: int|
                0 <= k < i ==> created[k]@ == target_for(paths[k]@, paths[k]@, dir_mode, None),
        decreases paths.len() - i,
    {
        let path = &paths[i];
        created.push(plan_target(path.as_str(), path.clone(), dir_mode, None));
        i += 1;
    }
    assert(created.deep_view() =~= plain_targets(paths.deep_view(), dir_mode));
    proof {
        lemma_plain_output_is_input(paths.deep_view(), dir_mode);
    }
    created
}

/// Plans the rest of a temp-mode invocation, once the temp entry exists at
/// `entry`. Where no path was given the entry is the one created path.
/// Otherwise the entry is the base directory: each path is placed below it
/// and planned as outside temp mode, in the order of the list. Every created
/// path begins with the base.
pub fn create_temp_paths(entry: &str, paths: &[String], dir_mode: bool) -> (created: Vec<Target>)
    ensures
        created.deep_view() == temp_targets(entry@, paths.deep_view(), dir_mode),
        forall|i: int| 0 <= i < created.len() ==> entry@.is_prefix_of(#[trigger] created[i].path@),
{
    let mut created: Vec<Target> = Vec::new();
    if paths.len() == 0 {
        created.push(Target { path: entry.to_owned(), how: Creation::TempEntry });
        assert(created.deep_view() =~= temp_targets(entry@, paths.deep_view(), dir_mode));
    } else {
        let mut i: usize = 0;
        while i < paths.len()
            invariant
                i <= paths.len(),
                created.len() == i,
                forall|k: int|
                    0 <= k < i ==> created[k]@ == target_for(
                        paths[k]@,
                        placed_below(entry@, paths[k]@),
                        dir_mode,
                        Some(entry@),
                    ),
            decreases paths.len() - i,
        {
            let path = &paths[i];
            let full = place_below(entry, path.as_str());
            created.push(plan_target(path.as_str(), full, dir_mode, Some(entry)));
            i += 1;
        }
        assert(created.deep_view() =~= temp_targets(entry@, paths.deep_view(), dir_mode));
        assert forall|i: int| 0 <= i < created.len() implies entry@.is_prefix_of(
            #[trigger] created[i].path@,
        ) by {
            lemma_placed_below_begins_with_base(entry@, paths[i]@);
        }
    }
    created
}

/// The request for a temp entry of kind `kind` in the temp base that `config`
/// and the system temp root `system_tmp` resolve to.
pub fn request_temp_entry(kind: EntryKind, config: &Config, system_tmp: &str) -> (r: TempRequest)
    ensures
        r@ == temp_request(kind, config@, system_tmp@),
{
    match &config.tmpdir {
        Some(name) => TempRequest {
            kind,
            base: join(system_tmp, strip_leading_separator(name.as_str())),
            create_base: true,
        },
        None => TempRequest { kind, base: system_tmp.to_owned(), create_base: false },
    }
}

/// The request for a fresh temp directory.
pub fn create_temp_dir(config: &Config, system_tmp: &str) -> (r: TempRequest)
    ensures
        r@ == temp_request(EntryKind::Directory, config@, system_tmp@),
{
    request_temp_entry(EntryKind::Directory, config, system_tmp)
}

/// The request for a fresh temp file.
pub fn create_temp_file(config: &Config, system_tmp: &str) -> (r: TempRequest)
    ensures
        r@ == temp_request(EntryKind::File, config@, system_tmp@),
{
    request_temp_entry(EntryKind::File, config, system_tmp)
}

/// The temp entry that a temp-mode invocation starts with: a file where no
/// path was given and directory mode is off, else a directory.
pub fn temp_entry(config: &Config, system_tmp: &str, path_count: usize, dir_mode: bool) -> (r:
    TempRequest)
    ensures
        r@ == temp_request(temp_entry_kind(path_count as nat, dir_mode), config@, system_tmp@),
{
    if path_count == 0 && !dir_mode {
        create_temp_file(config, system_tmp)
    } else {
        create_temp_dir(config, system_tmp)
    }
}

impl Target {
    /// The filesystem operations that carry this target out, in order: the
    /// directory that a file needs is created before the file.
    pub fn steps(&self) -> (r: Vec<FsStep>)
        ensures
            r.deep_view() == steps_of(self@),
    {
        let mut steps: Vec<FsStep> = Vec::new();
        match &self.how {
            Creation::Directory => {
                steps.push(FsStep::CreateDirAll(self.path.clone()));
            },
            Creation::File { parent } => {
                if let Some(dir) = parent {
                    steps.push(FsStep::CreateDirAll(dir.clone()));
                }
                steps.push(FsStep::CreateFile(self.path.clone()));
            },
            Creation::TempEntry => {},
        }
        assert(steps.deep_view() =~= steps_of(self@));
        steps
    }
}

/// Outside temp mode the created paths are the given paths: as many of them,
/// in the same order, each as it was given.
pub proof fn lemma_plain_output_is_input(paths: Seq<Seq<char>>, dir_mode: bool)
    ensures
        plain_targets(paths, dir_mode).len() == paths.len(),
        created_paths(plain_targets(paths, dir_mode)) == paths,
{
    assert(created_paths(plain_targets(paths, dir_mode)) =~= paths);
}

/// A path that ends in the separator is a directory target, whatever
/// directory mode says, and wherever it is placed.
pub proof fn lemma_trailing_separator_is_directory(
    given: Seq<char>,
    full: Seq<char>,
    dir_mode: bool,
    base: Option<Seq<char>>,
)
    requires
        has_trailing_separator(given),
    ensures
        is_directory_target(given, dir_mode),
        target_for(given, full, dir_mode, base).how == CreationView::Directory,
        steps_of(target_for(given, full, dir_mode, base)) == seq![FsStepView::CreateDirAll(full)],
{
}

/// Whether a path is a directory target depends on that path and the flag
/// alone: the target for a path is the same at every place of every list.
pub proof fn lemma_classification_ignores_order(
    paths: Seq<Seq<char>>,
    others: Seq<Seq<char>>,
    dir_mode: bool,
    i: int,
    j: int,
)
    requires
        0 <= i < paths.len(),
        0 <= j < others.len(),
        paths[i] == others[j],
    ensures
        plain_targets(paths, dir_mode)[i] == plain_targets(others, dir_mode)[j],
{
}

/// A file whose parent is absent, empty or `.` is created without any
/// directory being created first; any other parent is created before the
/// file, unless it is the temp base.
pub proof fn lemma_parent_creation(path: Seq<char>, base: Option<Seq<char>>)
    ensures
        ({
            let parent = path_parent(path);
            let target = target_for(path, path, false, base);
            if has_trailing_separator(path) {
                target.how == CreationView::Directory
            } else if parent is None || is_current_directory(parent->0) || base == parent {
                steps_of(target) == seq![FsStepView::CreateFile(path)]
            } else {
                steps_of(target) == seq![
                    FsStepView::CreateDirAll(parent->0),
                    FsStepView::CreateFile(path),
                ]
            }
        }),
{
}

/// Temp mode with no path and directory mode off asks for one temp file in
/// the resolved temp base, and that file is the one created path; no further
/// filesystem operation follows.
pub proof fn lemma_bare_temp_mode_makes_one_file(
    config: Option<Seq<char>>,
    root: Seq<char>,
    entry: Seq<char>,
)
    ensures
        temp_request(temp_entry_kind(0, false), config, root) == (TempRequestView {
            kind: EntryKind::File,
            base: resolved_temp_base(config, root),
            create_base: config is Some,
        }),
        temp_targets(entry, Seq::empty(), false).len() == 1,
        created_paths(temp_targets(entry, Seq::empty(), false)) == seq![entry],
        steps_of(temp_targets(entry, Seq::empty(), false)[0]) == Seq::<FsStepView>::empty(),
{
    assert(created_paths(temp_targets(entry, Seq::empty(), false)) =~= seq![entry]);
}

/// In temp mode every created path descends from the one base, whatever
/// the given paths hold: it begins with the base. With paths given, the
/// created path is the base, then one separator unless the base is empty or
/// ends in one, then the given path without its leading separators.
pub proof fn lemma_temp_paths_descend_from_base(
    base: Seq<char>,
    paths: Seq<Seq<char>>,
    dir_mode: bool,
    i: int,
)
    requires
        0 <= i < temp_targets(base, paths, dir_mode).len(),
    ensures
        base.is_prefix_of(created_paths(temp_targets(base, paths, dir_mode))[i]),
        paths.len() > 0 ==> {
            let created = created_paths(temp_targets(base, paths, dir_mode));
            &&& created.len() == paths.len()
            &&& created[i] == placed_below(base, paths[i])
            &&& without_leading_separators(paths[i]).is_suffix_of(created[i])
            &&& created[i].len() <= base.len() + 1 + paths[i].len()
        },
{
    if paths.len() > 0 {
        lemma_placed_below_begins_with_base(base, paths[i]);
        lemma_without_leading_separators(paths[i]);
    } else {
        assert(base.subrange(0, base.len() as int) =~= base);
    }
}

/// In temp mode with paths given, the base directory is among the created
/// paths only where a given path asks for it by naming nothing below it: the
/// empty path, or one made of separators alone.
pub proof fn lemma_temp_base_listed_only_on_request(
    base: Seq<char>,
    paths: Seq<Seq<char>>,
    dir_mode: bool,
    i: int,
)
    requires
        0 <= i < paths.len(),
        created_paths(temp_targets(base, paths, dir_mode))[i] == base,
    ensures
        without_leading_separators(paths[i]).len() == 0,
{
    lemma_placed_below_begins_with_base(base, paths[i]);
}

/// One leading separator of the configured name is dropped before the name
/// is joined to the system temp root, and no more than one: a name written
/// with a separator in front resolves like the name without it.
pub proof fn lemma_one_leading_separator_is_stripped(name: Seq<char>, root: Seq<char>)
    ensures
        resolved_temp_base(Some(seq![SEPARATOR] + name), root) == joined(root, name),
        !has_leading_separator(name) ==> resolved_temp_base(Some(name), root) == joined(
            root,
            name,
        ),
{
    let written = seq![SEPARATOR] + name;
    assert(written.subrange(1, written.len() as int) =~= name);
}

} // verus!
