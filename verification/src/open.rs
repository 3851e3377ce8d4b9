//! The opener: what to warn about and what to launch.
//!
//! Created paths are handed to one program. Either a named application is
//! launched once for each path, or the editor is launched once with every
//! path as an argument. Before anything is launched, one warning is due for
//! each created path that turned out to be a directory.

use vstd::prelude::*;
use vstd::string::*;

verus! {

/// A created path, with what a look at the filesystem showed after creation.
#[derive(Clone, Debug, PartialEq, Eq)]
pub struct CreatedPath {
    pub path: String,
    /// Whether the path is a directory on disk.
    pub is_dir: bool,
}

/// Model of a [`CreatedPath`].
pub struct CreatedPathView {
    pub path: Seq<char>,
    pub is_dir: bool,
}

impl View for CreatedPath {
    type V = CreatedPathView;

    open spec fn view(&self) -> CreatedPathView {
        CreatedPathView { path: self.path@, is_dir: self.is_dir }
    }
}

impl DeepView for CreatedPath {
    type V = CreatedPathView;

    open spec fn deep_view(&self) -> CreatedPathView {
        self@
    }
}

/// One launch of an outside program, which is waited for.
#[derive(Clone, Debug, PartialEq, Eq)]
pub enum Launch {
    /// Open `path` with the application `app`.
    Application { app: String, path: String },
    /// Run the editor `program` with `args` as its arguments.
    Editor { program: String, args: Vec<String> },
}

/// Model of a [`Launch`].
pub enum LaunchView {
    Application { app: Seq<char>, path: Seq<char> },
    Editor { program: Seq<char>, args: Seq<Seq<char>> },
}

impl View for Launch {
    type V = LaunchView;

    open spec fn view(&self) -> LaunchView {
        match self {
            Launch::Application { app, path } => LaunchView::Application {
                app: app@,
                path: path@,
            },
            Launch::Editor { program, args } => LaunchView::Editor {
                program: program@,
                args: args.deep_view(),
            },
        }
    }
}

impl DeepView for Launch {
    type V = LaunchView;

    open spec fn deep_view(&self) -> LaunchView {
        self@
    }
}

/// One thing the opener does.
#[derive(Clone, Debug, PartialEq, Eq)]
pub enum OpenStep {
    /// Write this line to the error stream.
    Warn(String),
    /// Launch this, and stop with its error if it fails.
    Launch(Launch),
}

/// Model of an [`OpenStep`].
pub enum OpenStepView {
    Warn(Seq<char>),
    Launch(LaunchView),
}

impl View for OpenStep {
    type V = OpenStepView;

    open spec fn view(&self) -> OpenStepView {
        match self {
            OpenStep::Warn(line) => OpenStepView::Warn(line@),
            OpenStep::Launch(launch) => OpenStepView::Launch(launch@),
        }
    }
}

impl DeepView for OpenStep {
    type V = OpenStepView;

    open spec fn deep_view(&self) -> OpenStepView {
        self@
    }
}

/// The warning about the directory `path`.
pub open spec fn directory_warning(path: Seq<char>) -> Seq<char> {
    "warning: '"@ + path
        + "' is a directory; opening with editor may not work as expected"@
}

/// The warnings that `paths` call for: one for each directory, in the order
/// of the list.
pub open spec fn directory_warnings(paths: Seq<CreatedPathView>) -> Seq<Seq<char>> {
    paths.filter(|p: CreatedPathView| p.is_dir).map_values(
        |p: CreatedPathView| directory_warning(p.path),
    )
}

/// The editor to run: the one that the environment names, else `vi`.
pub open spec fn editor_program(editor: Option<Seq<char>>) -> Seq<char> {
    match editor {
        Some(program) => program,
        None => "vi"@,
    }
}

/// The launches that open `paths`: none for no paths; with an application,
/// one for each path in order; else one of the editor with all paths.
pub open spec fn launches(
    paths: Seq<Seq<char>>,
    app: Option<Seq<char>>,
    editor: Option<Seq<char>>,
) -> Seq<LaunchView> {
    if paths.len() == 0 {
        seq![]
    } else {
        match app {
            Some(app) => Seq::new(
                paths.len(),
                |i: int| LaunchView::Application { app, path: paths[i] },
            ),
            None => seq![LaunchView::Editor { program: editor_program(editor), args: paths }],
        }
    }
}

/// The text of each path, in order.
pub open spec fn path_texts(created: Seq<CreatedPathView>) -> Seq<Seq<char>> {
    Seq::new(created.len(), |i: int| created[i].path)
}

/// Everything the opener does for `created`, in order: first every warning,
/// then every launch.
pub open spec fn open_steps_of(
    created: Seq<CreatedPathView>,
    app: Option<Seq<char>>,
    editor: Option<Seq<char>>,
) -> Seq<OpenStepView> {
    directory_warnings(created).map_values(|line: Seq<char>| OpenStepView::Warn(line))
        + launches(path_texts(created), app, editor).map_values(
        |launch: LaunchView| OpenStepView::Launch(launch),
    )
}

/// The warning line about the directory `path`.
pub fn warning_line(path: &str) -> (r: String)
    ensures
        r@ == directory_warning(path@),
{
    let mut line = "warning: '".to_owned();
    line.append(path);
    line.append("' is a directory; opening with editor may not work as expected");
    line
}

/// What one more path at the end of the list adds to the warnings: its own
/// warning if it is a directory, else nothing.
pub proof fn lemma_warnings_of_longer_list(paths: Seq<CreatedPathView>, last: CreatedPathView)
    ensures
        directory_warnings(paths.push(last)) == if last.is_dir {
            directory_warnings(paths).push(directory_warning(last.path))
        } else {
            directory_warnings(paths)
        },
{
    let is_dir = |p: CreatedPathView| p.is_dir;
    reveal(Seq::filter);
    assert(paths.push(last).drop_last() =~= paths);
    if last.is_dir {
        assert(paths.push(last).filter(is_dir) == paths.filter(is_dir).push(last));
        assert(directory_warnings(paths.push(last)) =~= directory_warnings(paths).push(
            directory_warning(last.path),
        ));
    }
}

/// The warning lines for the created paths that are directories: one line
/// for each, in the order of the list. It never fails.
pub fn warn_about_directories(paths: &[CreatedPath]) -> (warnings: Vec<String>)
    ensures
        warnings.deep_view() == directory_warnings(paths.deep_view()),
{
    let ghost all = paths.deep_view();
    let mut warnings: Vec<String> = Vec::new();
    let mut i: usize = 0;
    while i < paths.len()
        invariant
            i <= paths.len(),
            all == paths.deep_view(),
            warnings.deep_view() == directory_warnings(all.take(i as int)),
        decreases paths.len() - i,
    {
        proof {
            lemma_warnings_of_longer_list(all.take(i as int), all[i as int]);
            assert(all.take(i + 1) =~= all.take(i as int).push(all[i as int]));
        }
        if paths[i].is_dir {
            let ghost before = warnings.deep_view();
            warnings.push(warning_line(paths[i].path.as_str()));
            assert(warnings.deep_view() =~= before.push(directory_warning(all[i as int].path)));
        }
        i += 1;
    }
    assert(all.take(i as int) =~= all);
    warnings
}

/// The editor to run, given the value of the `EDITOR` environment variable
/// where it is set.
pub fn resolve_editor(editor: Option<String>) -> (r: String)
    ensures
        r@ == editor_program(editor.deep_view()),
{
    match editor {
        Some(program) => program,
        None => "vi".to_owned(),
    }
}

/// The launches that open `paths` with the application `app` or, where none
/// is named, with the editor. No paths, no launch.
pub fn open_paths(paths: &[String], app: Option<String>, editor: Option<String>) -> (r: Vec<
    Launch,
>)
    ensures
        r.deep_view() == launches(paths.deep_view(), app.deep_view(), editor.deep_view()),
{
    let mut out: Vec<Launch> = Vec::new();
    if paths.len() == 0 {
        assert(out.deep_view() =~= launches(
            paths.deep_view(),
            app.deep_view(),
            editor.deep_view(),
        ));
        return out;
    }
    match app {
        Some(app) => {
            let mut i: usize = 0;
            while i < paths.len()
                invariant
                    i <= paths.len(),
                    out.len() == i,
                    forall|k: int|
                        0 <= k < i ==> out[k]@ == (LaunchView::Application {
                            app: app@,
                            path: paths[k]@,
                        }),
                decreases paths.len() - i,
            {
                out.push(Launch::Application { app: app.clone(), path: paths[i].clone() });
                i += 1;
            }
            assert(out.deep_view() =~= launches(
                paths.deep_view(),
                Some(app@),
                editor.deep_view(),
            ));
        },
        None => {
            let args = copy_texts(paths);
            out.push(Launch::Editor { program: resolve_editor(editor), args });
            assert(out.deep_view() =~= launches(paths.deep_view(), None, editor.deep_view()));
        },
    }
    out
}

/// A copy of `texts`.
pub fn copy_texts(texts: &[String]) -> (r: Vec<String>)
    ensures
        r.deep_view() == texts.deep_view(),
{
    let mut out: Vec<String> = Vec::new();
    let mut i: usize = 0;
    while i < texts.len()
        invariant
            i <= texts.len(),
            out.len() == i,
            forall|k: int| 0 <= k < i ==> out[k]@ == texts[k]@,
        decreases texts.len() - i,
    {
        out.push(texts[i].clone());
        i += 1;
    }
    assert(out.deep_view() =~= texts.deep_view());
    out
}

/// The text of each created path, in order.
pub fn created_texts(created: &[CreatedPath]) -> (r: Vec<String>)
    ensures
        r.deep_view() == path_texts(created.deep_view()),
{
    let mut out: Vec<String> = Vec::new();
    let mut i: usize = 0;
    while i < created.len()
        invariant
            i <= created.len(),
            out.len() == i,
            forall|k: int| 0 <= k < i ==> out[k]@ == created[k]@.path,
        decreases created.len() - i,
    {
        out.push(created[i].path.clone());
        i += 1;
    }
    assert(out.deep_view() =~= path_texts(created.deep_view()));
    out
}

/// Everything the opener does for the created paths, in order: the warnings
/// about directories first, then the launches.
pub fn open_steps(created: &[CreatedPath], app: Option<String>, editor: Option<String>) -> (steps:
    Vec<OpenStep>)
    ensures
        steps.deep_view() == open_steps_of(
            created.deep_view(),
            app.deep_view(),
            editor.deep_view(),
        ),
{
    let warnings = warn_about_directories(created);
    let paths = created_texts(created);
    let launches = open_paths(paths.as_slice(), app, editor);
    let ghost lines = warnings@;
    let ghost runs = launches@;
    let mut steps: Vec<OpenStep> = Vec::new();
    for line in it: warnings.into_iter()
        invariant
            it.seq() == lines,
            steps.len() == it.index(),
            forall|k: int| 0 <= k < steps.len() ==> steps[k]@ == OpenStepView::Warn(lines[k]@),
    {
        steps.push(OpenStep::Warn(line));
    }
    for launch in it: launches.into_iter()
        invariant
            it.seq() == runs,
            steps.len() == lines.len() + it.index(),
            forall|k: int| 0 <= k < lines.len() ==> steps[k]@ == OpenStepView::Warn(lines[k]@),
            forall|k: int|
                lines.len() <= k < steps.len() ==> steps[k]@ == OpenStepView::Launch(
                    runs[k - lines.len()]@,
                ),
    {
        steps.push(OpenStep::Launch(launch));
    }
    assert(steps.deep_view() =~= open_steps_of(
        created.deep_view(),
        app.deep_view(),
        editor.deep_view(),
    ));
    steps
}

/// Whether a program that ended with exit code `code` succeeded: only exit
/// code zero is success, and a program that ended without one failed.
pub fn exited_successfully(code: Option<i32>) -> (r: bool)
    ensures
        r == (code == Some(0i32)),
{
    match code {
        Some(c) => c == 0,
        None => false,
    }
}

/// The opener writes exactly one warning for each created path that is a
/// directory, in the order of the list, and all of them before it launches
/// anything: the warnings are the first steps, every later step is a launch.
pub proof fn lemma_warnings_precede_launches(
    created: Seq<CreatedPathView>,
    app: Option<Seq<char>>,
    editor: Option<Seq<char>>,
)
    ensures
        ({
            let steps = open_steps_of(created, app, editor);
            let directories = created.filter(|p: CreatedPathView| p.is_dir);
            &&& directories.len() <= steps.len()
            &&& forall|k: int|
                0 <= k < directories.len() ==> #[trigger] steps[k] == OpenStepView::Warn(
                    directory_warning(directories[k].path),
                )
            &&& forall|k: int|
                directories.len() <= k < steps.len() ==> #[trigger] steps[k] is Launch
        }),
{
}

/// The directories that are warned about are the created paths that are
/// directories, each once: none is left out and none is added.
pub proof fn lemma_warned_directories(created: Seq<CreatedPathView>, i: int)
    requires
        0 <= i < created.len(),
    ensures
        created[i].is_dir <==> created.filter(|p: CreatedPathView| p.is_dir).contains(
            created[i],
        ),
        created.filter(|p: CreatedPathView| p.is_dir).len() <= created.len(),
{
    let is_dir = |p: CreatedPathView| p.is_dir;
    created.lemma_filter_len(is_dir);
    if created[i].is_dir {
        created.lemma_filter_contains(is_dir, i);
    }
    if created.filter(is_dir).contains(created[i]) {
        let k = choose|k: int| 0 <= k < created.filter(is_dir).len() && created.filter(is_dir)[k] == created[i];
        created.lemma_filter_pred(is_dir, k);
    }
}

} // verus!
