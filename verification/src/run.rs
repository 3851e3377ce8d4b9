//! One invocation from start to finish: how it begins, what it prints and
//! what it opens.

use vstd::prelude::*;
use vstd::string::*;
use crate::cli::{Cli, CliView};
use crate::config::Config;
use crate::create::{
    create_paths, created_paths, lemma_plain_output_is_input, plain_targets, temp_entry,
    temp_entry_kind, temp_request, Target, TargetView, TempRequest, TempRequestView,
};
use crate::open::{
    open_steps, open_steps_of, CreatedPath, CreatedPathView, OpenStep, OpenStepView,
};

verus! {

/// The exit status of an invocation that names nothing to create.
pub const USAGE_EXIT_STATUS: i32 = 1;

/// How an invocation begins.
#[derive(Clone, Debug, PartialEq, Eq)]
pub enum Invocation {
    /// Nothing to create: the usage message goes to the error stream and the
    /// process exits with [`USAGE_EXIT_STATUS`]. The filesystem is left
    /// alone.
    Usage,
    /// Create these targets in order; their paths are the created paths.
    Create(Vec<Target>),
    /// Make this temp entry first; what follows depends on where it is.
    MakeTemp(TempRequest),
}

/// Model of an [`Invocation`].
pub enum InvocationView {
    Usage,
    Create(Seq<TargetView>),
    MakeTemp(TempRequestView),
}

impl View for Invocation {
    type V = InvocationView;

    open spec fn view(&self) -> InvocationView {
        match self {
            Invocation::Usage => InvocationView::Usage,
            Invocation::Create(targets) => InvocationView::Create(targets.deep_view()),
            Invocation::MakeTemp(request) => InvocationView::MakeTemp(request@),
        }
    }
}

/// How the invocation `cli` begins: in temp mode with a temp entry; outside
/// temp mode with the targets for its paths, or with the usage error where
/// it has none.
pub open spec fn invocation(cli: CliView, config: Option<Seq<char>>, root: Seq<char>)
    -> InvocationView {
    if cli.temp_mode {
        InvocationView::MakeTemp(
            temp_request(temp_entry_kind(cli.paths.len(), cli.dir_mode), config, root),
        )
    } else if cli.paths.len() == 0 {
        InvocationView::Usage
    } else {
        InvocationView::Create(plain_targets(cli.paths, cli.dir_mode))
    }
}

/// What goes to standard output once `created` exist: each created path on a
/// line of its own, in order, if printing is asked for or temp mode is on.
pub open spec fn printed(cli: CliView, created: Seq<TargetView>) -> Seq<Seq<char>> {
    if cli.print_path || cli.temp_mode {
        created_paths(created)
    } else {
        seq![]
    }
}

/// Decides how the invocation begins, given the configuration in force and
/// the system temp root.
pub fn begin(cli: &Cli, config: &Config, system_tmp: &str) -> (r: Invocation)
    ensures
        r@ == invocation(cli@, config@, system_tmp@),
{
    if cli.temp_mode {
        Invocation::MakeTemp(temp_entry(config, system_tmp, cli.paths.len(), cli.dir_mode))
    } else if cli.paths.len() == 0 {
        Invocation::Usage
    } else {
        Invocation::Create(create_paths(cli.paths.as_slice(), cli.dir_mode))
    }
}

/// Everything the opener does in the invocation `cli` once `created` exist:
/// nothing unless open mode is on and something was created.
pub open spec fn opened(
    cli: CliView,
    created: Seq<CreatedPathView>,
    editor: Option<Seq<char>>,
) -> Seq<OpenStepView> {
    if cli.open_mode() && created.len() > 0 {
        open_steps_of(created, cli.open_app(), editor)
    } else {
        Seq::empty()
    }
}

/// Decides what is opened, and how: the opener's steps where open mode is on
/// and something was created, else none. `editor` is the value of the
/// `EDITOR` environment variable where it is set.
pub fn opening(cli: &Cli, created: &[CreatedPath], editor: Option<String>) -> (steps: Vec<
    OpenStep,
>)
    ensures
        steps.deep_view() == if cli@.open_mode() && created.len() > 0 {
            open_steps_of(created.deep_view(), cli@.open_app(), editor.deep_view())
        } else {
            Seq::empty()
        },
        steps.deep_view() == opened(cli@, created.deep_view(), editor.deep_view()),
{
    if cli.open_mode() && created.len() > 0 {
        open_steps(created, cli.open_app(), editor)
    } else {
        let steps: Vec<OpenStep> = Vec::new();
        assert(steps.deep_view() =~= Seq::<OpenStepView>::empty());
        steps
    }
}

/// The lines for standard output once `created` exist.
pub fn stdout_lines(cli: &Cli, created: &[Target]) -> (lines: Vec<String>)
    ensures
        lines.deep_view() == printed(cli@, created.deep_view()),
{
    let mut lines: Vec<String> = Vec::new();
    if cli.print_path || cli.temp_mode {
        let mut i: usize = 0;
        while i < created.len()
            invariant
                i <= created.len(),
                lines.len() == i,
                forall|k: int| 0 <= k < i ==> lines[k]@ == created[k]@.path,
            decreases created.len() - i,
        {
            lines.push(created[i].path.clone());
            i += 1;
        }
    }
    assert(lines.deep_view() =~= printed(cli@, created.deep_view()));
    lines
}

/// The usage message.
pub const USAGE: &'static str = "slap: no paths provided
Usage: slap [OPTIONS] [PATHS]...

Options:
  -p          Print created paths to stdout
  -t          Create in a temporary directory
  -d          Create directories instead of files
  -o [APP]    Open created paths (with $EDITOR or specify app)

For more information, try 'slap --help'";

/// An invocation that names no path and is not in temp mode is the usage
/// error: it begins and ends with it, so nothing is created.
pub proof fn lemma_nothing_to_create_is_usage_error(
    cli: CliView,
    config: Option<Seq<char>>,
    root: Seq<char>,
)
    requires
        cli.paths.len() == 0,
        !cli.temp_mode,
    ensures
        invocation(cli, config, root) == InvocationView::Usage,
        USAGE_EXIT_STATUS == 1,
{
}

/// The usage error arises in no other way.
pub proof fn lemma_usage_error_only_for_nothing_to_create(
    cli: CliView,
    config: Option<Seq<char>>,
    root: Seq<char>,
)
    requires
        invocation(cli, config, root) == InvocationView::Usage,
    ensures
        cli.paths.len() == 0,
        !cli.temp_mode,
{
}

/// Outside temp mode, an invocation with paths creates exactly its paths:
/// as many as were given, in the order given, each as it was given.
pub proof fn lemma_plain_invocation_creates_its_paths(
    cli: CliView,
    config: Option<Seq<char>>,
    root: Seq<char>,
)
    requires
        !cli.temp_mode,
        cli.paths.len() > 0,
    ensures
        invocation(cli, config, root) is Create,
        invocation(cli, config, root)->Create_0.len() == cli.paths.len(),
        created_paths(invocation(cli, config, root)->Create_0) == cli.paths,
{
    lemma_plain_output_is_input(cli.paths, cli.dir_mode);
}

} // verus!
