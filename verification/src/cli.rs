//! The flags and paths of one invocation, already parsed.

use vstd::prelude::*;
use vstd::string::*;

verus! {

/// What one invocation asks for.
#[derive(Clone, Debug, PartialEq, Eq)]
pub struct Cli {
    /// Print the created paths.
    pub print_path: bool,
    /// Create under a fresh temporary directory.
    pub temp_mode: bool,
    /// Create directories instead of files.
    pub dir_mode: bool,
    /// Open what was created: `None` is no, `Some(None)` is with the editor,
    /// `Some(Some(app))` is with the application `app`.
    pub open_with: Option<Option<String>>,
    /// The paths to create, in order.
    pub paths: Vec<String>,
}

/// Model of a [`Cli`].
pub struct CliView {
    pub print_path: bool,
    pub temp_mode: bool,
    pub dir_mode: bool,
    pub open_with: Option<Option<Seq<char>>>,
    pub paths: Seq<Seq<char>>,
}

impl View for Cli {
    type V = CliView;

    open spec fn view(&self) -> CliView {
        CliView {
            print_path: self.print_path,
            temp_mode: self.temp_mode,
            dir_mode: self.dir_mode,
            open_with: self.open_with.deep_view(),
            paths: self.paths.deep_view(),
        }
    }
}

impl CliView {
    /// Open mode is on.
    pub open spec fn open_mode(self) -> bool {
        self.open_with is Some
    }

    /// The application to open with, where one is named.
    pub open spec fn open_app(self) -> Option<Seq<char>> {
        match self.open_with {
            Some(Some(app)) => Some(app),
            _ => None,
        }
    }
}

impl Cli {
    /// Whether open mode is on.
    pub fn open_mode(&self) -> (r: bool)
        ensures
            r == self@.open_mode(),
    {
        self.open_with.is_some()
    }

    /// The application to open with, where one is named.
    pub fn open_app(&self) -> (r: Option<String>)
        ensures
            r.deep_view() == self@.open_app(),
    {
        match &self.open_with {
            Some(Some(app)) => Some(app.clone()),
            _ => None,
        }
    }
}

} // verus!
