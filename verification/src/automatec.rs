//! The configured command builder: carries the path of the external
//! automation executable beside the argument vector it assembles.
//!
//! Whether the configured path exists on disk, and whether it is a file, are
//! facts only the caller's pre-flight check can know; they are handed in as
//! plain values, and the contracts say exactly how they decide construction.

use vstd::prelude::*;

use crate::command_builder::{arg_views, handle_quoted, spec_quoted};
use crate::error::Error;

verus! {

/// The fall-back location of the external automation executable.
pub open spec fn default_exe_path() -> Seq<char> {
    "C:\\Program Files\\Blue Prism Limited\\Blue Prism Automate\\automatec.exe"@
}

/// Renders the fall-back executable path.
pub fn default_exe_path_text() -> (r: String)
    ensures
        r@ == default_exe_path(),
{
    String::from_str("C:\\Program Files\\Blue Prism Limited\\Blue Prism Automate\\automatec.exe")
}

/// Picks `path` when it names an existing file, the fall-back path otherwise.
pub fn handle_path(path: String, exists: bool, is_file: bool) -> (r: String)
    ensures
        exists && is_file ==> r@ == path@,
        !(exists && is_file) ==> r@ == default_exe_path(),
{
    if exists && is_file {
        path
    } else {
        default_exe_path_text()
    }
}

/// One fully assembled invocation of the external executable: where it lives
/// and the arguments it is given.
#[derive(Debug)]
pub struct AutomateC {
    pub exe_path: String,
    pub args: Vec<String>,
}

/// Builds an [`AutomateC`] invocation token by token.
#[derive(Debug)]
pub struct AutomateCBuilder {
    pub exe_path: Option<String>,
    pub args: Vec<String>,
}

impl AutomateCBuilder {
    /// Starts a builder for the executable at `exe_path`, or at the fall-back
    /// path when none is given.  `exists` and `is_file` report the caller's
    /// pre-flight check of the named path; a path that is missing or is not a
    /// file is refused, while the fall-back path is taken unchecked.
    pub fn new(exe_path: Option<String>, exists: bool, is_file: bool) -> (r: Result<
        AutomateCBuilder,
        Error,
    >)
        ensures
            r is Ok <==> (exe_path is None || (exists && is_file)),
            r is Ok ==> (r->Ok_0).args@.len() == 0,
            r is Ok ==> (r->Ok_0).exe_path is Some,
            r is Ok ==> (r->Ok_0).exe_path->0@ == (if exe_path is Some {
                exe_path->0@
            } else {
                default_exe_path()
            }),
            exe_path is Some && !exists ==> r == Err::<AutomateCBuilder, Error>(
                Error::AutomateCNotFound,
            ),
            exe_path is Some && exists && !is_file ==> (r matches Err(e) && e matches
                Error::AutomateC(p) && p == exe_path->0),
    {
        match exe_path {
            Some(path) => {
                if !exists {
                    Err(Error::AutomateCNotFound)
                } else if !is_file {
                    Err(Error::AutomateC(path))
                } else {
                    Ok(AutomateCBuilder { exe_path: Some(path), args: Vec::new() })
                }
            },
            None => Ok(
                AutomateCBuilder { exe_path: Some(default_exe_path_text()), args: Vec::new() },
            ),
        }
    }

    /// Appends the single-sign-on authentication flag.
    pub fn with_sso(self) -> (r: Self)
        ensures
            r.exe_path == self.exe_path,
            arg_views(r.args@) =~= arg_views(self.args@).push("/sso"@),
    {
        let mut b = self;
        b.args.push(String::from_str("/sso"));
        b
    }

    /// Appends the run flag and the (quoted if needed) job name.
    pub fn with_process(self, process: &str) -> (r: Self)
        ensures
            r.exe_path == self.exe_path,
            arg_views(r.args@) =~= arg_views(self.args@).push("/run"@).push(spec_quoted(process@)),
    {
        let mut b = self;
        b.args.push(String::from_str("/run"));
        b.args.push(handle_quoted(process));
        b
    }

    /// Appends the resource flag and the (quoted if needed) worker name.
    pub fn with_resource(self, resource: &str) -> (r: Self)
        ensures
            r.exe_path == self.exe_path,
            arg_views(r.args@) =~= arg_views(self.args@).push("/resource"@).push(
                spec_quoted(resource@),
            ),
    {
        let mut b = self;
        b.args.push(String::from_str("/resource"));
        b.args.push(handle_quoted(resource));
        b
    }

    /// Appends the user flag and the (quoted if needed) user name.
    pub fn with_user(self, user: &str) -> (r: Self)
        ensures
            r.exe_path == self.exe_path,
            arg_views(r.args@) =~= arg_views(self.args@).push("/user"@).push(spec_quoted(user@)),
    {
        let mut b = self;
        b.args.push(String::from_str("/user"));
        b.args.push(handle_quoted(user));
        b
    }

    /// Appends the password flag and the (quoted if needed) password.
    pub fn with_password(self, password: &str) -> (r: Self)
        ensures
            r.exe_path == self.exe_path,
            arg_views(r.args@) =~= arg_views(self.args@).push("/password"@).push(
                spec_quoted(password@),
            ),
    {
        let mut b = self;
        b.args.push(String::from_str("/password"));
        b.args.push(handle_quoted(password));
        b
    }

    /// Snapshots the invocation built so far; a builder without a configured
    /// path falls back to the default one.
    pub fn build(&self) -> (r: AutomateC)
        ensures
            r.exe_path@ == (if self.exe_path is Some {
                self.exe_path->0@
            } else {
                default_exe_path()
            }),
            arg_views(r.args@) =~= arg_views(self.args@),
    {
        let exe_path = match &self.exe_path {
            Some(p) => p.clone(),
            None => default_exe_path_text(),
        };
        let copy = self.args.clone();
        proof {
            assert forall|i: int| 0 <= i < self.args@.len() implies copy@[i]@ == self.args@[i]@ by {
                assert(cloned::<String>(self.args@[i], copy@[i]));
            }
        }
        AutomateC { exe_path, args: copy }
    }
}

} // verus!
