//! The plain command builder: assembles the ordered argument vector for one
//! invocation of the external automation executable.
//!
//! Every caller-supplied token (job name, worker name, user, password) that
//! contains whitespace or a double quote is wrapped in double quotes; the
//! fixed flag tokens never are.

use vstd::prelude::*;

verus! {

/// The token views of an argument vector.
pub open spec fn arg_views(args: Seq<String>) -> Seq<Seq<char>> {
    args.map_values(|s: String| s@)
}

/// Whether a token must be wrapped before it is handed to the executable.
pub open spec fn needs_quoting(s: Seq<char>) -> bool {
    exists|i: int| 0 <= i < s.len() && (s[i] == ' ' || s[i] == '"')
}

/// A token, wrapped in double quotes when it holds whitespace or a quote.
pub open spec fn spec_quoted(s: Seq<char>) -> Seq<char> {
    if needs_quoting(s) {
        seq!['"'] + s + seq!['"']
    } else {
        s
    }
}

/// How `needs_quoting` evolves as a token grows by one character.
proof fn lemma_needs_quoting_push(s: Seq<char>, c: char)
    ensures
        needs_quoting(s.push(c)) == (needs_quoting(s) || c == ' ' || c == '"'),
{
    if needs_quoting(s) {
        let w = choose|k: int| 0 <= k < s.len() && (s[k] == ' ' || s[k] == '"');
        assert(s.push(c)[w] == s[w]);
    }
    if c == ' ' || c == '"' {
        assert(s.push(c)[s.len() as int] == c);
    }
    if needs_quoting(s.push(c)) && !(c == ' ' || c == '"') && !needs_quoting(s) {
        let w = choose|k: int|
            0 <= k < s.push(c).len() && (s.push(c)[k] == ' ' || s.push(c)[k] == '"');
        if w < s.len() {
            assert(s[w] == s.push(c)[w]);
        } else {
            assert(s.push(c)[w] == c);
        }
    }
}

/// Wraps `arg` in double quotes when it contains a space or a double quote;
/// embedded quotes are kept verbatim.
pub fn handle_quoted(arg: &str) -> (r: String)
    ensures
        r@ == spec_quoted(arg@),
{
    let n = arg.unicode_len();
    let mut needs: bool = false;
    let mut i: usize = 0;
    while i < n
        invariant
            n == arg@.len(),
            i <= n,
            needs == needs_quoting(arg@.subrange(0, i as int)),
        decreases n - i,
    {
        let c = arg.get_char(i);
        if c == ' ' || c == '"' {
            needs = true;
        }
        proof {
            assert(arg@.subrange(0, (i + 1) as int) =~= arg@.subrange(0, i as int).push(
                arg@[i as int],
            ));
            lemma_needs_quoting_push(arg@.subrange(0, i as int), arg@[i as int]);
        }
        i = i + 1;
    }
    proof {
        assert(arg@.subrange(0, n as int) =~= arg@);
    }
    if needs {
        let mut r = String::new();
        r.push('"');
        r.append(arg);
        r.push('"');
        proof {
            assert(r@ =~= seq!['"'] + arg@ + seq!['"']);
        }
        r
    } else {
        String::from_str(arg)
    }
}

/// An ordered argument vector, ready to hand to the external executable.
pub struct AutomateCCommander {
    pub args_vec: Vec<String>,
}

impl AutomateCCommander {
    /// Hands the tokens out in order.
    pub fn into_args(self) -> (r: Vec<String>)
        ensures
            r@ == self.args_vec@,
    {
        self.args_vec
    }
}

/// Builds the argument vector token by token.
#[derive(Debug)]
pub struct AutomateBuilderBase {
    pub args: Vec<String>,
}

impl AutomateBuilderBase {
    /// Starts an empty argument vector.
    pub fn new() -> (r: Self)
        ensures
            r.args@.len() == 0,
    {
        AutomateBuilderBase { args: Vec::new() }
    }

    /// Appends the single-sign-on authentication flag.
    pub fn with_sso(self) -> (r: Self)
        ensures
            arg_views(r.args@) =~= arg_views(self.args@).push("/sso"@),
    {
        let mut b = self;
        b.args.push(String::from_str("/sso"));
        b
    }

    /// Appends the run flag and the (quoted if needed) job name.
    pub fn with_process(self, process_name: &str) -> (r: Self)
        ensures
            arg_views(r.args@) =~= arg_views(self.args@).push("/run"@).push(
                spec_quoted(process_name@),
            ),
    {
        let mut b = self;
        b.args.push(String::from_str("/run"));
        b.args.push(handle_quoted(process_name));
        b
    }

    /// Appends the resource flag and the (quoted if needed) worker name.
    pub fn with_resource(self, resource: &str) -> (r: Self)
        ensures
            arg_views(r.args@) =~= arg_views(self.args@).push("/resource"@).push(
                spec_quoted(resource@),
            ),
    {
        let mut b = self;
        b.args.push(String::from_str("/resource"));
        b.args.push(handle_quoted(resource));
        b
    }

    /// Appends the user flag and the (quoted if needed) user name.
    pub fn with_user(self, user: &str) -> (r: Self)
        ensures
            arg_views(r.args@) =~= arg_views(self.args@).push("/user"@).push(spec_quoted(user@)),
    {
        let mut b = self;
        b.args.push(String::from_str("/user"));
        b.args.push(handle_quoted(user));
        b
    }

    /// Appends the password flag and the (quoted if needed) password.
    pub fn with_password(self, password: &str) -> (r: Self)
        ensures
            arg_views(r.args@) =~= arg_views(self.args@).push("/password"@).push(
                spec_quoted(password@),
            ),
    {
        let mut b = self;
        b.args.push(String::from_str("/password"));
        b.args.push(handle_quoted(password));
        b
    }

    /// Snapshots the tokens built so far into a command.
    pub fn build(&self) -> (r: AutomateCCommander)
        ensures
            arg_views(r.args_vec@) =~= arg_views(self.args@),
    {
        let copy = self.args.clone();
        proof {
            assert forall|i: int| 0 <= i < self.args@.len() implies copy@[i]@ == self.args@[i]@ by {
                assert(cloned::<String>(self.args@[i], copy@[i]));
            }
        }
        AutomateCCommander { args_vec: copy }
    }
}

impl Default for AutomateBuilderBase {
    /// Starts an empty argument vector.
    fn default() -> (r: Self)
        ensures
            r.args@.len() == 0,
    {
        AutomateBuilderBase::new()
    }
}

/// Law: the builder wraps a worker name that holds whitespace in double
/// quotes, and leaves one without whitespace or quotes untouched.
pub proof fn lemma_quoting_wraps_whitespace(name: Seq<char>)
    ensures
        needs_quoting(name) ==> spec_quoted(name) == seq!['"'] + name + seq!['"'],
        !needs_quoting(name) ==> spec_quoted(name) == name,
{
}

} // verus!
