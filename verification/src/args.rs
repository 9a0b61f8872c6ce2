//! The spawn policy: which program a session runs, with which
//! arguments, and which environment adjustments. The deployment's
//! values are the named constants; the policy itself is stated over
//! character sequences and proved exactly.

use vstd::prelude::*;

verus! {

/// Deployment configuration: the interactive program a spawn request
/// falls back to when it names none.
pub const DEFAULT_PROGRAM: &'static str = "assistant";

/// Deployment configuration: the terminal-type variable forced on every
/// child, and the color-capable value it is set to.
pub const TERM_VAR: &'static str = "TERM";

/// The color-capable terminal type every child is started with.
pub const TERM_VALUE: &'static str = "xterm-256color";

/// Deployment configuration: the nested-session guard variable the
/// fronted program sets in its own children. It is stripped before
/// spawning so that a session started from within another session does
/// not refuse to run; a deployment fronting a different program sets
/// this to that program's guard variable.
pub const NESTED_GUARD_VAR: &'static str = "NESTED_SESSION";

/// The character sequence of the default interactive program.
pub open spec fn default_program() -> Seq<char> {
    DEFAULT_PROGRAM@
}

/// The argument list a session's child process is started with: a
/// `--model` flag with its value when a model is named, then the initial
/// prompt as one trailing positional argument when one is given.
pub open spec fn spawn_args(model: Option<Seq<char>>, prompt: Option<Seq<char>>) -> Seq<
    Seq<char>,
> {
    (match model {
        Some(m) => seq!["--model"@, m],
        None => Seq::empty(),
    }) + (match prompt {
        Some(p) => seq![p],
        None => Seq::empty(),
    })
}

/// The program a spawn request resolves to: the named one, or the
/// default interactive program.
pub fn resolve_program(cli_command: &Option<String>) -> (r: String)
    ensures
        cli_command matches Some(c) ==> r@ == c@,
        cli_command is None ==> r@ == default_program(),
{
    match cli_command {
        Some(c) => c.clone(),
        None => DEFAULT_PROGRAM.to_owned(),
    }
}

/// Builds the argument list of `spawn_args` as owned strings.
pub fn build_args(model: &Option<String>, initial_prompt: &Option<String>) -> (r: Vec<String>)
    ensures
        r.deep_view() == spawn_args(model.deep_view(), initial_prompt.deep_view()),
{
    let mut r: Vec<String> = Vec::new();
    if let Some(m) = model {
        r.push("--model".to_owned());
        r.push(m.clone());
    }
    if let Some(p) = initial_prompt {
        r.push(p.clone());
    }
    proof {
        assert(r.deep_view() =~~= spawn_args(model.deep_view(), initial_prompt.deep_view()));
    }
    r
}

} // verus!
