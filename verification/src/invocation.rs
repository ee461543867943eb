use vstd::prelude::*;
use vstd::string::StringExecFns;

use crate::resolver::AuxPathConfig;
use crate::resolver::PathResolver;
use crate::resolver::opt_view;
use crate::resolver::step_model;

verus! {

/// The child process invocation the supervisor hands to the host's spawning
/// machinery: the fixed engine command, its extra arguments, and its extra
/// environment variables.
pub struct Invocation {
    pub program: String,
    pub args: Vec<String>,
    pub env: Vec<(String, String)>,
}

/// The character sequences held by an argument list.
pub open spec fn args_model(v: Seq<String>) -> Seq<Seq<char>> {
    v.map_values(|s: String| s@)
}

/// The character sequences held by an environment list.
pub open spec fn env_model(v: Seq<(String, String)>) -> Seq<(Seq<char>, Seq<char>)> {
    v.map_values(|p: (String, String)| (p.0@, p.1@))
}

/// The arguments owed to the child: the flag/path pair exactly when a path
/// was resolved, nothing otherwise.
pub open spec fn expected_args(resolved: Option<Seq<char>>) -> Seq<Seq<char>> {
    match resolved {
        Option::None => Seq::<Seq<char>>::empty(),
        Option::Some(p) => seq!["--tracy-path"@, p],
    }
}

/// The environment owed to the child: the single tracing variable exactly
/// when a path was resolved, nothing otherwise.
pub open spec fn expected_env(resolved: Option<Seq<char>>) -> Seq<(Seq<char>, Seq<char>)> {
    match resolved {
        Option::None => Seq::<(Seq<char>, Seq<char>)>::empty(),
        Option::Some(p) => seq![("TRACY_PATH"@, p)],
    }
}

/// Builds the child invocation from the resolver's outcome. The command is
/// fixed; a resolved path augments the invocation with one environment
/// variable and one flag/path argument pair, an unresolved one leaves it
/// unmodified.
pub fn build_invocation(config: &AuxPathConfig) -> (inv: Invocation)
    ensures
        inv.program@ == "bio-engine"@,
        args_model(inv.args@) == expected_args(opt_view(config.resolved_path)),
        env_model(inv.env@) == expected_env(opt_view(config.resolved_path)),
{
    let program = String::from_str("bio-engine");
    let mut args: Vec<String> = Vec::new();
    let mut env: Vec<(String, String)> = Vec::new();
    match &config.resolved_path {
        Option::Some(p) => {
            env.push((String::from_str("TRACY_PATH"), p.clone()));
            args.push(String::from_str("--tracy-path"));
            args.push(p.clone());
            proof {
                assert(args_model(args@) =~= expected_args(opt_view(config.resolved_path)));
                assert(env_model(env@) =~= expected_env(opt_view(config.resolved_path)));
            }
        },
        Option::None => {
            proof {
                assert(args_model(args@) =~= expected_args(opt_view(config.resolved_path)));
                assert(env_model(env@) =~= expected_env(opt_view(config.resolved_path)));
            }
        },
    }
    Invocation { program, args, env }
}

/// Law: with a resolved path, the environment variable and the appended
/// argument pair carry the identical path string.
pub proof fn lemma_augmentation_uses_one_path(p: Seq<char>)
    ensures
        expected_args(Option::Some(p)).len() == 2,
        expected_args(Option::Some(p))[0] == "--tracy-path"@,
        expected_args(Option::Some(p))[1] == p,
        expected_env(Option::Some(p)).len() == 1,
        expected_env(Option::Some(p))[0].0 == "TRACY_PATH"@,
        expected_env(Option::Some(p))[0].1 == p,
        expected_args(Option::Some(p))[1] == expected_env(Option::Some(p))[0].1,
{
}

/// Law: with no resolved path, the invocation carries no tracing environment
/// variable and no tracing arguments.
pub proof fn lemma_absent_tool_bare_invocation(resolved: Option<Seq<char>>)
    requires
        resolved is None,
    ensures
        expected_args(resolved).len() == 0,
        expected_env(resolved).len() == 0,
{
}

/// Law: when neither candidate exists, the search settles on no path and the
/// child invocation is owed neither the tracing environment variable nor the
/// tracing argument pair.
pub proof fn lemma_no_candidate_no_augmentation(r: PathResolver)
    requires
        r.wf(),
        !(r.phase is Settled),
    ensures
        ({
            let settled = step_model(step_model(r, false), false);
            &&& settled.phase is Settled
            &&& settled.resolved is None
            &&& expected_args(opt_view(settled.resolved)).len() == 0
            &&& expected_env(opt_view(settled.resolved)).len() == 0
        }),
{
}

} // verus!
