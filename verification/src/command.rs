//! Construction of the command descriptor the host launches: the resolved
//! path, the `lsp` subcommand followed by any configured arguments, and the
//! content-root variable followed by any resolver-attached environment.

use vstd::prelude::*;

use crate::resolver::RariBinary;

verus! {

/// The command the host runs: executable path, argument list, environment.
#[derive(Clone, Debug, PartialEq, Eq)]
pub struct LaunchCommand {
    pub command: String,
    pub args: Vec<String>,
    pub env: Vec<(String, String)>,
}

/// The arguments a resolution attached, or none.
pub open spec fn spec_extra_args(args: Option<Vec<String>>) -> Seq<String> {
    match args {
        Some(a) => a@,
        None => Seq::empty(),
    }
}

/// The environment a resolution attached, or none.
pub open spec fn spec_extra_env(env: Option<Vec<(String, String)>>) -> Seq<(String, String)> {
    match env {
        Some(e) => e@,
        None => Seq::empty(),
    }
}

/// Builds the launch command for a resolved binary: the argument list is
/// `lsp` followed by the binary's extra arguments in order, and the
/// environment is `CONTENT_ROOT` pointing at the `files` directory of the
/// project root, followed by the binary's extra variables in order.
pub fn language_server_command(binary: RariBinary, worktree_root: &String) -> (r: LaunchCommand)
    ensures
        r.command == binary.path,
        r.args@.len() == 1 + spec_extra_args(binary.args).len(),
        r.args@[0]@ == "lsp"@,
        r.args@.skip(1) == spec_extra_args(binary.args),
        r.env@.len() == 1 + spec_extra_env(binary.environment).len(),
        r.env@[0].0@ == "CONTENT_ROOT"@,
        r.env@[0].1@ == worktree_root@ + "/files"@,
        r.env@.skip(1) == spec_extra_env(binary.environment),
{
    let RariBinary { path, args, environment } = binary;
    let mut cmd_args: Vec<String> = Vec::new();
    cmd_args.push(String::from_str("lsp"));
    match args {
        Some(extra) => {
            let n = extra.len();
            let mut i: usize = 0;
            while i < n
                invariant
                    n == extra@.len(),
                    0 <= i <= n,
                    cmd_args@.len() == 1 + i,
                    cmd_args@[0]@ == "lsp"@,
                    forall|j: int| 0 <= j < i ==> cmd_args@[j + 1] == extra@[j],
                decreases n - i,
            {
                cmd_args.push(extra[i].clone());
                i = i + 1;
            }
            proof {
                assert(cmd_args@.skip(1) =~= extra@);
            }
        },
        None => {
            proof {
                assert(cmd_args@.skip(1) =~= Seq::<String>::empty());
            }
        },
    }
    let mut cmd_env: Vec<(String, String)> = Vec::new();
    cmd_env.push((String::from_str("CONTENT_ROOT"), worktree_root.clone().concat("/files")));
    match environment {
        Some(extra) => {
            let n = extra.len();
            let mut i: usize = 0;
            while i < n
                invariant
                    n == extra@.len(),
                    0 <= i <= n,
                    cmd_env@.len() == 1 + i,
                    cmd_env@[0].0@ == "CONTENT_ROOT"@,
                    cmd_env@[0].1@ == worktree_root@ + "/files"@,
                    forall|j: int| 0 <= j < i ==> cmd_env@[j + 1] == extra@[j],
                decreases n - i,
            {
                let name = extra[i].0.clone();
                let value = extra[i].1.clone();
                cmd_env.push((name, value));
                i = i + 1;
            }
            proof {
                assert(cmd_env@.skip(1) =~= extra@);
            }
        },
        None => {
            proof {
                assert(cmd_env@.skip(1) =~= Seq::<(String, String)>::empty());
            }
        },
    }
    LaunchCommand { command: path, args: cmd_args, env: cmd_env }
}

} // verus!
