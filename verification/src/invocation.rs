//! Assembly of the child `cargo` invocation and the parent's exit code.
//!
//! An invocation is a plain value: the argument list for the child, the
//! environment entries to add for it, and the Kubos target identifier the
//! run was made for. Building it has no side effects; launching the child
//! and exiting are left to the caller.

use crate::config::{cargo_linker, linker_in_config};
use crate::strutil::str_eq;
use crate::targets::{is_supported_target, target_converter, triplet_for, UnsupportedTarget};
use vstd::prelude::*;

verus! {

/// One environment entry added for the child process.
pub struct EnvVar {
    /// The variable's name.
    pub name: String,
    /// The variable's value.
    pub value: String,
}

/// The environment entries owed to a linker override: none without one;
/// with one, the C and C++ driver variables set to the linker and the
/// cross-compilation allowance flag set to "1".
pub open spec fn env_for_linker(linker: Option<Seq<char>>, env: Seq<EnvVar>) -> bool {
    match linker {
        None => env.len() == 0,
        Some(l) => env.len() == 3 && env[0].name@ == "CC"@ && env[0].value@ == l
            && env[1].name@ == "CXX"@ && env[1].value@ == l && env[2].name@
            == "PKG_CONFIG_ALLOW_CROSS"@ && env[2].value@ == "1"@,
    }
}

/// The environment entries for the child, from the linker override the
/// configuration lookup produced.
pub fn linker_env(linker: Option<String>) -> (r: Vec<EnvVar>)
    ensures
        env_for_linker(linker.deep_view(), r@),
{
    match linker {
        None => Vec::new(),
        Some(l) => {
            let mut v: Vec<EnvVar> = Vec::new();
            v.push(EnvVar { name: "CC".to_owned(), value: l.clone() });
            v.push(EnvVar { name: "CXX".to_owned(), value: l.clone() });
            v.push(EnvVar { name: "PKG_CONFIG_ALLOW_CROSS".to_owned(), value: "1".to_owned() });
            v
        },
    }
}

/// The token that the wrapper strips from trailing arguments: its own alias,
/// left behind when cargo invokes the wrapper as a subcommand.
pub open spec fn alias_token() -> Seq<char> {
    "kubos"@
}

/// `s` with every token equal to the wrapper's alias removed, the rest in
/// their original order.
pub open spec fn without_alias(s: Seq<String>) -> Seq<String>
    decreases s.len(),
{
    if s.len() == 0 {
        Seq::empty()
    } else if s.last()@ == alias_token() {
        without_alias(s.drop_last())
    } else {
        without_alias(s.drop_last()).push(s.last())
    }
}

/// Remove every token equal to the wrapper's own alias from the trailing
/// arguments, keeping all other tokens in their original order.
pub fn strip_alias_tokens(args: &Vec<String>) -> (r: Vec<String>)
    ensures
        r@ == without_alias(args@),
{
    let mut r: Vec<String> = Vec::new();
    let mut i: usize = 0;
    while i < args.len()
        invariant
            0 <= i <= args@.len(),
            r@ == without_alias(args@.take(i as int)),
        decreases args@.len() - i,
    {
        let x = &args[i];
        if !str_eq(x.as_str(), "kubos") {
            r.push(x.clone());
        }
        proof {
            assert(args@.take(i + 1).drop_last() =~= args@.take(i as int));
            assert(args@.take(i + 1).last() == args@[i as int]);
        }
        i += 1;
    }
    proof {
        assert(args@.take(args@.len() as int) =~= args@);
    }
    r
}

/// The parent's exit code, from how the child ended: 0 when the child
/// succeeded, the child's own code when it failed with one, and a generic
/// failure code when it ended without one.
pub fn exit_code_for(success: bool, code: Option<i32>) -> (r: i32)
    ensures
        success ==> r == 0,
        !success ==> match code {
            Some(c) => r == c,
            None => r == 1,
        },
{
    if success {
        0
    } else {
        match code {
            Some(c) => c,
            None => 1,
        }
    }
}

/// A fully assembled child invocation.
pub struct Invocation {
    /// The Kubos target identifier the run was made for, exported for the
    /// child to observe.
    pub kubos_target: String,
    /// The arguments for the child: the subcommand, the target flag with
    /// the resolved triplet, then the trailing arguments verbatim.
    pub args: Vec<String>,
    /// The environment entries to add for the child.
    pub env: Vec<EnvVar>,
}

/// The argument list owed to a subcommand, a triplet and trailing
/// arguments: the subcommand, the target flag, the triplet, then the
/// trailing arguments in their original order.
pub open spec fn args_for(
    command: Seq<char>,
    triplet: Seq<char>,
    extra: Seq<String>,
    args: Seq<String>,
) -> bool {
    args.len() == 3 + extra.len() && args[0]@ == command && args[1]@ == "--target"@ && args[2]@
        == triplet && (forall|i: int| 0 <= i < extra.len() ==> args[3 + i] == extra[i])
}

/// Assemble the child invocation for a subcommand, a Kubos target and
/// trailing arguments, with the configuration document's text when one
/// could be read.
///
/// The target is resolved to its triplet; an unsupported target is the one
/// fatal error. A linker override found in the configuration for that
/// triplet fills the child's environment; an absent or unusable
/// configuration leaves the environment empty and is not an error.
pub fn plan_invocation(
    command: String,
    kubos_target: String,
    extra: Vec<String>,
    config: Option<&str>,
) -> (r: Result<Invocation, UnsupportedTarget>)
    ensures
        is_supported_target(kubos_target@) ==> (r matches Ok(inv) && inv.kubos_target
            == kubos_target && args_for(command@, triplet_for(kubos_target@), extra@, inv.args@)
            && env_for_linker(
            match config {
                Some(doc) => linker_in_config(doc@, triplet_for(kubos_target@)),
                None => None,
            },
            inv.env@,
        )),
        !is_supported_target(kubos_target@) ==> (r matches Err(e) && e.requested@
            == kubos_target@),
{
    let triplet = match target_converter(kubos_target.as_str()) {
        Ok(t) => t,
        Err(e) => {
            return Err(e);
        },
    };
    let linker = cargo_linker(config, triplet.as_str());
    let env = linker_env(linker);
    let mut args: Vec<String> = Vec::new();
    args.push(command);
    args.push("--target".to_owned());
    args.push(triplet);
    let mut extra = extra;
    args.append(&mut extra);
    Ok(Invocation { kubos_target, args, env })
}

} // verus!
