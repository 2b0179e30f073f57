use vstd::prelude::*;
use crate::error::IoError;
use crate::text::same_text;

verus! {

/// The commands of the box.
#[derive(Debug, Clone, Copy, PartialEq, Eq, Structural)]
pub enum Subcommand {
    Echo,
    Cat,
    Ls,
    Env,
    Nc,
}

/// A command to run, with its arguments.
#[derive(Debug, PartialEq, Eq)]
pub struct Invocation {
    pub subcommand: Subcommand,
    pub args: Vec<String>,
}

/// The end of a run that failed: what to tell the user, and the exit status.
#[derive(Debug, PartialEq, Eq)]
pub struct Failure {
    pub reason: String,
    pub exit_code: i32,
}

/// The command that goes by `name`.
pub open spec fn subcommand_named(name: Seq<char>) -> Option<Subcommand> {
    if name == "echo"@ {
        Some(Subcommand::Echo)
    } else if name == "cat"@ {
        Some(Subcommand::Cat)
    } else if name == "ls"@ {
        Some(Subcommand::Ls)
    } else if name == "env"@ {
        Some(Subcommand::Env)
    } else if name == "nc"@ {
        Some(Subcommand::Nc)
    } else {
        None
    }
}

/// Finds the command that goes by `executable_name` and hands it `args`. A name that no
/// command goes by is a failure with exit status 2.
pub fn dispatch_subcommand(executable_name: &str, args: Vec<String>) -> (res: Result<
    Invocation,
    Failure,
>)
    ensures
        match res {
            Ok(invocation) => {
                &&& subcommand_named(executable_name@) == Some(invocation.subcommand)
                &&& invocation.args == args
            },
            Err(failure) => {
                &&& subcommand_named(executable_name@) is None
                &&& failure.reason@ == "Unknown subcommand: '"@ + executable_name@ + "'"@
                &&& failure.exit_code == 2
            },
        },
{
    let subcommand = if same_text(executable_name, "echo") {
        Subcommand::Echo
    } else if same_text(executable_name, "cat") {
        Subcommand::Cat
    } else if same_text(executable_name, "ls") {
        Subcommand::Ls
    } else if same_text(executable_name, "env") {
        Subcommand::Env
    } else if same_text(executable_name, "nc") {
        Subcommand::Nc
    } else {
        let mut reason = String::from_str("Unknown subcommand: '");
        reason.append(executable_name);
        reason.append("'");
        return Err(Failure { reason, exit_code: 2 });
    };
    Ok(Invocation { subcommand, args })
}

/// Finds the command to run from the name that the program was called by and the
/// arguments after it. Called as `rustbox`, the program takes the command's name from
/// its first argument, and fails with exit status 2 where there is none; called by
/// another name, it takes that name for the command's.
pub fn select_subcommand(executable_name: &str, args: Vec<String>) -> (res: Result<
    Invocation,
    Failure,
>)
    ensures
        match res {
            Ok(invocation) => if executable_name@ == "rustbox"@ {
                &&& args@.len() > 0
                &&& subcommand_named(args@[0]@) == Some(invocation.subcommand)
                &&& invocation.args@ == args@.skip(1)
            } else {
                &&& subcommand_named(executable_name@) == Some(invocation.subcommand)
                &&& invocation.args == args
            },
            Err(failure) => {
                &&& failure.exit_code == 2
                &&& failure.reason@ == if executable_name@ != "rustbox"@ {
                    "Unknown subcommand: '"@ + executable_name@ + "'"@
                } else if args@.len() == 0 {
                    "Expected subcommand"@
                } else {
                    "Unknown subcommand: '"@ + args@[0]@ + "'"@
                }
                &&& if executable_name@ != "rustbox"@ {
                    subcommand_named(executable_name@) is None
                } else {
                    args@.len() == 0 || subcommand_named(args@[0]@) is None
                }
            },
        },
{
    if same_text(executable_name, "rustbox") {
        if args.len() == 0 {
            return Err(Failure { reason: String::from_str("Expected subcommand"), exit_code: 2 });
        }
        let mut rest = args;
        let name = rest.remove(0);
        dispatch_subcommand(name.as_str(), rest)
    } else {
        dispatch_subcommand(executable_name, args)
    }
}

/// How a run ends after its command has returned `result`: a failure of the command is
/// told to the user as it is, with exit status 1.
pub fn exit_failure(result: Result<(), IoError>) -> (end: Option<Failure>)
    ensures
        match result {
            Ok(_) => end is None,
            Err(e) => end matches Some(failure) && failure.reason@ == e.message@
                && failure.exit_code == 1,
        },
{
    match result {
        Ok(_) => None,
        Err(e) => Some(Failure { reason: e.message, exit_code: 1 }),
    }
}

} // verus!
