//! The command line: which command a list of arguments asks for.

use vstd::prelude::*;

use crate::client::strings_of;

verus! {

/// A command of the command line.
#[derive(Debug)]
pub enum CliCommand {
    /// Run the server in this process (the background launch of `start`).
    RunServer,
    Start,
    Stop,
    Status,
    List,
    /// Call `tool` with `key=value` arguments.
    Call { tool: String, arguments: Vec<String> },
    /// An unknown command: print the usage line.
    Usage,
}

/// Why the command line was refused.
#[derive(PartialEq, Eq, Structural, Clone, Copy, Debug)]
pub enum CliError {
    /// `call` without a tool name.
    MissingToolName,
}

/// Reads the command line; `args[0]` is the program. No command means `status`.
pub fn parse_command(args: &Vec<String>) -> (r: Result<CliCommand, CliError>)
    ensures
        args@.len() <= 1 ==> r matches Ok(CliCommand::Status),
        args@.len() > 1 ==> {
            let c = args@[1]@;
            if c == "run-server-internal"@ {
                r matches Ok(CliCommand::RunServer)
            } else if c == "start"@ {
                r matches Ok(CliCommand::Start)
            } else if c == "stop"@ {
                r matches Ok(CliCommand::Stop)
            } else if c == "status"@ {
                r matches Ok(CliCommand::Status)
            } else if c == "list"@ {
                r matches Ok(CliCommand::List)
            } else if c == "call"@ {
                if args@.len() > 2 {
                    r matches Ok(CliCommand::Call { tool, arguments }) && tool@ == args@[2]@ && strings_of(
                        arguments@,
                    ) == strings_of(args@.subrange(3, args@.len() as int))
                } else {
                    r == Err::<CliCommand, CliError>(CliError::MissingToolName)
                }
            } else {
                r matches Ok(CliCommand::Usage)
            }
        },
{
    if args.len() <= 1 {
        return Ok(CliCommand::Status);
    }
    let c = &args[1];
    if *c == String::from_str("run-server-internal") {
        Ok(CliCommand::RunServer)
    } else if *c == String::from_str("start") {
        Ok(CliCommand::Start)
    } else if *c == String::from_str("stop") {
        Ok(CliCommand::Stop)
    } else if *c == String::from_str("status") {
        Ok(CliCommand::Status)
    } else if *c == String::from_str("list") {
        Ok(CliCommand::List)
    } else if *c == String::from_str("call") {
        if args.len() <= 2 {
            return Err(CliError::MissingToolName);
        }
        let tool = args[2].clone();
        let mut arguments: Vec<String> = Vec::new();
        let mut i: usize = 3;
        while i < args.len()
            invariant
                3 <= i <= args@.len(),
                arguments@.len() == i - 3,
                forall|j: int| 0 <= j < i - 3 ==> #[trigger] arguments@[j] == args@[j + 3],
            decreases args@.len() - i,
        {
            arguments.push(args[i].clone());
            i = i + 1;
        }
        proof {
            assert(strings_of(arguments@) =~= strings_of(args@.subrange(3, args@.len() as int)));
        }
        Ok(CliCommand::Call { tool, arguments })
    } else {
        Ok(CliCommand::Usage)
    }
}

} // verus!
