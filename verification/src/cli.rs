//! The command line of the `openai` tool: which command the arguments name,
//! with its required arguments.

use vstd::prelude::*;
use crate::json::JsonValue;
use crate::provider::concat;
use crate::text::str_eq;

verus! {

/// A command of the tool.
#[derive(Debug, Clone, PartialEq, Eq)]
pub enum CliCommand {
    /// Print the usage text.
    Usage,
    ModelsList,
    ModelsGet { model: String },
    FilesList,
    ResponsesCreate { model: String, input: String },
    ChatCreate { model: String, message: String },
    RawPost { path: String, json: String },
}

/// The message of a missing argument.
pub open spec fn missing_arg_message(name: Seq<char>) -> Seq<char> {
    "missing required argument: "@ + name
}

/// The argument, or the error that it is missing.
pub fn required_arg(value: Option<String>, name: &str) -> (r: Result<String, String>)
    ensures
        match value {
            Some(v) => r == Ok::<String, String>(v),
            None => r matches Err(m) && m@ == missing_arg_message(name@),
        },
{
    match value {
        Some(v) => Ok(v),
        None => Err(concat("missing required argument: ", name)),
    }
}

/// The argument at `i`, if there is one.
pub open spec fn arg_at(args: Seq<String>, i: int) -> Option<Seq<char>> {
    if 0 <= i < args.len() {
        Some(args[i]@)
    } else {
        None
    }
}

fn arg_exec(args: &Vec<String>, i: usize) -> (r: Option<String>)
    ensures
        crate::text::opt_chars(r) == arg_at(args@, i as int),
{
    if i < args.len() {
        Some(args[i].clone())
    } else {
        None
    }
}

/// Whether `c` is the command with the given arguments: each required
/// argument present, in order, else the error naming the first missing one.
pub open spec fn is_command_of(r: Result<CliCommand, String>, args: Seq<String>) -> bool {
    if args.len() == 0 {
        r matches Ok(CliCommand::Usage)
    } else {
        let name = args[0]@;
        if name == "models:list"@ {
            r matches Ok(CliCommand::ModelsList)
        } else if name == "files:list"@ {
            r matches Ok(CliCommand::FilesList)
        } else if name == "models:get"@ {
            match arg_at(args, 1) {
                None => r matches Err(m) && m@ == missing_arg_message("model"@),
                Some(a) => r matches Ok(CliCommand::ModelsGet { model }) && model@ == a,
            }
        } else if name == "responses:create"@ || name == "chat:create"@ || name == "raw:post"@ {
            let (first, second) = if name == "responses:create"@ {
                ("model"@, "input"@)
            } else if name == "chat:create"@ {
                ("model"@, "message"@)
            } else {
                ("path"@, "json"@)
            };
            match (arg_at(args, 1), arg_at(args, 2)) {
                (None, _) => r matches Err(m) && m@ == missing_arg_message(first),
                (Some(_), None) => r matches Err(m) && m@ == missing_arg_message(second),
                (Some(a), Some(b)) => if name == "responses:create"@ {
                    r matches Ok(CliCommand::ResponsesCreate { model, input }) && model@ == a
                        && input@ == b
                } else if name == "chat:create"@ {
                    r matches Ok(CliCommand::ChatCreate { model, message }) && model@ == a
                        && message@ == b
                } else {
                    r matches Ok(CliCommand::RawPost { path, json }) && path@ == a && json@ == b
                },
            }
        } else {
            r matches Ok(CliCommand::Usage)
        }
    }
}

/// Reads the command and its arguments (the arguments after the program's
/// name). An unknown command, or none, prints the usage.
pub fn parse_cli(args: &Vec<String>) -> (r: Result<CliCommand, String>)
    ensures
        is_command_of(r, args@),
{
    if args.len() == 0 {
        return Ok(CliCommand::Usage);
    }
    let name = args[0].as_str();
    if str_eq(name, "models:list") {
        Ok(CliCommand::ModelsList)
    } else if str_eq(name, "files:list") {
        Ok(CliCommand::FilesList)
    } else if str_eq(name, "models:get") {
        match required_arg(arg_exec(args, 1), "model") {
            Ok(model) => Ok(CliCommand::ModelsGet { model }),
            Err(e) => Err(e),
        }
    } else if str_eq(name, "responses:create") {
        let model = match required_arg(arg_exec(args, 1), "model") {
            Ok(v) => v,
            Err(e) => {
                return Err(e);
            },
        };
        match required_arg(arg_exec(args, 2), "input") {
            Ok(input) => Ok(CliCommand::ResponsesCreate { model, input }),
            Err(e) => Err(e),
        }
    } else if str_eq(name, "chat:create") {
        let model = match required_arg(arg_exec(args, 1), "model") {
            Ok(v) => v,
            Err(e) => {
                return Err(e);
            },
        };
        match required_arg(arg_exec(args, 2), "message") {
            Ok(message) => Ok(CliCommand::ChatCreate { model, message }),
            Err(e) => Err(e),
        }
    } else if str_eq(name, "raw:post") {
        let path = match required_arg(arg_exec(args, 1), "path") {
            Ok(v) => v,
            Err(e) => {
                return Err(e);
            },
        };
        match required_arg(arg_exec(args, 2), "json") {
            Ok(json) => Ok(CliCommand::RawPost { path, json }),
            Err(e) => Err(e),
        }
    } else {
        Ok(CliCommand::Usage)
    }
}

/// The endpoints that `raw:post` may call.
#[derive(Debug, Clone, Copy, PartialEq, Eq)]
pub enum RawTarget {
    ImagesGenerations,
    Batches,
}

/// The endpoint of a `raw:post` path; other paths are refused.
pub fn raw_post_target(path: &str) -> (r: Result<RawTarget, String>)
    ensures
        path@ == "/images/generations"@ ==> r == Ok::<RawTarget, String>(RawTarget::ImagesGenerations),
        path@ == "/batches"@ ==> r == Ok::<RawTarget, String>(RawTarget::Batches),
        path@ != "/images/generations"@ && path@ != "/batches"@ ==> (r matches Err(m) && m@
            == "raw:post does not support "@ + path@),
{
    proof {
        reveal_strlit("/batches");
        reveal_strlit("/images/generations");
        assert("/batches"@.len() != "/images/generations"@.len());
    }
    if str_eq(path, "/images/generations") {
        Ok(RawTarget::ImagesGenerations)
    } else if str_eq(path, "/batches") {
        Ok(RawTarget::Batches)
    } else {
        Err(concat("raw:post does not support ", path))
    }
}

/// The fields of a `raw:post` body: the members of an object, else none.
pub fn raw_post_fields(value: JsonValue) -> (r: Vec<(String, JsonValue)>)
    ensures
        match value {
            JsonValue::Object(ms) => r@ == ms@,
            _ => r@.len() == 0,
        },
{
    match value {
        JsonValue::Object(ms) => ms,
        _ => Vec::new(),
    }
}

/// The usage text of the tool.
pub fn usage_text() -> (r: &'static str)
    ensures
        r@ == "usage:\n  openai models:list\n  openai models:get <model>\n  openai files:list\n  openai responses:create <model> <input>\n  openai chat:create <model> <message>\n  openai raw:post /images/generations '<json>'"@,
{
    "usage:\n  openai models:list\n  openai models:get <model>\n  openai files:list\n  openai responses:create <model> <input>\n  openai chat:create <model> <message>\n  openai raw:post /images/generations '<json>'"
}

} // verus!
