//! The commands that the file tools run in a sandbox.

use vstd::prelude::*;
use vstd::string::StringExecFns;
use crate::api::mcp::types::{
    FileCopyParams, FileInfoParams, FileListParams, FileMkdirParams, FileMoveParams,
    FileReadParams, FileRemoveParams, FileWriteParams,
};
use crate::string_map::spec_pairs;
use crate::strings::texts;
use crate::types::CommandResult;

verus! {

/// How long a tool waits for its command, in milliseconds.
pub const TOOL_TIMEOUT_MS: u64 = 30000;

/// A command and its arguments.
#[derive(Debug, Clone, PartialEq, Eq)]
pub struct ToolCommand {
    pub command: String,
    pub args: Vec<String>,
}

/// A text inside single quotes of a shell: each single quote of the text
/// closes the quotes, stands escaped, and opens them again.
pub open spec fn quoted(text: Seq<char>) -> Seq<char>
    decreases text.len(),
{
    if text.len() == 0 {
        Seq::empty()
    } else if text.last() == '\'' {
        quoted(text.drop_last()) + "'\\''"@
    } else {
        quoted(text.drop_last()).push(text.last())
    }
}

/// A text for use inside single quotes of a shell.
pub fn quote(text: &str) -> (out: String)
    ensures
        out@ == quoted(text@),
{
    let n = text.unicode_len();
    let mut out = String::new();
    let mut i: usize = 0;
    assert(text@.subrange(0, 0) =~= Seq::<char>::empty());
    while i < n
        invariant
            i <= n,
            n == text@.len(),
            out@ == quoted(text@.subrange(0, i as int)),
        decreases n - i,
    {
        let c = text.get_char(i);
        proof {
            let next = text@.subrange(0, i + 1);
            assert(next.drop_last() =~= text@.subrange(0, i as int));
            assert(next.last() == c);
        }
        if c == '\'' {
            out.append("'\\''");
        } else {
            let piece = text.substring_char(i, i + 1);
            proof {
                assert(piece@ =~= seq![c]);
                assert(out@ + piece@ =~= out@.push(c));
            }
            out.append(piece);
        }
        i += 1;
    }
    assert(text@.subrange(0, n as int) =~= text@);
    out
}

/// `cat` of the path.
pub fn file_read_command(params: &FileReadParams) -> (cmd: ToolCommand)
    ensures
        cmd.command@ == "cat"@,
        texts(cmd.args@) == seq![params.path@],
{
    let mut args: Vec<String> = Vec::new();
    args.push(params.path.clone());
    assert(texts(args@) =~= seq![params.path@]);
    ToolCommand { command: "cat".to_owned(), args }
}

/// A shell script that writes the content to the path, through a here
/// document.
pub fn file_write_command(params: &FileWriteParams) -> (cmd: ToolCommand)
    ensures
        cmd.command@ == "bash"@,
        texts(cmd.args@) == seq![
            "-c"@,
            "cat > '"@ + quoted(params.path@) + "' << 'MCPEOF'\n"@ + params.content@
                + "\nMCPEOF"@,
        ],
{
    let mut script = "cat > '".to_owned();
    script.append(quote(params.path.as_str()).as_str());
    script.append("' << 'MCPEOF'\n");
    script.append(params.content.as_str());
    script.append("\nMCPEOF");
    let ghost text = script@;
    let mut args: Vec<String> = Vec::new();
    args.push("-c".to_owned());
    args.push(script);
    assert(texts(args@) =~= seq!["-c"@, text]);
    ToolCommand { command: "bash".to_owned(), args }
}

/// `ls -la` of the path.
pub fn file_list_command(params: &FileListParams) -> (cmd: ToolCommand)
    ensures
        cmd.command@ == "ls"@,
        texts(cmd.args@) == seq!["-la"@, params.path@],
{
    let mut args: Vec<String> = Vec::new();
    args.push("-la".to_owned());
    args.push(params.path.clone());
    assert(texts(args@) =~= seq!["-la"@, params.path@]);
    ToolCommand { command: "ls".to_owned(), args }
}

/// `mkdir` of the path, with `-p` unless the parents are not wanted.
pub fn file_mkdir_command(params: &FileMkdirParams) -> (cmd: ToolCommand)
    ensures
        cmd.command@ == "mkdir"@,
        texts(cmd.args@) == (if params.recursive != Some(false) {
            seq!["-p"@, params.path@]
        } else {
            seq![params.path@]
        }),
{
    let recursive = match params.recursive {
        Some(r) => r,
        None => true,
    };
    let mut args: Vec<String> = Vec::new();
    if recursive {
        args.push("-p".to_owned());
    }
    args.push(params.path.clone());
    proof {
        if recursive {
            assert(texts(args@) =~= seq!["-p"@, params.path@]);
        } else {
            assert(texts(args@) =~= seq![params.path@]);
        }
    }
    ToolCommand { command: "mkdir".to_owned(), args }
}

/// `rm -f` of the path, with `-r` if directories are to go with what is in
/// them.
pub fn file_remove_command(params: &FileRemoveParams) -> (cmd: ToolCommand)
    ensures
        cmd.command@ == "rm"@,
        texts(cmd.args@) == (if params.recursive == Some(true) {
            seq!["-f"@, "-r"@, params.path@]
        } else {
            seq!["-f"@, params.path@]
        }),
{
    let recursive = match params.recursive {
        Some(r) => r,
        None => false,
    };
    let mut args: Vec<String> = Vec::new();
    args.push("-f".to_owned());
    if recursive {
        args.push("-r".to_owned());
    }
    args.push(params.path.clone());
    proof {
        if recursive {
            assert(texts(args@) =~= seq!["-f"@, "-r"@, params.path@]);
        } else {
            assert(texts(args@) =~= seq!["-f"@, params.path@]);
        }
    }
    ToolCommand { command: "rm".to_owned(), args }
}

/// `mv` from the source to the destination.
pub fn file_move_command(params: &FileMoveParams) -> (cmd: ToolCommand)
    ensures
        cmd.command@ == "mv"@,
        texts(cmd.args@) == seq![params.src@, params.dst@],
{
    let mut args: Vec<String> = Vec::new();
    args.push(params.src.clone());
    args.push(params.dst.clone());
    assert(texts(args@) =~= seq![params.src@, params.dst@]);
    ToolCommand { command: "mv".to_owned(), args }
}

/// `cp -r` from the source to the destination.
pub fn file_copy_command(params: &FileCopyParams) -> (cmd: ToolCommand)
    ensures
        cmd.command@ == "cp"@,
        texts(cmd.args@) == seq!["-r"@, params.src@, params.dst@],
{
    let mut args: Vec<String> = Vec::new();
    args.push("-r".to_owned());
    args.push(params.src.clone());
    args.push(params.dst.clone());
    assert(texts(args@) =~= seq!["-r"@, params.src@, params.dst@]);
    ToolCommand { command: "cp".to_owned(), args }
}

/// The format in which `stat` describes a file.
pub open spec fn stat_format() -> Seq<char> {
    "stat --format='{\"name\":\"%n\",\"size\":%s,\"type\":\"%F\",\"permissions\":\"%a\",\"modified\":\"%y\"}' '"@
}

/// A shell script that describes the file at the path by `stat`.
pub fn file_info_command(params: &FileInfoParams) -> (cmd: ToolCommand)
    ensures
        cmd.command@ == "bash"@,
        texts(cmd.args@) == seq!["-c"@, stat_format() + quoted(params.path@) + "'"@],
{
    let mut script =
        "stat --format='{\"name\":\"%n\",\"size\":%s,\"type\":\"%F\",\"permissions\":\"%a\",\"modified\":\"%y\"}' '".to_owned();
    script.append(quote(params.path.as_str()).as_str());
    script.append("'");
    let ghost text = script@;
    let mut args: Vec<String> = Vec::new();
    args.push("-c".to_owned());
    args.push(script);
    assert(texts(args@) =~= seq!["-c"@, text]);
    ToolCommand { command: "bash".to_owned(), args }
}

/// What a tool answers: what its command wrote where it succeeded, or the
/// phrase of its failure with what the command wrote to standard error.
pub fn tool_answer(exit_code: i32, success_text: String, failure_phrase: &str, stderr: &str) -> (answer:
    String)
    ensures
        answer@ == (if exit_code == 0 {
            success_text@
        } else {
            failure_phrase@ + ": "@ + stderr@
        }),
{
    if exit_code == 0 {
        success_text
    } else {
        crate::strings::concat3(failure_phrase, ": ", stderr)
    }
}

/// The numbers of a list of named numbers.
pub open spec fn number_fields(list: Seq<(String, i32)>) -> Seq<(Seq<char>, int)> {
    Seq::new(list.len(), |i: int| (list[i].0@, list[i].1 as int))
}

/// The JSON text, indented for reading, of the object that has the named
/// numbers and the named texts as its fields.
pub uninterp spec fn pretty_json(
    numbers: Seq<(Seq<char>, int)>,
    fields: Seq<(Seq<char>, Seq<char>)>,
) -> Seq<char>;

/// `serde_json::to_string_pretty` of a `serde_json::Value` that is an object
/// with the named numbers and the named texts as its fields: its JSON text,
/// indented. Writing such a value to a string does not fail.
#[verifier::external_body]
fn write_pretty_json(numbers: &Vec<(String, i32)>, fields: &Vec<(String, String)>) -> (text: String)
    ensures
        text@ == pretty_json(number_fields(numbers@), spec_pairs(fields@)),
{
    let mut object = serde_json::Map::new();
    for (name, number) in numbers.iter() {
        object.insert(name.clone(), serde_json::Value::from(*number));
    }
    for (name, value) in fields.iter() {
        object.insert(name.clone(), serde_json::Value::from(value.as_str()));
    }
    serde_json::to_string_pretty(&serde_json::Value::Object(object)).unwrap_or_default()
}

/// Format command result as JSON string: an object with the exit code under
/// `exit_code` and what the command wrote under `stdout` and `stderr`.
pub fn format_command_result(result: &CommandResult) -> (text: String)
    ensures
        text@ == pretty_json(
            seq![("exit_code"@, result.exit_code as int)],
            seq![("stdout"@, result.stdout@), ("stderr"@, result.stderr@)],
        ),
{
    let mut numbers: Vec<(String, i32)> = Vec::new();
    numbers.push(("exit_code".to_owned(), result.exit_code));
    let mut fields: Vec<(String, String)> = Vec::new();
    fields.push(("stdout".to_owned(), result.stdout.clone()));
    fields.push(("stderr".to_owned(), result.stderr.clone()));
    assert(number_fields(numbers@) =~= seq![("exit_code"@, result.exit_code as int)]);
    assert(spec_pairs(fields@) =~= seq![("stdout"@, result.stdout@), ("stderr"@, result.stderr@)]);
    write_pretty_json(&numbers, &fields)
}

} // verus!
