//! Running the tool: the argument list it is started with and the reading
//! of what it left behind when it exited.

use vstd::prelude::*;
use vstd::string::*;
use vstd::utf8::{decode_utf8, valid_utf8};

use crate::env::{
    resolve_baud, resolve_port, resolved_baud, resolved_port, text_of, text_of_str, Environment,
};
use crate::text::{append_signed_decimal, decimal_digits, decimal_string, signed_decimal_digits};
use crate::types::error::BjigError;

verus! {

/// Whether an exit status means success: the process returned code zero.
/// A process that a signal ended has no code.
pub open spec fn exit_succeeded(code: Option<i32>) -> bool {
    code == Some(0i32)
}

/// How an exit code reads in a failure message: `Some(3)`, `Some(-1)`,
/// `None`.
pub open spec fn exit_code_text(code: Option<i32>) -> Seq<char> {
    match code {
        Some(value) => "Some("@ + signed_decimal_digits(value as int) + ")"@,
        None => "None"@,
    }
}

/// The message of the failure reported for a process that exited without
/// success: its exit code, then what it wrote to standard error.
pub open spec fn exit_failure_text(code: Option<i32>, stderr: Seq<char>) -> Seq<char> {
    "Exit code: "@ + exit_code_text(code) + ", stderr: "@ + stderr
}

/// Builds the message of `exit_failure_text`.
pub fn exit_failure_message(code: Option<i32>, stderr: &str) -> (message: String)
    ensures
        message@ == exit_failure_text(code, stderr@),
{
    let mut message = String::from_str("Exit code: ");
    match code {
        Some(value) => {
            message.append("Some(");
            append_signed_decimal(&mut message, value);
            message.append(")");
        },
        None => {
            message.append("None");
        },
    }
    assert(message@ =~= "Exit code: "@ + exit_code_text(code));
    message.append(", stderr: ");
    message.append(stderr);
    assert(message@ =~= exit_failure_text(code, stderr@));
    message
}

/// The failure reported for a process that exited without success.
pub fn exit_failure(code: Option<i32>, stderr: &str) -> (error: BjigError)
    ensures
        error matches BjigError::CommandFailed(message) && message@ == exit_failure_text(
            code,
            stderr@,
        ),
{
    BjigError::CommandFailed(exit_failure_message(code, stderr))
}

/// `serde_json::Value`, carried through unchanged: nothing here looks
/// inside a document.
#[verifier::external_type_specification]
#[verifier::external_body]
pub struct ExJsonValue(serde_json::Value);

/// Whether a text is one JSON document in the eyes of
/// `serde_json::from_str`.
pub uninterp spec fn is_json_document(text: Seq<char>) -> bool;

/// Calls `serde_json::from_str` to read one `serde_json::Value`. The
/// contract claims no more than that success is decided by the text alone;
/// which texts succeed is left to `is_json_document`.
#[verifier::external_body]
fn json_from_str(text: &str) -> (parsed: Result<serde_json::Value, serde_json::Error>)
    ensures
        parsed is Ok <==> is_json_document(text@),
{
    serde_json::from_str(text)
}

/// What a JSON document holds, written down: the text that
/// `serde_json::to_string` gives for it. The text is decided by the
/// document alone. How it reads is left to `serde_json`: it is compact,
/// without spaces or line breaks between the parts of the document.
/// Nothing is claimed here of any single document.
pub uninterp spec fn document_text(document: serde_json::Value) -> Seq<char>;

/// Calls `String::from_utf8`: it succeeds on well-formed UTF-8 and on
/// nothing else, and the string it gives holds the characters that the
/// bytes encode.
#[verifier::external_body]
fn string_from_utf8(bytes: Vec<u8>) -> (text: Result<String, std::string::FromUtf8Error>)
    ensures
        text is Ok <==> valid_utf8(bytes@),
        text matches Ok(decoded) ==> decoded@ == decode_utf8(bytes@),
{
    String::from_utf8(bytes)
}

/// What a finished command hands to its caller: the text it wrote to
/// standard output if it exited with success, else a `CommandFailed` with
/// its exit code and standard error. Output that is not UTF-8 is a
/// `Utf8Error`.
pub fn command_output(code: Option<i32>, stdout: Vec<u8>, stderr: &str) -> (output: Result<
    String,
    BjigError,
>)
    ensures
        !exit_succeeded(code) ==> (output matches Err(BjigError::CommandFailed(message))
            && message@ == exit_failure_text(code, stderr@)),
        exit_succeeded(code) && valid_utf8(stdout@) ==> (output matches Ok(text) && text@
            == decode_utf8(stdout@)),
        exit_succeeded(code) && !valid_utf8(stdout@) ==> (output matches Err(
            BjigError::Utf8Error(_),
        )),
{
    let succeeded = match code {
        Some(value) => value == 0,
        None => false,
    };
    if !succeeded {
        return Err(exit_failure(code, stderr));
    }
    match string_from_utf8(stdout) {
        Ok(text) => Ok(text),
        Err(error) => Err(BjigError::from(error)),
    }
}

/// Reads the output of a command as one JSON document. A text that is no
/// document is a `JsonParseError`.
pub fn parse_json(output: &str) -> (document: Result<serde_json::Value, BjigError>)
    ensures
        document is Ok <==> is_json_document(output@),
        document matches Err(error) ==> error is JsonParseError,
{
    match json_from_str(output) {
        Ok(value) => Ok(value),
        Err(error) => Err(BjigError::from(error)),
    }
}

/// Writes a JSON document as the text that is passed on the command line.
/// A document that cannot be written is a `JsonParseError`.
pub fn json_text(document: &serde_json::Value) -> (text: Result<String, BjigError>)
    ensures
        text matches Ok(written) ==> written@ == document_text(*document),
        text matches Err(error) ==> error is JsonParseError,
{
    match json_to_string(document) {
        Ok(text) => Ok(text),
        Err(error) => Err(BjigError::from(error)),
    }
}

/// Calls `serde_json::to_string` on a `serde_json::Value`. Where it gives a
/// text, that text is the one that the document decides, `document_text`.
/// Whether it gives one is not claimed.
#[verifier::external_body]
fn json_to_string(value: &serde_json::Value) -> (text: Result<String, serde_json::Error>)
    ensures
        text matches Ok(written) ==> written@ == document_text(*value),
{
    serde_json::to_string(value)
}

/// The characters of each string of a list.
pub open spec fn arg_texts(args: Seq<String>) -> Seq<Seq<char>> {
    args.map_values(|arg: String| arg@)
}

/// The characters of each string slice of a list.
pub open spec fn str_texts(parts: Seq<&str>) -> Seq<Seq<char>> {
    parts.map_values(|part: &str| part@)
}

/// Starts the tool for one command: knows where the binary is and which
/// port and baud rate to fall back on.
#[derive(Debug, Clone, Copy)]
pub struct CommandExecutor<'a> {
    /// Path of the tool's binary.
    pub bjig_path: &'a str,
    /// Port to use where a command names none.
    pub default_port: Option<&'a str>,
    /// Baud rate to use where a command names none.
    pub default_baud: Option<u32>,
}

/// The argument list of a command that talks to the device: `--port` and
/// the port, `--baud` and the baud rate in decimal, then the subcommand's
/// own words.
pub open spec fn device_args(port: Seq<char>, baud: u32, subcommand: Seq<Seq<char>>) -> Seq<
    Seq<char>,
> {
    seq!["--port"@, port, "--baud"@, decimal_digits(baud as nat)] + subcommand
}

/// Whether `result` is what building the argument list for `subcommand`
/// gives, with `default_port` and `default_baud` as the configured
/// defaults: the list of `device_args` for the resolved port and baud rate,
/// or `PortNotConfigured` where no port can be resolved.
pub open spec fn is_command_line(
    default_port: Option<Seq<char>>,
    default_baud: Option<u32>,
    subcommand: Seq<Seq<char>>,
    port_override: Option<Seq<char>>,
    baud_override: Option<u32>,
    env: Environment,
    result: Result<Vec<String>, BjigError>,
) -> bool {
    match resolved_port(port_override, default_port, text_of(env.port)) {
        Some(port) => result matches Ok(args) && arg_texts(args@) == device_args(
            port,
            resolved_baud(baud_override, default_baud, env.baud_rate()),
            subcommand,
        ),
        None => result == Err::<Vec<String>, BjigError>(BjigError::PortNotConfigured),
    }
}

/// Appends an owned copy of each word to `args`.
pub fn push_words(args: &mut Vec<String>, words: &[&str])
    ensures
        arg_texts(final(args)@) == arg_texts(old(args)@) + str_texts(words@),
{
    let ghost head = arg_texts(args@);
    let mut i: usize = 0;
    assert(str_texts(words@.take(0)) =~= Seq::<Seq<char>>::empty());
    assert(head + Seq::<Seq<char>>::empty() =~= head);
    while i < words.len()
        invariant
            i <= words.len(),
            arg_texts(args@) == head + str_texts(words@.take(i as int)),
        decreases words.len() - i,
    {
        let ghost before = args@;
        let word = String::from_str(words[i]);
        args.push(word);
        proof {
            let taken = words@.take(i + 1);
            assert(taken.drop_last() =~= words@.take(i as int));
            assert(taken.last() == words@[i as int]);
            assert(str_texts(taken) =~= str_texts(words@.take(i as int)).push(words@[i as int]@));
            assert(arg_texts(args@) =~= arg_texts(before).push(word@));
            assert(arg_texts(args@) =~= head + str_texts(taken));
        }
        i = i + 1;
    }
    assert(words@.take(i as int) =~= words@);
}

/// The words as owned strings: the argument list of a command that needs
/// no device.
pub fn owned_args(words: &[&str]) -> (args: Vec<String>)
    ensures
        arg_texts(args@) == str_texts(words@),
{
    let mut args: Vec<String> = Vec::new();
    assert(arg_texts(args@) =~= Seq::<Seq<char>>::empty());
    push_words(&mut args, words);
    assert(arg_texts(args@) =~= str_texts(words@));
    args
}

impl<'a> CommandExecutor<'a> {
    /// An executor for the binary at `bjig_path`.
    pub fn new(
        bjig_path: &'a str,
        default_port: Option<&'a str>,
        default_baud: Option<u32>,
    ) -> (executor: CommandExecutor<'a>)
        ensures
            executor.bjig_path == bjig_path,
            executor.default_port == default_port,
            executor.default_baud == default_baud,
    {
        CommandExecutor { bjig_path, default_port, default_baud }
    }

    /// Builds the full argument list for a subcommand that talks to the
    /// device.
    pub fn build_args(
        &self,
        subcommand: &[&str],
        port_override: Option<&str>,
        baud_override: Option<u32>,
        env: &Environment,
    ) -> (result: Result<Vec<String>, BjigError>)
        ensures
            is_command_line(
                text_of_str(self.default_port),
                self.default_baud,
                str_texts(subcommand@),
                text_of_str(port_override),
                baud_override,
                *env,
                result,
            ),
    {
        let port = match resolve_port(port_override, self.default_port, env) {
            Ok(port) => port,
            Err(error) => {
                return Err(error);
            },
        };
        let baud = resolve_baud(baud_override, self.default_baud, env);
        let mut args: Vec<String> = Vec::new();
        args.push(String::from_str("--port"));
        args.push(port);
        args.push(String::from_str("--baud"));
        args.push(decimal_string(baud as u64));
        let ghost head = arg_texts(args@);
        assert(head =~= seq![
            "--port"@,
            port@,
            "--baud"@,
            decimal_digits(baud as nat),
        ]);
        push_words(&mut args, subcommand);
        assert(arg_texts(args@) =~= device_args(port@, baud, str_texts(subcommand@)));
        Ok(args)
    }
}

} // verus!
