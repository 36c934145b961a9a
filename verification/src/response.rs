//! Making sense of a finished process: a payload on success, a classified
//! failure otherwise.

use crate::cli_process::ProcessOutcome;
use crate::encoding::{base64_len, base64_standard, encode};
use crate::error::FiberpathError;
use crate::json::{from_slice, is_object, json_members, json_parse, json_text, or_insert_text};
use crate::text::{
    from_utf8_lossy, signed_decimal, signed_decimal_string, trim, trimmed, utf8_lossy,
};
use serde_json::{Error, Value};
use vstd::prelude::*;
use vstd::string::*;

verus! {

/// An exit code as a report shows it.
pub open spec fn exit_code_text(code: Option<i32>) -> Seq<char> {
    match code {
        Some(code) => "Some("@ + signed_decimal(code as int) + ")"@,
        None => "None"@,
    }
}

/// The report of a failed process: its exit code, then what it wrote to its
/// standard output and to its standard error, each without the whitespace
/// around it.
pub open spec fn cli_error_text(code: Option<i32>, stdout: Seq<char>, stderr: Seq<char>) -> Seq<
    char,
> {
    "fiberpath exited with status "@ + exit_code_text(code) + "\nstdout:\n"@ + trimmed(stdout)
        + "\nstderr:\n"@ + trimmed(stderr)
}

/// The report of `output`, its streams decoded leniently.
pub open spec fn cli_error_report(output: ProcessOutcome) -> Seq<char> {
    cli_error_text(output.code, utf8_lossy(output.stdout@), utf8_lossy(output.stderr@))
}

/// Whether `needle` occurs in `text` as a run of neighbouring characters.
pub open spec fn occurs_in(needle: Seq<char>, text: Seq<char>) -> bool {
    exists|at: int|
        0 <= at && at + needle.len() <= text.len() && #[trigger] text.subrange(
            at,
            at + needle.len(),
        ) == needle
}

/// The report of a failed process holds all three: the exit code, the
/// trimmed standard output and the trimmed standard error, each word for
/// word.
pub proof fn lemma_report_embeds_all(code: Option<i32>, stdout: Seq<char>, stderr: Seq<char>)
    ensures
        occurs_in(exit_code_text(code), cli_error_text(code, stdout, stderr)),
        occurs_in(trimmed(stdout), cli_error_text(code, stdout, stderr)),
        occurs_in(trimmed(stderr), cli_error_text(code, stdout, stderr)),
{
    let report = cli_error_text(code, stdout, stderr);
    let head = "fiberpath exited with status "@;
    let shown = exit_code_text(code);
    let mid = "\nstdout:\n"@;
    let out = trimmed(stdout);
    let tail = "\nstderr:\n"@;
    let err = trimmed(stderr);
    let a = head.len() as int;
    let b = a + shown.len() + mid.len();
    let c = b + out.len() + tail.len();
    assert(report.subrange(a, a + shown.len()) =~= shown);
    assert(report.subrange(b, b + out.len()) =~= out);
    assert(report.subrange(c, c + err.len()) =~= err);
}

fn exit_code_string(code: Option<i32>) -> (text: String)
    ensures
        text@ == exit_code_text(code),
{
    match code {
        Some(code) => {
            let mut text = String::from_str("Some(");
            let digits = signed_decimal_string(code);
            text.append(digits.as_str());
            text.append(")");
            text
        },
        None => String::from_str("None"),
    }
}

/// Reports a failed process: the exit code and both output streams, decoded
/// leniently and trimmed, since the tool may put its diagnostic on either.
pub fn format_cli_error(output: &ProcessOutcome) -> (report: String)
    ensures
        report@ == cli_error_report(*output),
{
    let stderr = from_utf8_lossy(&output.stderr);
    let stdout = from_utf8_lossy(&output.stdout);
    let mut report = String::from_str("fiberpath exited with status ");
    let code = exit_code_string(output.code);
    report.append(code.as_str());
    report.append("\nstdout:\n");
    report.append(trim(stdout.as_str()));
    report.append("\nstderr:\n");
    report.append(trim(stderr.as_str()));
    report
}

/// Classifies the result of parsing the standard output of a process that
/// exited with status zero: the value is the payload, and an error means the
/// tool broke its promise to write JSON.
pub fn parsed_payload(parsed: Result<Value, Error>) -> (payload: Result<Value, FiberpathError>)
    ensures
        match parsed {
            Ok(value) => payload matches Ok(held) && held == value,
            Err(error) => payload matches Err(FiberpathError::Parse(held)) && held == error,
        },
{
    match parsed {
        Ok(value) => Ok(value),
        Err(error) => Err(FiberpathError::from(error)),
    }
}

/// What [`parse_json_payload`] makes of `output`, as a relation to its
/// result.
pub open spec fn is_json_payload_of(
    payload: Result<Value, FiberpathError>,
    output: ProcessOutcome,
) -> bool {
    if !output.succeeded() {
        payload matches Err(FiberpathError::Process(report)) && report@ == cli_error_report(output)
    } else {
        match json_parse(output.stdout@) {
            Ok(value) => payload matches Ok(held) && held == value,
            Err(error) => payload matches Err(FiberpathError::Parse(held)) && held == error,
        }
    }
}

/// Turns a finished process into its payload.
///
/// Any exit status but zero is a process failure that carries the report of
/// [`format_cli_error`]. With exit status zero the standard output is parsed
/// as one JSON value, which is the payload; output that is not JSON is a
/// parse failure, never a process failure.
pub fn parse_json_payload(output: &ProcessOutcome) -> (payload: Result<Value, FiberpathError>)
    ensures
        is_json_payload_of(payload, *output),
{
    if !output.success() {
        return Err(FiberpathError::Process(format_cli_error(output)));
    }
    parsed_payload(from_slice(&output.stdout))
}

/// Whether `patched` is `payload` with the output file made known: an object
/// that names no `output` gains that member, a string holding `output_file`,
/// and keeps every other member; an object that names one, and a value that
/// is not an object, stay as they are.
pub open spec fn names_output(patched: Value, payload: Value, output_file: Seq<char>) -> bool {
    match json_members(payload) {
        None => patched == payload,
        Some(before) => if before.dom().contains("output"@) {
            patched == payload
        } else {
            &&& json_members(patched) matches Some(after)
            &&& after.dom() == before.dom().insert("output"@)
            &&& json_text(after["output"@]) == Some(output_file)
            &&& forall|name: Seq<char>| #[trigger]
                before.dom().contains(name) ==> after[name] == before[name]
        },
    }
}

/// Makes sure that the payload of a plan names the file that was written,
/// under `output`, also where the tool's own JSON left it out.
pub fn with_output(payload: Value, output_file: String) -> (patched: Value)
    ensures
        names_output(patched, payload, output_file@),
{
    let mut patched = payload;
    if is_object(&patched) {
        or_insert_text(&mut patched, "output", output_file);
    }
    patched
}

/// What [`plan_payload`] makes of `output`, as a relation to its result.
pub open spec fn is_plan_payload_of(
    payload: Result<Value, FiberpathError>,
    output: ProcessOutcome,
    output_file: Seq<char>,
) -> bool {
    if !output.succeeded() {
        payload matches Err(FiberpathError::Process(report)) && report@ == cli_error_report(output)
    } else {
        match json_parse(output.stdout@) {
            Ok(value) => payload matches Ok(held) && names_output(held, value, output_file),
            Err(error) => payload matches Err(FiberpathError::Parse(held)) && held == error,
        }
    }
}

/// Turns a finished `plan` process into its payload: the JSON value it wrote,
/// which, if it is an object, names the output file in any case.
pub fn plan_payload(output: &ProcessOutcome, output_file: String) -> (payload: Result<
    Value,
    FiberpathError,
>)
    ensures
        is_plan_payload_of(payload, *output, output_file@),
{
    match parse_json_payload(output) {
        Ok(value) => Ok(with_output(value, output_file)),
        Err(error) => Err(error),
    }
}

/// A rendered preview: where the image lies, and the image itself as text.
#[derive(Clone, Debug)]
pub struct PlotPreview {
    /// The path of the image file.
    pub path: String,
    /// The bytes of the image file in standard base64.
    pub image_base64: String,
}

/// Says which file holds the preview that a finished `plot` process wrote.
///
/// Any exit status but zero is a process failure that carries the report of
/// [`format_cli_error`]; with exit status zero the file to read is the
/// output file the process was given.
pub fn preview_artifact(output: &ProcessOutcome, output_file: String) -> (artifact: Result<
    String,
    FiberpathError,
>)
    ensures
        if output.succeeded() {
            artifact matches Ok(path) && path@ == output_file@
        } else {
            artifact matches Err(FiberpathError::Process(report)) && report@ == cli_error_report(
                *output,
            )
        },
{
    if !output.success() {
        return Err(FiberpathError::Process(format_cli_error(output)));
    }
    Ok(output_file)
}

/// Makes the payload of a preview from the attempt to read the image at
/// `path`: the bytes that were read, or the reason why none were.
///
/// Bytes that were read become the preview, encoded in base64. A failed read
/// is a failure of its own kind, apart from process and parse failures.
pub fn preview_payload(path: String, read: Result<Vec<u8>, String>) -> (payload: Result<
    PlotPreview,
    FiberpathError,
>)
    requires
        read matches Ok(bytes) ==> base64_len(bytes@.len()) <= usize::MAX,
    ensures
        match read {
            Ok(bytes) => {
                &&& payload matches Ok(preview)
                &&& preview.path@ == path@
                &&& preview.image_base64@ == base64_standard(bytes@)
            },
            Err(reason) => payload matches Err(FiberpathError::ArtifactRead(told)) && told@
                == reason@,
        },
{
    match read {
        Ok(bytes) => {
            let image_base64 = encode(&bytes);
            Ok(PlotPreview { path, image_base64 })
        },
        Err(reason) => Err(FiberpathError::ArtifactRead(reason)),
    }
}

} // verus!
