//! Spelling an operation on the command line.
//!
//! A [`Request`] is an operation with its typed parameters. Its
//! [`CommandSpec`] is the argument vector the tool is started with. This
//! module is the only place that knows the shape of each operation's
//! arguments.

use crate::paths::{join, path_join, path_lossy, to_string_lossy};
use crate::text::{
    decimal, decimal_string, lemma_decimal_of_numeral, lemma_numeral_of_decimal, numeral_u32,
    parse_u32, texts,
};
use std::path::PathBuf;
use vstd::prelude::*;
use vstd::string::*;

verus! {

/// The subcommands of the tool that the bridge invokes.
#[derive(Clone, Copy, Debug, PartialEq, Eq, Structural)]
pub enum Operation {
    Plan,
    Simulate,
    Plot,
    Stream,
}

impl Operation {
    /// The word that selects this subcommand.
    pub open spec fn name(self) -> Seq<char> {
        match self {
            Operation::Plan => "plan"@,
            Operation::Simulate => "simulate"@,
            Operation::Plot => "plot"@,
            Operation::Stream => "stream"@,
        }
    }

    /// Whether this subcommand is asked to report in JSON. Plotting writes an
    /// image instead.
    pub open spec fn reports_json(self) -> bool {
        self != Operation::Plot
    }

    /// The word that selects this subcommand.
    pub fn as_str(self) -> (word: &'static str)
        ensures
            word@ == self.name(),
    {
        match self {
            Operation::Plan => "plan",
            Operation::Simulate => "simulate",
            Operation::Plot => "plot",
            Operation::Stream => "stream",
        }
    }
}

/// An operation with its parameters.
#[derive(Clone, Debug)]
pub enum Request {
    /// Plan the winding described by `input` and write the program to
    /// `output`, with the axes named after `axis_format` if one is given.
    Plan { input: String, output: String, axis_format: Option<String> },
    /// Simulate the program at `path`.
    Simulate { path: String },
    /// Render the program at `path` as an image at `output`, scaled by
    /// `scale`, which is the number as the tool is to read it.
    Preview { path: String, output: String, scale: String },
    /// Send the program at `path` to the device at `port` at `baud_rate`, or,
    /// for a dry run, to no device at all.
    Stream { path: String, port: Option<String>, baud_rate: u32, dry_run: bool },
}

/// A [`Request`] as contracts see it.
pub enum RequestView {
    Plan { input: Seq<char>, output: Seq<char>, axis_format: Option<Seq<char>> },
    Simulate { path: Seq<char> },
    Preview { path: Seq<char>, output: Seq<char>, scale: Seq<char> },
    Stream { path: Seq<char>, port: Option<Seq<char>>, baud_rate: u32, dry_run: bool },
}

/// The text of an optional string.
pub open spec fn option_text(text: Option<String>) -> Option<Seq<char>> {
    match text {
        Some(text) => Some(text@),
        None => None,
    }
}

impl View for Request {
    type V = RequestView;

    open spec fn view(&self) -> RequestView {
        match *self {
            Request::Plan { input, output, axis_format } => RequestView::Plan {
                input: input@,
                output: output@,
                axis_format: option_text(axis_format),
            },
            Request::Simulate { path } => RequestView::Simulate { path: path@ },
            Request::Preview { path, output, scale } => RequestView::Preview {
                path: path@,
                output: output@,
                scale: scale@,
            },
            Request::Stream { path, port, baud_rate, dry_run } => RequestView::Stream {
                path: path@,
                port: option_text(port),
                baud_rate,
                dry_run,
            },
        }
    }
}

/// The command of one invocation: the subcommand, the argument vector that
/// starts with its name, whether JSON is asked for, and the file the tool is
/// told to write, if any. It does not change once it is built.
#[derive(Debug)]
pub struct CommandSpec {
    operation: Operation,
    args: Vec<String>,
    json: bool,
    artifact: Option<String>,
}

/// A [`CommandSpec`] as contracts see it.
pub struct CommandView {
    pub operation: Operation,
    pub args: Seq<Seq<char>>,
    pub json: bool,
    pub artifact: Option<Seq<char>>,
}

impl View for CommandSpec {
    type V = CommandView;

    closed spec fn view(&self) -> CommandView {
        CommandView {
            operation: self.operation,
            args: texts(self.args@),
            json: self.json,
            artifact: option_text(self.artifact),
        }
    }
}

/// `plan <input> --output <output> --json [--axis-format <format>]`
pub open spec fn plan_args(
    input: Seq<char>,
    output: Seq<char>,
    axis_format: Option<Seq<char>>,
) -> Seq<Seq<char>> {
    let fixed = seq!["plan"@, input, "--output"@, output, "--json"@];
    match axis_format {
        Some(format) => fixed + seq!["--axis-format"@, format],
        None => fixed,
    }
}

/// `simulate <path> --json`
pub open spec fn simulate_args(path: Seq<char>) -> Seq<Seq<char>> {
    seq!["simulate"@, path, "--json"@]
}

/// `plot <path> --output <output> --scale <scale>`
pub open spec fn plot_args(path: Seq<char>, output: Seq<char>, scale: Seq<char>) -> Seq<
    Seq<char>,
> {
    seq!["plot"@, path, "--output"@, output, "--scale"@, scale]
}

/// `stream <path> --baud-rate <rate> --json [--dry-run | --port <port>]`
///
/// A dry run wins over a port: with both, only `--dry-run` is written.
pub open spec fn stream_args(
    path: Seq<char>,
    port: Option<Seq<char>>,
    baud_rate: u32,
    dry_run: bool,
) -> Seq<Seq<char>> {
    let fixed = seq!["stream"@, path, "--baud-rate"@, decimal(baud_rate as nat), "--json"@];
    if dry_run {
        fixed + seq!["--dry-run"@]
    } else {
        match port {
            Some(port) => fixed + seq!["--port"@, port],
            None => fixed,
        }
    }
}

/// The command that carries out `request`.
pub open spec fn command_of(request: RequestView) -> CommandView {
    match request {
        RequestView::Plan { input, output, axis_format } => CommandView {
            operation: Operation::Plan,
            args: plan_args(input, output, axis_format),
            json: true,
            artifact: Some(output),
        },
        RequestView::Simulate { path } => CommandView {
            operation: Operation::Simulate,
            args: simulate_args(path),
            json: true,
            artifact: None,
        },
        RequestView::Preview { path, output, scale } => CommandView {
            operation: Operation::Plot,
            args: plot_args(path, output, scale),
            json: false,
            artifact: Some(output),
        },
        RequestView::Stream { path, port, baud_rate, dry_run } => CommandView {
            operation: Operation::Stream,
            args: stream_args(path, port, baud_rate, dry_run),
            json: true,
            artifact: None,
        },
    }
}

impl CommandSpec {
    /// Every command is the command of the request that its arguments spell.
    #[verifier::type_invariant]
    spec fn spells_its_request(self) -> bool {
        request_of(texts(self.args@)) matches Some(request) && self@ == command_of(request)
    }

    /// The request this command carries out, as the tool gets to see it.
    ///
    /// Building the command of the result gives this command again.
    pub fn request(&self) -> (request: Request)
        ensures
            request_of(self@.args) == Some(request@),
            command_of(request@) == self@,
    {
        proof {
            use_type_invariant(self);
        }
        match derive_request(&self.args) {
            Some(request) => request,
            None => vstd::pervasive::unreached(),
        }
    }

    /// The subcommand.
    pub fn operation(&self) -> (operation: Operation)
        ensures
            operation == self@.operation,
    {
        self.operation
    }

    /// The argument vector, starting with the name of the subcommand.
    pub fn args(&self) -> (args: &Vec<String>)
        ensures
            texts(args@) == self@.args,
    {
        &self.args
    }

    /// Whether the tool is asked to report in JSON.
    pub fn json(&self) -> (json: bool)
        ensures
            json == self@.json,
    {
        self.json
    }

    /// The file the tool is told to write, if any.
    pub fn artifact(&self) -> (artifact: Option<String>)
        ensures
            option_text(artifact) == self@.artifact,
    {
        match &self.artifact {
            Some(path) => Some(path.clone()),
            None => None,
        }
    }
}

impl Request {
    /// Builds the command that carries out this request.
    pub fn command(self) -> (spec: CommandSpec)
        ensures
            spec@ == command_of(self@),
    {
        proof {
            lemma_request_recovered_as_passed(self@);
            lemma_passed_on_unchanged(self@);
        }
        match self {
            Request::Plan { input, output, axis_format } => {
                let mut args: Vec<String> = Vec::new();
                args.push(String::from_str("plan"));
                args.push(input);
                args.push(String::from_str("--output"));
                args.push(output.clone());
                args.push(String::from_str("--json"));
                match axis_format {
                    Some(format) => {
                        args.push(String::from_str("--axis-format"));
                        args.push(format);
                    },
                    None => {},
                }
                assert(texts(args@) =~= plan_args(input@, output@, option_text(axis_format)));
                CommandSpec { operation: Operation::Plan, args, json: true, artifact: Some(output) }
            },
            Request::Simulate { path } => {
                let mut args: Vec<String> = Vec::new();
                args.push(String::from_str("simulate"));
                args.push(path);
                args.push(String::from_str("--json"));
                assert(texts(args@) =~= simulate_args(path@));
                CommandSpec { operation: Operation::Simulate, args, json: true, artifact: None }
            },
            Request::Preview { path, output, scale } => {
                let mut args: Vec<String> = Vec::new();
                args.push(String::from_str("plot"));
                args.push(path);
                args.push(String::from_str("--output"));
                args.push(output.clone());
                args.push(String::from_str("--scale"));
                args.push(scale);
                assert(texts(args@) =~= plot_args(path@, output@, scale@));
                CommandSpec {
                    operation: Operation::Plot,
                    args,
                    json: false,
                    artifact: Some(output),
                }
            },
            Request::Stream { path, port, baud_rate, dry_run } => {
                let mut args: Vec<String> = Vec::new();
                args.push(String::from_str("stream"));
                args.push(path);
                args.push(String::from_str("--baud-rate"));
                args.push(decimal_string(baud_rate as u128));
                args.push(String::from_str("--json"));
                if dry_run {
                    args.push(String::from_str("--dry-run"));
                } else {
                    match port {
                        Some(port) => {
                            args.push(String::from_str("--port"));
                            args.push(port);
                        },
                        None => {},
                    }
                }
                assert(texts(args@) =~= stream_args(
                    path@,
                    option_text(port),
                    baud_rate,
                    dry_run,
                ));
                CommandSpec { operation: Operation::Stream, args, json: true, artifact: None }
            },
        }
    }
}

/// The request that an argument vector spells, and `None` for a vector that
/// no request is spelled as.
///
/// The first argument names the subcommand; what follows is read by
/// position, as [`command_of`] writes it.
pub open spec fn request_of(args: Seq<Seq<char>>) -> Option<RequestView> {
    if args.len() == 0 {
        None
    } else if args[0] == "plan"@ {
        if (args.len() == 5 || args.len() == 7) && args[2] == "--output"@ && args[4] == "--json"@
            && (args.len() == 7 ==> args[5] == "--axis-format"@) {
            Some(
                RequestView::Plan {
                    input: args[1],
                    output: args[3],
                    axis_format: if args.len() == 7 {
                        Some(args[6])
                    } else {
                        None
                    },
                },
            )
        } else {
            None
        }
    } else if args[0] == "simulate"@ {
        if args.len() == 3 && args[2] == "--json"@ {
            Some(RequestView::Simulate { path: args[1] })
        } else {
            None
        }
    } else if args[0] == "plot"@ {
        if args.len() == 6 && args[2] == "--output"@ && args[4] == "--scale"@ {
            Some(RequestView::Preview { path: args[1], output: args[3], scale: args[5] })
        } else {
            None
        }
    } else if args[0] == "stream"@ {
        if 5 <= args.len() <= 7 && args[2] == "--baud-rate"@ && args[4] == "--json"@ && (args.len()
            == 6 ==> args[5] == "--dry-run"@) && (args.len() == 7 ==> args[5] == "--port"@) {
            match numeral_u32(args[3]) {
                Some(baud_rate) => Some(
                    RequestView::Stream {
                        path: args[1],
                        port: if args.len() == 7 {
                            Some(args[6])
                        } else {
                            None
                        },
                        baud_rate,
                        dry_run: args.len() == 6,
                    },
                ),
                None => None,
            }
        } else {
            None
        }
    } else {
        None
    }
}

/// The request as the tool gets to see it: a dry run goes to no device, so
/// its port is not passed on.
pub open spec fn as_passed(request: RequestView) -> RequestView {
    match request {
        RequestView::Stream { path, port, baud_rate, dry_run } => RequestView::Stream {
            path,
            port: if dry_run {
                None
            } else {
                port
            },
            baud_rate,
            dry_run,
        },
        _ => request,
    }
}

/// The names of the subcommands differ from one another.
pub proof fn lemma_operation_names_differ()
    ensures
        forall|a: Operation, b: Operation| a != b ==> #[trigger] a.name() != #[trigger] b.name(),
{
    reveal_strlit("plan");
    reveal_strlit("simulate");
    reveal_strlit("plot");
    reveal_strlit("stream");
    assert("plan"@.len() == 4 && "simulate"@.len() == 8 && "plot"@.len() == 4 && "stream"@.len()
        == 6);
    assert("plan"@[2] == 'a' && "plot"@[2] == 'o');
}

/// Every command begins with the name of its subcommand and asks for JSON
/// exactly where the subcommand reports in JSON.
pub proof fn lemma_command_names_operation(request: RequestView)
    ensures
        command_of(request).args.len() > 0,
        command_of(request).args[0] == command_of(request).operation.name(),
        command_of(request).json == command_of(request).operation.reports_json(),
{
}

/// Reading the argument vector of a command gives back the request it was
/// built for, as passed: everything but the port of a dry run.
pub proof fn lemma_request_recovered_as_passed(request: RequestView)
    ensures
        request_of(command_of(request).args) == Some(as_passed(request)),
{
    lemma_operation_names_differ();
    assert(Operation::Plan.name() == "plan"@);
    assert(Operation::Simulate.name() == "simulate"@);
    assert(Operation::Plot.name() == "plot"@);
    assert(Operation::Stream.name() == "stream"@);
    match request {
        RequestView::Stream { path, port, baud_rate, dry_run } => {
            lemma_numeral_of_decimal(baud_rate as nat);
        },
        _ => {},
    }
}

/// The port of a dry run makes no difference to the command.
pub proof fn lemma_passed_on_unchanged(request: RequestView)
    ensures
        command_of(as_passed(request)) == command_of(request),
{
}

/// Reading the argument vector of a command gives back the request it was
/// built for: the subcommand and each of its parameters. The one request
/// left out is a dry run that names a port, whose port is never written.
pub proof fn lemma_request_recovered(request: RequestView)
    requires
        !(request matches RequestView::Stream { port, dry_run, .. } && dry_run && port is Some),
    ensures
        request_of(command_of(request).args) == Some(request),
{
    lemma_request_recovered_as_passed(request);
}

/// An argument vector that spells a request is the very vector that is
/// built for that request.
pub proof fn lemma_args_rebuilt(args: Seq<Seq<char>>)
    requires
        request_of(args) is Some,
    ensures
        command_of(request_of(args).unwrap()).args == args,
{
    let request = request_of(args).unwrap();
    match request {
        RequestView::Stream { path, port, baud_rate, dry_run } => {
            lemma_decimal_of_numeral(args[3]);
        },
        _ => {},
    }
    assert(command_of(request).args =~= args);
}

/// A dry run never writes a port, and always says that it is a dry run.
pub proof fn lemma_dry_run_wins(path: Seq<char>, port: Option<Seq<char>>, baud_rate: u32)
    ensures
        stream_args(path, port, baud_rate, true) == seq![
            "stream"@,
            path,
            "--baud-rate"@,
            decimal(baud_rate as nat),
            "--json"@,
            "--dry-run"@,
        ],
        stream_args(path, port, baud_rate, true) == stream_args(path, None, baud_rate, true),
{
    assert(stream_args(path, port, baud_rate, true) =~= seq![
        "stream"@,
        path,
        "--baud-rate"@,
        decimal(baud_rate as nat),
        "--json"@,
        "--dry-run"@,
    ]);
}

fn is_word(text: &String, word: &str) -> (same: bool)
    ensures
        same == (text@ == word@),
{
    text.as_str().eq(word)
}

/// Reads an argument vector back into the request it spells.
pub fn derive_request(args: &Vec<String>) -> (request: Option<Request>)
    ensures
        match request_of(texts(args@)) {
            Some(spelled) => request matches Some(read) && read@ == spelled,
            None => request is None,
        },
{
    let n = args.len();
    if n == 0 {
        return None;
    }
    if is_word(&args[0], "plan") {
        if (n == 5 || n == 7) && is_word(&args[2], "--output") && is_word(&args[4], "--json") && (n
            != 7 || is_word(&args[5], "--axis-format")) {
            let axis_format = if n == 7 {
                Some(args[6].clone())
            } else {
                None
            };
            Some(Request::Plan { input: args[1].clone(), output: args[3].clone(), axis_format })
        } else {
            None
        }
    } else if is_word(&args[0], "simulate") {
        if n == 3 && is_word(&args[2], "--json") {
            Some(Request::Simulate { path: args[1].clone() })
        } else {
            None
        }
    } else if is_word(&args[0], "plot") {
        if n == 6 && is_word(&args[2], "--output") && is_word(&args[4], "--scale") {
            Some(
                Request::Preview {
                    path: args[1].clone(),
                    output: args[3].clone(),
                    scale: args[5].clone(),
                },
            )
        } else {
            None
        }
    } else if is_word(&args[0], "stream") {
        if 5 <= n && n <= 7 && is_word(&args[2], "--baud-rate") && is_word(&args[4], "--json") && (n
            != 6 || is_word(&args[5], "--dry-run")) && (n != 7 || is_word(&args[5], "--port")) {
            match parse_u32(args[3].as_str()) {
                Some(baud_rate) => {
                    let port = if n == 7 {
                        Some(args[6].clone())
                    } else {
                        None
                    };
                    Some(Request::Stream { path: args[1].clone(), port, baud_rate, dry_run: n == 6 })
                },
                None => None,
            }
        } else {
            None
        }
    } else {
        None
    }
}

/// The name of a generated output file: a fixed prefix, the time in
/// milliseconds, and the extension of the kind of file.
pub open spec fn temp_file_name(millis: u128, extension: Seq<char>) -> Seq<char> {
    "fiberpath-"@ + decimal(millis as nat) + "."@ + extension
}

/// The generated output path for a file of the given kind: the file of that
/// name in the temporary directory.
pub open spec fn temp_path_spec(temp_dir: PathBuf, millis: u128, extension: Seq<char>) -> Seq<
    char,
> {
    path_lossy(path_join(temp_dir, temp_file_name(millis, extension)))
}

/// Generates the output path used when the caller names none.
///
/// `millis` is the time, in milliseconds since the epoch, as the caller read
/// it. Two paths generated for the same kind of file in the same millisecond
/// are the same path: the name is told apart by nothing but the time.
pub fn temp_path(temp_dir: &PathBuf, millis: u128, extension: &str) -> (path: String)
    ensures
        path@ == temp_path_spec(*temp_dir, millis, extension@),
{
    let mut name = String::from_str("fiberpath-");
    let stamp = decimal_string(millis);
    name.append(stamp.as_str());
    name.append(".");
    name.append(extension);
    let location = join(temp_dir, name.as_str());
    to_string_lossy(&location)
}

/// Builds the command that plans a winding.
///
/// Without an output path the program goes to a generated file with the
/// extension `gcode`; a given output path is used as it is.
pub fn plan_wind(
    input_path: String,
    output_path: Option<String>,
    axis_format: Option<String>,
    temp_dir: &PathBuf,
    millis: u128,
) -> (spec: CommandSpec)
    ensures
        spec@ == command_of(
            RequestView::Plan {
                input: input_path@,
                output: match output_path {
                    Some(path) => path@,
                    None => temp_path_spec(*temp_dir, millis, "gcode"@),
                },
                axis_format: option_text(axis_format),
            },
        ),
{
    let output = match output_path {
        Some(path) => path,
        None => temp_path(temp_dir, millis, "gcode"),
    };
    (Request::Plan { input: input_path, output, axis_format }).command()
}

/// Builds the command that simulates a program.
pub fn simulate_program(gcode_path: String) -> (spec: CommandSpec)
    ensures
        spec@ == command_of(RequestView::Simulate { path: gcode_path@ }),
{
    (Request::Simulate { path: gcode_path }).command()
}

/// Builds the command that renders a program as an image. The image goes to
/// a generated file with the extension `png`. `scale` is the scale factor as
/// the tool is to read it.
pub fn plot_preview(gcode_path: String, scale: String, temp_dir: &PathBuf, millis: u128) -> (spec:
    CommandSpec)
    ensures
        spec@ == command_of(
            RequestView::Preview {
                path: gcode_path@,
                output: temp_path_spec(*temp_dir, millis, "png"@),
                scale: scale@,
            },
        ),
{
    let output = temp_path(temp_dir, millis, "png");
    (Request::Preview { path: gcode_path, output, scale }).command()
}

/// Builds the command that streams a program to a device.
///
/// A dry run wins over a port: with `dry_run` set no port is written, whether
/// one is given or not.
pub fn stream_program(gcode_path: String, port: Option<String>, baud_rate: u32, dry_run: bool) -> (spec:
    CommandSpec)
    ensures
        spec@ == command_of(
            RequestView::Stream {
                path: gcode_path@,
                port: option_text(port),
                baud_rate,
                dry_run,
            },
        ),
{
    (Request::Stream { path: gcode_path, port, baud_rate, dry_run }).command()
}

} // verus!
