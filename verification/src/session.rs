//! The tool's session: a state machine that makes every decision of a run.
//!
//! One run of the tool is a dialogue between this machine and the world.  The
//! machine hands out a [`Request`] — probe a file name, run the external
//! encoder with an argument vector, delete a file, or stop — together with
//! the status lines to print; the caller performs the request and answers
//! with the [`Event`] that the world produced.  Validation, extension
//! routing, output naming, command construction and every printed message are
//! decided here; the caller only executes.
//!
//! The whole dialogue is pinned down by [`init_spec`] and [`step_spec`]:
//! [`init`] and [`Session::step`] return exactly what those spec functions
//! state, for every state and every event.

use crate::command::{
    build_extract_argv, build_trim_argv, extract_argv, render_trim_command, rendered_trim_command,
    trim_argv,
};
use crate::names::{
    audio_candidate, audio_candidate_of, intermediate_name, intermediate_name_of, mp3_candidate,
    mp3_candidate_of,
};
use crate::numbers::{parse_i32, parse_i32_spec};
use crate::text::{has_mp3_extension, has_mp4_extension, is_mp3_name, is_mp4_name};
use vstd::prelude::*;
use vstd::string::*;

verus! {

// ---------------------------------------------------------------------------
// Status lines
// ---------------------------------------------------------------------------
/// The usage line shown when the argument count is wrong.
pub open spec fn usage_msg(prog: Seq<char>) -> Seq<char> {
    "Usage: "@ + prog + " <filename> <number>"@
}

/// The error line for an input path that does not exist.
pub open spec fn missing_file_msg(f: Seq<char>) -> Seq<char> {
    "Error: The file '"@ + f + "' does not exist."@
}

/// The error line for an offset that is not an integer.
pub open spec fn invalid_number_msg() -> Seq<char> {
    "Error: Invalid number provided."@
}

/// The error line for an extension that is neither mp4 nor mp3.
pub open spec fn unsupported_msg() -> Seq<char> {
    "Error: Unsupported file format. Supported formats: mp4, mp3"@
}

/// The error line for a trim command that could not be launched.
pub open spec fn launch_failed_msg() -> Seq<char> {
    "Error: Failed to execute FFmpeg command."@
}

/// The error line for a trim command that ran and reported failure.
pub open spec fn tool_failed_msg() -> Seq<char> {
    "Error: FFmpeg command failed."@
}

/// The error line for an extraction command that could not be launched.
pub open spec fn extract_launch_failed_msg() -> Seq<char> {
    "Error: Failed to execute FFmpeg command for audio conversion."@
}

/// The error line for an extraction command that ran and reported failure.
pub open spec fn extract_failed_msg() -> Seq<char> {
    "Error: FFmpeg command for audio conversion failed."@
}

/// The error line for an intermediate clip that could not be deleted: it
/// names the file and carries the cause the operating system gave.
pub open spec fn delete_failed_msg(input: Seq<char>, cause: Seq<char>) -> Seq<char> {
    "Error: Failed to delete the original video file '"@ + input + "': "@ + cause
}

/// The confirmation line naming the produced audio file.
pub open spec fn mp3_created_msg(out: Seq<char>) -> Seq<char> {
    "Mp3 file "@ + out + " successfully created"@
}

/// The confirmation line for a finished audio extraction.
pub open spec fn converted_msg() -> Seq<char> {
    "Video successfully converted to audio (MP3) of 30 secs"@
}

/// The confirmation line for a finished video trim.
pub open spec fn video_ok_msg(f: Seq<char>) -> Seq<char> {
    "Video successfully cut and saved as '"@ + f + "_out.mp4'"@
}

/// The confirmation line for a finished audio trim.
pub open spec fn audio_ok_msg(f: Seq<char>) -> Seq<char> {
    "Audio successfully cut and saved as '"@ + f + "_out.mp3'"@
}

/// The echo of the shell line about to run in the audio path.
pub open spec fn command_msg(cmd: Seq<char>) -> Seq<char> {
    "FFmpeg command "@ + cmd
}

/// The last line of the video pipeline: the trim's own verdict.
pub open spec fn finish_msg(f: Seq<char>, trim_ok: bool) -> Seq<char> {
    if trim_ok {
        video_ok_msg(f)
    } else {
        tool_failed_msg()
    }
}

fn usage_message(prog: &str) -> (r: String)
    ensures
        r@ == usage_msg(prog@),
{
    let mut r = String::from_str("Usage: ");
    r.append(prog);
    r.append(" <filename> <number>");
    r
}

fn missing_file_message(f: &str) -> (r: String)
    ensures
        r@ == missing_file_msg(f@),
{
    let mut r = String::from_str("Error: The file '");
    r.append(f);
    r.append("' does not exist.");
    r
}

fn delete_failed_message(input: &str, cause: &str) -> (r: String)
    ensures
        r@ == delete_failed_msg(input@, cause@),
{
    let mut r = String::from_str("Error: Failed to delete the original video file '");
    r.append(input);
    r.append("': ");
    r.append(cause);
    r
}

fn mp3_created_message(out: &str) -> (r: String)
    ensures
        r@ == mp3_created_msg(out@),
{
    let mut r = String::from_str("Mp3 file ");
    r.append(out);
    r.append(" successfully created");
    r
}

fn video_ok_message(f: &str) -> (r: String)
    ensures
        r@ == video_ok_msg(f@),
{
    let mut r = String::from_str("Video successfully cut and saved as '");
    r.append(f);
    r.append("_out.mp4'");
    r
}

fn audio_ok_message(f: &str) -> (r: String)
    ensures
        r@ == audio_ok_msg(f@),
{
    let mut r = String::from_str("Audio successfully cut and saved as '");
    r.append(f);
    r.append("_out.mp3'");
    r
}

fn command_message(cmd: &str) -> (r: String)
    ensures
        r@ == command_msg(cmd@),
{
    let mut r = String::from_str("FFmpeg command ");
    r.append(cmd);
    r
}

fn finish_message(f: &str, trim_ok: bool) -> (r: String)
    ensures
        r@ == finish_msg(f@, trim_ok),
{
    if trim_ok {
        video_ok_message(f)
    } else {
        String::from_str("Error: FFmpeg command failed.")
    }
}

// ---------------------------------------------------------------------------
// The machine's vocabulary
// ---------------------------------------------------------------------------
/// What the session asks the world to do next.
pub enum Request {
    /// Run the external encoder with this argument vector, program name
    /// first, and answer with how it went.
    RunTool(Vec<String>),
    /// Answer whether a file of this name exists.
    Probe(String),
    /// Delete the file of this name and answer whether that worked.
    Delete(String),
    /// The run is over; nothing more will be asked.
    Done,
}

/// What the world answers to a request.
pub enum Event {
    /// Answer to [`Request::Probe`]: whether the file exists.
    Exists(bool),
    /// Answer to [`Request::RunTool`]: the process could not be started.
    ToolLaunchFailed,
    /// Answer to [`Request::RunTool`]: the process ran and exited, with
    /// `true` for a successful exit status.
    ToolExited(bool),
    /// Answer to [`Request::Delete`]: `None` when the file was removed,
    /// otherwise the operating system's reason rendered as text.
    Deleted(Option<String>),
}

/// Where a run stands: which answer the session is waiting for.
pub enum Session {
    /// Waiting for the existence probe of the input file itself.
    AwaitFileCheck { filename: String, offset_arg: String },
    /// Waiting for the outcome of the video trim command.
    AwaitTrim { filename: String, offset: i32 },
    /// Waiting for the probe of an extracted-audio candidate name.
    AwaitAudioProbe { filename: String, trim_ok: bool, next_index: u64 },
    /// Waiting for the outcome of the audio-extraction command.
    AwaitExtract { filename: String, trim_ok: bool, audio_out: String },
    /// Waiting for the deletion of the intermediate clip.
    AwaitDelete { filename: String, trim_ok: bool, audio_out: String },
    /// Waiting for the probe of a trimmed-audio candidate name.
    AwaitMp3Probe { filename: String, offset: i32, next_index: u64 },
    /// Waiting for the outcome of the audio trim command.
    AwaitMp3Run { filename: String },
    /// The run is over.
    Finished,
}

/// The lines to print now, and what to do next.
pub struct StepOutput {
    pub prints: Vec<String>,
    pub request: Request,
}

/// The mathematical form of a request.
pub enum RequestV {
    RunTool(Seq<Seq<char>>),
    Probe(Seq<char>),
    Delete(Seq<char>),
    Done,
}

/// The mathematical form of an event.
pub enum EventV {
    Exists(bool),
    ToolLaunchFailed,
    ToolExited(bool),
    Deleted(Option<Seq<char>>),
}

/// The mathematical form of a session state.
pub enum SessionV {
    AwaitFileCheck { filename: Seq<char>, offset_arg: Seq<char> },
    AwaitTrim { filename: Seq<char>, offset: i32 },
    AwaitAudioProbe { filename: Seq<char>, trim_ok: bool, next_index: u64 },
    AwaitExtract { filename: Seq<char>, trim_ok: bool, audio_out: Seq<char> },
    AwaitDelete { filename: Seq<char>, trim_ok: bool, audio_out: Seq<char> },
    AwaitMp3Probe { filename: Seq<char>, offset: i32, next_index: u64 },
    AwaitMp3Run { filename: Seq<char> },
    Finished,
}

/// One transition's outcome: the new state, the lines to print, the request.
pub struct StepV {
    pub next: SessionV,
    pub prints: Seq<Seq<char>>,
    pub request: RequestV,
}

impl View for Request {
    type V = RequestV;

    open spec fn view(&self) -> RequestV {
        match self {
            Request::RunTool(argv) => RequestV::RunTool(argv.deep_view()),
            Request::Probe(name) => RequestV::Probe(name@),
            Request::Delete(name) => RequestV::Delete(name@),
            Request::Done => RequestV::Done,
        }
    }
}

impl View for Event {
    type V = EventV;

    open spec fn view(&self) -> EventV {
        match self {
            Event::Exists(present) => EventV::Exists(*present),
            Event::ToolLaunchFailed => EventV::ToolLaunchFailed,
            Event::ToolExited(ok) => EventV::ToolExited(*ok),
            Event::Deleted(cause) => EventV::Deleted(
                match cause {
                    Option::Some(m) => Option::Some(m@),
                    Option::None => Option::None,
                },
            ),
        }
    }
}

impl View for Session {
    type V = SessionV;

    open spec fn view(&self) -> SessionV {
        match self {
            Session::AwaitFileCheck { filename, offset_arg } => SessionV::AwaitFileCheck {
                filename: filename@,
                offset_arg: offset_arg@,
            },
            Session::AwaitTrim { filename, offset } => SessionV::AwaitTrim {
                filename: filename@,
                offset: *offset,
            },
            Session::AwaitAudioProbe { filename, trim_ok, next_index } => {
                SessionV::AwaitAudioProbe {
                    filename: filename@,
                    trim_ok: *trim_ok,
                    next_index: *next_index,
                }
            },
            Session::AwaitExtract { filename, trim_ok, audio_out } => SessionV::AwaitExtract {
                filename: filename@,
                trim_ok: *trim_ok,
                audio_out: audio_out@,
            },
            Session::AwaitDelete { filename, trim_ok, audio_out } => SessionV::AwaitDelete {
                filename: filename@,
                trim_ok: *trim_ok,
                audio_out: audio_out@,
            },
            Session::AwaitMp3Probe { filename, offset, next_index } => SessionV::AwaitMp3Probe {
                filename: filename@,
                offset: *offset,
                next_index: *next_index,
            },
            Session::AwaitMp3Run { filename } => SessionV::AwaitMp3Run { filename: filename@ },
            Session::Finished => SessionV::Finished,
        }
    }
}

// ---------------------------------------------------------------------------
// The transition relation
// ---------------------------------------------------------------------------
/// A finished machine that prints nothing more.
pub open spec fn halt0() -> StepV {
    StepV { next: SessionV::Finished, prints: Seq::empty(), request: RequestV::Done }
}

/// A finished machine that prints one last line.
pub open spec fn halt1(a: Seq<char>) -> StepV {
    StepV { next: SessionV::Finished, prints: seq![a], request: RequestV::Done }
}

/// A finished machine that prints two last lines.
pub open spec fn halt2(a: Seq<char>, b: Seq<char>) -> StepV {
    StepV { next: SessionV::Finished, prints: seq![a, b], request: RequestV::Done }
}

/// A finished machine that prints three last lines.
pub open spec fn halt3(a: Seq<char>, b: Seq<char>, c: Seq<char>) -> StepV {
    StepV { next: SessionV::Finished, prints: seq![a, b, c], request: RequestV::Done }
}

/// How a run begins.  With anything but exactly two arguments after the
/// program name, only the usage line is printed.  Otherwise the first thing
/// asked is whether the input file exists.
pub open spec fn init_spec(args: Seq<Seq<char>>) -> StepV
    recommends
        args.len() >= 1,
{
    if args.len() != 3 {
        StepV {
            next: SessionV::Finished,
            prints: seq![usage_msg(args[0])],
            request: RequestV::Done,
        }
    } else {
        StepV {
            next: SessionV::AwaitFileCheck { filename: args[1], offset_arg: args[2] },
            prints: Seq::empty(),
            request: RequestV::Probe(args[1]),
        }
    }
}

/// The whole behaviour of the tool, one transition at a time: for the state
/// the session is in and the event the world answered, the lines to print,
/// the next request, and the state that waits for its answer.  An event that
/// the state does not expect ends the run silently.
pub open spec fn step_spec(s: SessionV, e: EventV) -> StepV {
    match s {
        SessionV::AwaitFileCheck { filename, offset_arg } => match e {
            EventV::Exists(present) => {
                if !present {
                    halt1(missing_file_msg(filename))
                } else {
                    match parse_i32_spec(offset_arg) {
                        Option::None => halt1(invalid_number_msg()),
                        Option::Some(v) => {
                            if is_mp4_name(filename) {
                                StepV {
                                    next: SessionV::AwaitTrim { filename, offset: v as i32 },
                                    prints: Seq::empty(),
                                    request: RequestV::RunTool(
                                        trim_argv(filename, v, intermediate_name(filename)),
                                    ),
                                }
                            } else if is_mp3_name(filename) {
                                StepV {
                                    next: SessionV::AwaitMp3Probe {
                                        filename,
                                        offset: v as i32,
                                        next_index: 0,
                                    },
                                    prints: Seq::empty(),
                                    request: RequestV::Probe(mp3_candidate(filename, 0)),
                                }
                            } else {
                                halt1(unsupported_msg())
                            }
                        },
                    }
                }
            },
            _ => halt0(),
        },
        SessionV::AwaitTrim { filename, offset } => match e {
            EventV::ToolLaunchFailed => halt1(launch_failed_msg()),
            EventV::ToolExited(ok) => StepV {
                next: SessionV::AwaitAudioProbe { filename, trim_ok: ok, next_index: 0 },
                prints: Seq::empty(),
                request: RequestV::Probe(audio_candidate(filename, 0)),
            },
            _ => halt0(),
        },
        SessionV::AwaitAudioProbe { filename, trim_ok, next_index } => match e {
            EventV::Exists(present) => {
                if present {
                    StepV {
                        next: SessionV::AwaitAudioProbe {
                            filename,
                            trim_ok,
                            next_index: (next_index + 1) as u64,
                        },
                        prints: Seq::empty(),
                        request: RequestV::Probe(
                            audio_candidate(filename, (next_index + 1) as u64),
                        ),
                    }
                } else {
                    StepV {
                        next: SessionV::AwaitExtract {
                            filename,
                            trim_ok,
                            audio_out: audio_candidate(filename, next_index),
                        },
                        prints: Seq::empty(),
                        request: RequestV::RunTool(
                            extract_argv(
                                intermediate_name(filename),
                                audio_candidate(filename, next_index),
                            ),
                        ),
                    }
                }
            },
            _ => halt0(),
        },
        SessionV::AwaitExtract { filename, trim_ok, audio_out } => match e {
            EventV::ToolLaunchFailed => halt2(
                extract_launch_failed_msg(),
                finish_msg(filename, trim_ok),
            ),
            EventV::ToolExited(ok) => {
                if ok {
                    StepV {
                        next: SessionV::AwaitDelete { filename, trim_ok, audio_out },
                        prints: Seq::empty(),
                        request: RequestV::Delete(intermediate_name(filename)),
                    }
                } else {
                    halt2(extract_failed_msg(), finish_msg(filename, trim_ok))
                }
            },
            _ => halt0(),
        },
        SessionV::AwaitDelete { filename, trim_ok, audio_out } => match e {
            EventV::Deleted(cause) => match cause {
                Option::Some(m) => halt2(
                    delete_failed_msg(intermediate_name(filename), m),
                    finish_msg(filename, trim_ok),
                ),
                Option::None => halt3(
                    mp3_created_msg(audio_out),
                    converted_msg(),
                    finish_msg(filename, trim_ok),
                ),
            },
            _ => halt0(),
        },
        SessionV::AwaitMp3Probe { filename, offset, next_index } => match e {
            EventV::Exists(present) => {
                if present {
                    StepV {
                        next: SessionV::AwaitMp3Probe {
                            filename,
                            offset,
                            next_index: (next_index + 1) as u64,
                        },
                        prints: Seq::empty(),
                        request: RequestV::Probe(mp3_candidate(filename, (next_index + 1) as u64)),
                    }
                } else {
                    StepV {
                        next: SessionV::AwaitMp3Run { filename },
                        prints: seq![
                            command_msg(
                                rendered_trim_command(
                                    filename,
                                    offset as int,
                                    mp3_candidate(filename, next_index),
                                ),
                            ),
                        ],
                        request: RequestV::RunTool(
                            trim_argv(filename, offset as int, mp3_candidate(filename, next_index)),
                        ),
                    }
                }
            },
            _ => halt0(),
        },
        SessionV::AwaitMp3Run { filename } => match e {
            EventV::ToolLaunchFailed => halt1(launch_failed_msg()),
            EventV::ToolExited(ok) => {
                if ok {
                    halt1(audio_ok_msg(filename))
                } else {
                    halt1(tool_failed_msg())
                }
            },
            _ => halt0(),
        },
        SessionV::Finished => halt0(),
    }
}

/// Whether a step may be taken: only the numbered candidate names bound the
/// machine, at the width of their counter.
pub open spec fn step_permitted(s: SessionV, e: EventV) -> bool {
    match s {
        SessionV::AwaitAudioProbe { next_index, .. } => match e {
            EventV::Exists(present) => !present || next_index < u64::MAX,
            _ => true,
        },
        SessionV::AwaitMp3Probe { next_index, .. } => match e {
            EventV::Exists(present) => !present || next_index < u64::MAX,
            _ => true,
        },
        _ => true,
    }
}

// ---------------------------------------------------------------------------
// The executable machine
// ---------------------------------------------------------------------------
fn no_prints() -> (r: Vec<String>)
    ensures
        r.deep_view() == Seq::<Seq<char>>::empty(),
{
    let r: Vec<String> = Vec::new();
    proof {
        assert(r.deep_view() =~~= Seq::<Seq<char>>::empty());
    }
    r
}

fn one_print(a: String) -> (r: Vec<String>)
    ensures
        r.deep_view() == seq![a@],
{
    let mut r: Vec<String> = Vec::new();
    let ghost av = a@;
    r.push(a);
    proof {
        assert(r.deep_view() =~~= seq![av]);
    }
    r
}

fn two_prints(a: String, b: String) -> (r: Vec<String>)
    ensures
        r.deep_view() == seq![a@, b@],
{
    let mut r: Vec<String> = Vec::new();
    let ghost av = a@;
    let ghost bv = b@;
    r.push(a);
    r.push(b);
    proof {
        assert(r.deep_view() =~~= seq![av, bv]);
    }
    r
}

fn three_prints(a: String, b: String, c: String) -> (r: Vec<String>)
    ensures
        r.deep_view() == seq![a@, b@, c@],
{
    let mut r: Vec<String> = Vec::new();
    let ghost av = a@;
    let ghost bv = b@;
    let ghost cv = c@;
    r.push(a);
    r.push(b);
    r.push(c);
    proof {
        assert(r.deep_view() =~~= seq![av, bv, cv]);
    }
    r
}

/// Begins a run from the command-line arguments, program name first.
pub fn init(args: &Vec<String>) -> (r: (Session, StepOutput))
    requires
        args@.len() >= 1,
    ensures
        r.0@ == init_spec(args.deep_view()).next,
        r.1.prints.deep_view() == init_spec(args.deep_view()).prints,
        r.1.request@ == init_spec(args.deep_view()).request,
{
    proof {
        assert(args.deep_view().len() == args@.len());
    }
    if args.len() != 3 {
        let msg = usage_message(args[0].as_str());
        proof {
            assert(args.deep_view()[0] == args@[0]@);
        }
        (Session::Finished, StepOutput { prints: one_print(msg), request: Request::Done })
    } else {
        let filename = args[1].clone();
        let offset_arg = args[2].clone();
        let probed = args[1].clone();
        proof {
            assert(args.deep_view()[1] == args@[1]@);
            assert(args.deep_view()[2] == args@[2]@);
        }
        (
            Session::AwaitFileCheck { filename, offset_arg },
            StepOutput { prints: no_prints(), request: Request::Probe(probed) },
        )
    }
}

impl Session {
    /// Whether the next step may be taken; false only when the numbered
    /// candidate names are exhausted.
    pub fn can_step(&self, e: &Event) -> (r: bool)
        ensures
            r == step_permitted(self@, e@),
    {
        match (self, e) {
            (Session::AwaitAudioProbe { next_index, .. }, Event::Exists(true)) => *next_index
                < u64::MAX,
            (Session::AwaitMp3Probe { next_index, .. }, Event::Exists(true)) => *next_index
                < u64::MAX,
            _ => true,
        }
    }

    /// Takes one step: exactly the transition that [`step_spec`] states.
    pub fn step(self, event: Event) -> (r: (Session, StepOutput))
        requires
            step_permitted(self@, event@),
        ensures
            r.0@ == step_spec(self@, event@).next,
            r.1.prints.deep_view() == step_spec(self@, event@).prints,
            r.1.request@ == step_spec(self@, event@).request,
    {
        match (self, event) {
            (Session::AwaitFileCheck { filename, offset_arg }, Event::Exists(present)) => {
                if !present {
                    let msg = missing_file_message(filename.as_str());
                    (
                        Session::Finished,
                        StepOutput { prints: one_print(msg), request: Request::Done },
                    )
                } else {
                    match parse_i32(offset_arg.as_str()) {
                        Option::None => (
                            Session::Finished,
                            StepOutput {
                                prints: one_print(
                                    String::from_str("Error: Invalid number provided."),
                                ),
                                request: Request::Done,
                            },
                        ),
                        Option::Some(offset) => {
                            if has_mp4_extension(filename.as_str()) {
                                let out = intermediate_name_of(filename.as_str());
                                let argv = build_trim_argv(filename.as_str(), offset, out.as_str());
                                (
                                    Session::AwaitTrim { filename, offset },
                                    StepOutput {
                                        prints: no_prints(),
                                        request: Request::RunTool(argv),
                                    },
                                )
                            } else if has_mp3_extension(filename.as_str()) {
                                let candidate = mp3_candidate_of(filename.as_str(), 0);
                                (
                                    Session::AwaitMp3Probe { filename, offset, next_index: 0 },
                                    StepOutput {
                                        prints: no_prints(),
                                        request: Request::Probe(candidate),
                                    },
                                )
                            } else {
                                (
                                    Session::Finished,
                                    StepOutput {
                                        prints: one_print(
                                            String::from_str(
                                                "Error: Unsupported file format. Supported formats: mp4, mp3",
                                            ),
                                        ),
                                        request: Request::Done,
                                    },
                                )
                            }
                        },
                    }
                }
            },
            (Session::AwaitTrim { filename, offset }, Event::ToolLaunchFailed) => (
                Session::Finished,
                StepOutput {
                    prints: one_print(String::from_str("Error: Failed to execute FFmpeg command.")),
                    request: Request::Done,
                },
            ),
            (Session::AwaitTrim { filename, offset }, Event::ToolExited(ok)) => {
                let candidate = audio_candidate_of(filename.as_str(), 0);
                (
                    Session::AwaitAudioProbe { filename, trim_ok: ok, next_index: 0 },
                    StepOutput { prints: no_prints(), request: Request::Probe(candidate) },
                )
            },
            (
                Session::AwaitAudioProbe { filename, trim_ok, next_index },
                Event::Exists(present),
            ) => {
                if present {
                    let next: u64 = next_index + 1;
                    let candidate = audio_candidate_of(filename.as_str(), next);
                    (
                        Session::AwaitAudioProbe { filename, trim_ok, next_index: next },
                        StepOutput { prints: no_prints(), request: Request::Probe(candidate) },
                    )
                } else {
                    let audio_out = audio_candidate_of(filename.as_str(), next_index);
                    let input = intermediate_name_of(filename.as_str());
                    let argv = build_extract_argv(input.as_str(), audio_out.as_str());
                    (
                        Session::AwaitExtract { filename, trim_ok, audio_out },
                        StepOutput { prints: no_prints(), request: Request::RunTool(argv) },
                    )
                }
            },
            (Session::AwaitExtract { filename, trim_ok, audio_out }, Event::ToolLaunchFailed) => {
                let last = finish_message(filename.as_str(), trim_ok);
                (
                    Session::Finished,
                    StepOutput {
                        prints: two_prints(
                            String::from_str(
                                "Error: Failed to execute FFmpeg command for audio conversion.",
                            ),
                            last,
                        ),
                        request: Request::Done,
                    },
                )
            },
            (Session::AwaitExtract { filename, trim_ok, audio_out }, Event::ToolExited(ok)) => {
                if ok {
                    let input = intermediate_name_of(filename.as_str());
                    (
                        Session::AwaitDelete { filename, trim_ok, audio_out },
                        StepOutput { prints: no_prints(), request: Request::Delete(input) },
                    )
                } else {
                    let last = finish_message(filename.as_str(), trim_ok);
                    (
                        Session::Finished,
                        StepOutput {
                            prints: two_prints(
                                String::from_str(
                                    "Error: FFmpeg command for audio conversion failed.",
                                ),
                                last,
                            ),
                            request: Request::Done,
                        },
                    )
                }
            },
            (Session::AwaitDelete { filename, trim_ok, audio_out }, Event::Deleted(cause)) => {
                match cause {
                    Option::Some(m) => {
                        let input = intermediate_name_of(filename.as_str());
                        let first = delete_failed_message(input.as_str(), m.as_str());
                        let last = finish_message(filename.as_str(), trim_ok);
                        (
                            Session::Finished,
                            StepOutput { prints: two_prints(first, last), request: Request::Done },
                        )
                    },
                    Option::None => {
                        let first = mp3_created_message(audio_out.as_str());
                        let second = String::from_str(
                            "Video successfully converted to audio (MP3) of 30 secs",
                        );
                        let last = finish_message(filename.as_str(), trim_ok);
                        (
                            Session::Finished,
                            StepOutput {
                                prints: three_prints(first, second, last),
                                request: Request::Done,
                            },
                        )
                    },
                }
            },
            (Session::AwaitMp3Probe { filename, offset, next_index }, Event::Exists(present)) => {
                if present {
                    let next: u64 = next_index + 1;
                    let candidate = mp3_candidate_of(filename.as_str(), next);
                    (
                        Session::AwaitMp3Probe { filename, offset, next_index: next },
                        StepOutput { prints: no_prints(), request: Request::Probe(candidate) },
                    )
                } else {
                    let out = mp3_candidate_of(filename.as_str(), next_index);
                    let rendered = render_trim_command(filename.as_str(), offset, out.as_str());
                    let echo = command_message(rendered.as_str());
                    let argv = build_trim_argv(filename.as_str(), offset, out.as_str());
                    (
                        Session::AwaitMp3Run { filename },
                        StepOutput { prints: one_print(echo), request: Request::RunTool(argv) },
                    )
                }
            },
            (Session::AwaitMp3Run { filename }, Event::ToolLaunchFailed) => (
                Session::Finished,
                StepOutput {
                    prints: one_print(String::from_str("Error: Failed to execute FFmpeg command.")),
                    request: Request::Done,
                },
            ),
            (Session::AwaitMp3Run { filename }, Event::ToolExited(ok)) => {
                if ok {
                    let msg = audio_ok_message(filename.as_str());
                    (
                        Session::Finished,
                        StepOutput { prints: one_print(msg), request: Request::Done },
                    )
                } else {
                    (
                        Session::Finished,
                        StepOutput {
                            prints: one_print(String::from_str("Error: FFmpeg command failed.")),
                            request: Request::Done,
                        },
                    )
                }
            },
            (_, _) => (
                Session::Finished,
                StepOutput { prints: no_prints(), request: Request::Done },
            ),
        }
    }
}

/// Applies the chosen cutter to the validated path and offset, exactly as the
/// cutter's own contract states.
pub fn cut<F: Fn(&str, i32) -> Result<(), String>>(filename: &str, number: i32, cut_function: F)
    -> (r: Result<(), String>)
    requires
        call_requires(cut_function, (filename, number)),
    ensures
        call_ensures(cut_function, (filename, number), r),
{
    cut_function(filename, number)
}

} // verus!
