//! Proofs of the session's guiding properties: how runs route, what is never
//! executed, which names may be written or deleted, and what is reported.

use crate::command::{extract_argv, trim_argv};
use crate::names::{audio_candidate, intermediate_name, mp3_candidate};
use crate::numbers::{dec_rep, parse_i32_spec};
use crate::text::{is_mp3_name, is_mp4_name, strip_all_suffix};
use crate::session::{
    delete_failed_msg, finish_msg, init_spec, invalid_number_msg, missing_file_msg, step_spec,
    unsupported_msg, usage_msg, EventV, RequestV, SessionV, StepV,
};
use vstd::prelude::*;

verus! {

/// A validated run is routed to exactly one of the video pipeline, the audio
/// pipeline, or the unsupported-format message, decided only by a
/// case-insensitive match of the name's extension against mp4 and mp3.
pub proof fn routing_is_exclusive(filename: Seq<char>, offset_arg: Seq<char>)
    requires
        parse_i32_spec(offset_arg) is Some,
    ensures
        !(is_mp4_name(filename) && is_mp3_name(filename)),
        ({
            let t = step_spec(
                SessionV::AwaitFileCheck { filename, offset_arg },
                EventV::Exists(true),
            );
            &&& is_mp4_name(filename) ==> t.next == (SessionV::AwaitTrim {
                filename,
                offset: parse_i32_spec(offset_arg)->Some_0 as i32,
            }) && t.request == RequestV::RunTool(
                trim_argv(
                    filename,
                    parse_i32_spec(offset_arg)->Some_0,
                    intermediate_name(filename),
                ),
            )
            &&& !is_mp4_name(filename) && is_mp3_name(filename) ==> t.next
                == (SessionV::AwaitMp3Probe {
                filename,
                offset: parse_i32_spec(offset_arg)->Some_0 as i32,
                next_index: 0,
            }) && t.request == RequestV::Probe(mp3_candidate(filename, 0))
            &&& !is_mp4_name(filename) && !is_mp3_name(filename) ==> t.next == SessionV::Finished
                && t.prints == seq![unsupported_msg()] && t.request == RequestV::Done
        }),
{
}

/// A run on a path that does not exist stops at once: the session only
/// reports the missing file, asks for nothing further, and a finished
/// session never asks for anything again — so no external command is ever
/// invoked.
pub proof fn missing_file_invokes_no_tool(filename: Seq<char>, offset_arg: Seq<char>)
    ensures
        step_spec(SessionV::AwaitFileCheck { filename, offset_arg }, EventV::Exists(false))
            == (StepV {
            next: SessionV::Finished,
            prints: seq![missing_file_msg(filename)],
            request: RequestV::Done,
        }),
{
}

/// A finished session never prints and never asks for anything, whatever
/// event is handed to it.
pub proof fn finished_session_is_inert(e: EventV)
    ensures
        step_spec(SessionV::Finished, e) == (StepV {
            next: SessionV::Finished,
            prints: Seq::<Seq<char>>::empty(),
            request: RequestV::Done,
        }),
{
}

/// An offset that does not parse as an integer stops a run before any
/// external command: only the validation error is printed.
pub proof fn malformed_offset_invokes_no_tool(filename: Seq<char>, offset_arg: Seq<char>)
    requires
        parse_i32_spec(offset_arg) is None,
    ensures
        step_spec(SessionV::AwaitFileCheck { filename, offset_arg }, EventV::Exists(true))
            == (StepV {
            next: SessionV::Finished,
            prints: seq![invalid_number_msg()],
            request: RequestV::Done,
        }),
{
}

/// A wrong argument count yields only the usage line, and no session that
/// could ever ask for a command.
pub proof fn wrong_argument_count_invokes_no_tool(args: Seq<Seq<char>>)
    requires
        args.len() >= 1,
        args.len() != 3,
    ensures
        init_spec(args) == (StepV {
            next: SessionV::Finished,
            prints: seq![usage_msg(args[0])],
            request: RequestV::Done,
        }),
{
}

/// The audio-extraction output name walks the candidate sequence in order:
/// while a candidate exists the next one probed is the very next in the
/// sequence, and the command that finally runs writes to the first candidate
/// that was found free — never to a name that was seen to exist.
pub proof fn audio_name_walks_candidates(
    filename: Seq<char>,
    trim_ok: bool,
    next_index: u64,
)
    requires
        next_index < u64::MAX,
    ensures
        step_spec(
            SessionV::AwaitAudioProbe { filename, trim_ok, next_index },
            EventV::Exists(true),
        ).request == RequestV::Probe(audio_candidate(filename, (next_index + 1) as u64)),
        step_spec(
            SessionV::AwaitAudioProbe { filename, trim_ok, next_index },
            EventV::Exists(false),
        ).request == RequestV::RunTool(
            extract_argv(intermediate_name(filename), audio_candidate(filename, next_index)),
        ),
        extract_argv(intermediate_name(filename), audio_candidate(filename, next_index)).last()
            == audio_candidate(filename, next_index),
{
}

/// The trimmed-audio output name walks its candidate sequence the same way,
/// starting from the input name itself, and the trim command writes to the
/// first candidate found free.
pub proof fn mp3_name_walks_candidates(filename: Seq<char>, offset: i32, next_index: u64)
    requires
        next_index < u64::MAX,
    ensures
        step_spec(
            SessionV::AwaitMp3Probe { filename, offset, next_index },
            EventV::Exists(true),
        ).request == RequestV::Probe(mp3_candidate(filename, (next_index + 1) as u64)),
        step_spec(
            SessionV::AwaitMp3Probe { filename, offset, next_index },
            EventV::Exists(false),
        ).request == RequestV::RunTool(
            trim_argv(filename, offset as int, mp3_candidate(filename, next_index)),
        ),
        trim_argv(filename, offset as int, mp3_candidate(filename, next_index)).last()
            == mp3_candidate(filename, next_index),
{
}

/// Once the trim command has run — with either verdict — the audio
/// extraction is attempted next: the session immediately starts probing for
/// the extraction's output name.
pub proof fn extraction_follows_trim(filename: Seq<char>, offset: i32, trim_ok: bool)
    ensures
        step_spec(SessionV::AwaitTrim { filename, offset }, EventV::ToolExited(trim_ok))
            == (StepV {
            next: SessionV::AwaitAudioProbe { filename, trim_ok, next_index: 0 },
            prints: Seq::<Seq<char>>::empty(),
            request: RequestV::Probe(audio_candidate(filename, 0)),
        }),
{
}

/// A successful extraction asks for exactly one deletion: that of the
/// intermediate clip.  A failed deletion is reported in a line that names
/// that file and carries the cause the operating system gave, and nothing
/// further is deleted.
pub proof fn extraction_success_deletes_intermediate(
    filename: Seq<char>,
    trim_ok: bool,
    audio_out: Seq<char>,
    cause: Seq<char>,
)
    ensures
        step_spec(
            SessionV::AwaitExtract { filename, trim_ok, audio_out },
            EventV::ToolExited(true),
        ).request == RequestV::Delete(intermediate_name(filename)),
        step_spec(
            SessionV::AwaitDelete { filename, trim_ok, audio_out },
            EventV::Deleted(Option::Some(cause)),
        ).prints == seq![
            delete_failed_msg(intermediate_name(filename), cause),
            finish_msg(filename, trim_ok),
        ],
        step_spec(
            SessionV::AwaitDelete { filename, trim_ok, audio_out },
            EventV::Deleted(Option::Some(cause)),
        ).request == RequestV::Done,
{
}

/// Whether `out` is one of the audio-extraction candidate names of `filename`.
pub open spec fn is_audio_candidate(filename: Seq<char>, out: Seq<char>) -> bool {
    exists|i: u64| out == audio_candidate(filename, i)
}

/// What holds of every state a run can reach: a session that is extracting
/// audio, or deleting the intermediate clip afterwards, records an output
/// name drawn from the candidate sequence of its own input file.
pub open spec fn session_inv(s: SessionV) -> bool {
    match s {
        SessionV::AwaitExtract { filename, audio_out, .. } => is_audio_candidate(
            filename,
            audio_out,
        ),
        SessionV::AwaitDelete { filename, audio_out, .. } => is_audio_candidate(
            filename,
            audio_out,
        ),
        _ => true,
    }
}

/// A run begins in a state that satisfies [`session_inv`].
pub proof fn init_establishes_inv(args: Seq<Seq<char>>)
    ensures
        session_inv(init_spec(args).next),
{
}

/// Every step keeps [`session_inv`]: however a run unfolds, the recorded
/// audio output name is always one of the input's candidates.
pub proof fn step_preserves_inv(s: SessionV, e: EventV)
    requires
        session_inv(s),
    ensures
        session_inv(step_spec(s, e).next),
{
    match s {
        SessionV::AwaitAudioProbe { filename, trim_ok, next_index } => {
            if e == (EventV::Exists(false)) {
                let out = audio_candidate(filename, next_index);
                assert(is_audio_candidate(filename, out)) by {
                    assert(out == audio_candidate(filename, next_index));
                }
            }
        },
        _ => {},
    }
}

/// In a reachable state, a successful extraction deletes exactly the
/// intermediate clip, and that clip is not the audio file just produced:
/// the produced audio file stays on disk.
pub proof fn produced_audio_survives(filename: Seq<char>, trim_ok: bool, audio_out: Seq<char>)
    requires
        session_inv(SessionV::AwaitExtract { filename, trim_ok, audio_out }),
    ensures
        step_spec(
            SessionV::AwaitExtract { filename, trim_ok, audio_out },
            EventV::ToolExited(true),
        ).request == RequestV::Delete(intermediate_name(filename)),
        intermediate_name(filename) != audio_out,
{
    let i = choose|i: u64| audio_out == audio_candidate(filename, i);
    intermediate_is_not_an_audio_name(filename, filename, i);
}

/// The intermediate clip's name ends in `4`; every audio output name ends in
/// `3`.  So the one name the session ever deletes is never the produced
/// audio file.
pub proof fn intermediate_is_not_an_audio_name(f: Seq<char>, g: Seq<char>, i: u64)
    ensures
        intermediate_name(f) != audio_candidate(g, i),
{
    reveal_strlit("_out.mp4");
    reveal_strlit(".mp3");
    let im = intermediate_name(f);
    assert(im[im.len() - 1] == '4');
    let ac = audio_candidate(g, i);
    if i == 0 {
        let base = strip_all_suffix(g, ".mp4"@);
        assert(ac[base.len() as int + 3] == '3');
        assert(ac.len() == base.len() + 4);
    } else {
        let prefix = strip_all_suffix(g, ".mp4"@) + "_"@ + dec_rep(i as nat);
        assert(ac =~= prefix + ".mp3"@);
        assert(ac[prefix.len() as int + 3] == '3');
        assert(ac.len() == prefix.len() + 4);
    }
    assert(ac[ac.len() - 1] == '3');
}

/// Every deletion the session ever requests, in any state and on any event,
/// targets the intermediate clip of the session's own input file — never an
/// audio output name.
pub proof fn only_the_intermediate_is_deleted(s: SessionV, e: EventV)
    ensures
        step_spec(s, e).request matches RequestV::Delete(target) ==> ({
            &&& s matches SessionV::AwaitExtract { filename, .. } && target == intermediate_name(
                filename,
            )
            &&& forall|g: Seq<char>, i: u64| target != #[trigger] audio_candidate(g, i)
        }),
{
    match step_spec(s, e).request {
        RequestV::Delete(target) => {
            assert forall|g: Seq<char>, i: u64| target != #[trigger] audio_candidate(g, i) by {
                match s {
                    SessionV::AwaitExtract { filename, .. } => {
                        intermediate_is_not_an_audio_name(filename, g, i);
                    },
                    _ => {},
                }
            }
        },
        _ => {},
    }
}

} // verus!
