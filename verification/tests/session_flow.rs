use clipcut::session::{cut, init, Event, Request, StepOutput};

fn s(x: &str) -> String {
    x.to_string()
}

fn expect_probe(out: &StepOutput) -> String {
    match &out.request {
        Request::Probe(name) => name.clone(),
        _ => panic!("expected a probe request"),
    }
}

fn expect_run(out: &StepOutput) -> Vec<String> {
    match &out.request {
        Request::RunTool(argv) => argv.clone(),
        _ => panic!("expected a run request"),
    }
}

fn expect_delete(out: &StepOutput) -> String {
    match &out.request {
        Request::Delete(name) => name.clone(),
        _ => panic!("expected a delete request"),
    }
}

fn expect_done(out: &StepOutput) {
    assert!(matches!(out.request, Request::Done));
}

#[test]
fn video_pipeline_happy_path() {
    let args = vec![s("prog"), s("clip.mp4"), s("10")];
    let (st, out) = init(&args);
    assert!(out.prints.is_empty());
    assert_eq!(expect_probe(&out), "clip.mp4");

    let (st, out) = st.step(Event::Exists(true));
    assert!(out.prints.is_empty());
    assert_eq!(
        expect_run(&out),
        vec![
            s("ffmpeg"),
            s("-i"),
            s("clip.mp4"),
            s("-ss"),
            s("10"),
            s("-t"),
            s("30"),
            s("-c:v"),
            s("copy"),
            s("-c:a"),
            s("copy"),
            s("clip.mp4_out.mp4"),
        ]
    );

    let (st, out) = st.step(Event::ToolExited(true));
    assert!(out.prints.is_empty());
    assert_eq!(expect_probe(&out), "clip.mp3");

    let (st, out) = st.step(Event::Exists(false));
    assert!(out.prints.is_empty());
    assert_eq!(
        expect_run(&out),
        vec![
            s("ffmpeg"),
            s("-i"),
            s("clip.mp4_out.mp4"),
            s("-vn"),
            s("-c:a"),
            s("libmp3lame"),
            s("clip.mp3"),
        ]
    );

    let (st, out) = st.step(Event::ToolExited(true));
    assert!(out.prints.is_empty());
    assert_eq!(expect_delete(&out), "clip.mp4_out.mp4");

    let (_st, out) = st.step(Event::Deleted(None));
    assert_eq!(
        out.prints,
        vec![
            s("Mp3 file clip.mp3 successfully created"),
            s("Video successfully converted to audio (MP3) of 30 secs"),
            s("Video successfully cut and saved as 'clip.mp4_out.mp4'"),
        ]
    );
    expect_done(&out);
}

#[test]
fn existing_audio_target_moves_to_first_numbered_name() {
    let args = vec![s("prog"), s("song.mp3"), s("5")];
    let (st, out) = init(&args);
    assert_eq!(expect_probe(&out), "song.mp3");

    // The input file exists; the first output candidate is the input name
    // itself, so it collides at once.
    let (st, out) = st.step(Event::Exists(true));
    assert_eq!(expect_probe(&out), "song.mp3");

    let (st, out) = st.step(Event::Exists(true));
    assert_eq!(expect_probe(&out), "song_1.mp3");

    let (st, out) = st.step(Event::Exists(false));
    assert_eq!(
        out.prints,
        vec![s(
            "FFmpeg command ffmpeg -i song.mp3 -ss 5 -t 30 -c:v copy -c:a copy song_1.mp3"
        )]
    );
    assert_eq!(
        expect_run(&out),
        vec![
            s("ffmpeg"),
            s("-i"),
            s("song.mp3"),
            s("-ss"),
            s("5"),
            s("-t"),
            s("30"),
            s("-c:v"),
            s("copy"),
            s("-c:a"),
            s("copy"),
            s("song_1.mp3"),
        ]
    );

    let (_st, out) = st.step(Event::ToolExited(true));
    assert_eq!(
        out.prints,
        vec![s("Audio successfully cut and saved as 'song.mp3_out.mp3'")]
    );
    expect_done(&out);
}

#[test]
fn missing_file_invokes_nothing() {
    let args = vec![s("prog"), s("ghost.mp4"), s("10")];
    let (st, out) = init(&args);
    assert_eq!(expect_probe(&out), "ghost.mp4");

    let (_st, out) = st.step(Event::Exists(false));
    assert_eq!(
        out.prints,
        vec![s("Error: The file 'ghost.mp4' does not exist.")]
    );
    expect_done(&out);
}

#[test]
fn malformed_offset_invokes_nothing() {
    let args = vec![s("prog"), s("clip.mp4"), s("abc")];
    let (st, out) = init(&args);
    assert_eq!(expect_probe(&out), "clip.mp4");

    let (_st, out) = st.step(Event::Exists(true));
    assert_eq!(out.prints, vec![s("Error: Invalid number provided.")]);
    expect_done(&out);
}

#[test]
fn wrong_argument_count_prints_usage() {
    let args = vec![s("prog"), s("clip.mp4")];
    let (_st, out) = init(&args);
    assert_eq!(out.prints, vec![s("Usage: prog <filename> <number>")]);
    expect_done(&out);
}

#[test]
fn routing_follows_extension_case_insensitively() {
    // Upper-case video extension routes to the trim command.
    let (st, _out) = init(&vec![s("p"), s("Movie.MP4"), s("0")]);
    let (_st, out) = st.step(Event::Exists(true));
    let argv = expect_run(&out);
    assert_eq!(argv[2], "Movie.MP4");
    assert_eq!(argv[11], "Movie.MP4_out.mp4");

    // Mixed-case audio extension routes to the candidate probing.
    let (st, _out) = init(&vec![s("p"), s("track.Mp3"), s("0")]);
    let (_st, out) = st.step(Event::Exists(true));
    assert_eq!(expect_probe(&out), "track.Mp3");

    // Anything else is rejected with no command.
    let (st, _out) = init(&vec![s("p"), s("notes.txt"), s("0")]);
    let (_st, out) = st.step(Event::Exists(true));
    assert_eq!(
        out.prints,
        vec![s("Error: Unsupported file format. Supported formats: mp4, mp3")]
    );
    expect_done(&out);
}

#[test]
fn extraction_output_walks_numbered_candidates() {
    let (st, _out) = init(&vec![s("p"), s("clip.mp4"), s("0")]);
    let (st, _out) = st.step(Event::Exists(true));
    let (st, out) = st.step(Event::ToolExited(true));
    assert_eq!(expect_probe(&out), "clip.mp3");

    let (st, out) = st.step(Event::Exists(true));
    assert_eq!(expect_probe(&out), "clip_1.mp3");

    let (st, out) = st.step(Event::Exists(true));
    assert_eq!(expect_probe(&out), "clip_2.mp3");

    let (_st, out) = st.step(Event::Exists(false));
    let argv = expect_run(&out);
    assert_eq!(argv[6], "clip_2.mp3");
}

#[test]
fn extraction_is_attempted_even_after_trim_failure() {
    let (st, _out) = init(&vec![s("p"), s("clip.mp4"), s("10")]);
    let (st, _out) = st.step(Event::Exists(true));
    // The trim ran and reported failure; extraction is still attempted.
    let (st, out) = st.step(Event::ToolExited(false));
    assert_eq!(expect_probe(&out), "clip.mp3");

    let (st, out) = st.step(Event::Exists(false));
    let (st, out) = st.step(Event::ToolExited(true));
    assert_eq!(expect_delete(&out), "clip.mp4_out.mp4");

    // The trim's own verdict is reported last.
    let (_st, out) = st.step(Event::Deleted(None));
    assert_eq!(
        out.prints,
        vec![
            s("Mp3 file clip.mp3 successfully created"),
            s("Video successfully converted to audio (MP3) of 30 secs"),
            s("Error: FFmpeg command failed."),
        ]
    );
}

#[test]
fn trim_launch_failure_skips_extraction() {
    let (st, _out) = init(&vec![s("p"), s("clip.mp4"), s("10")]);
    let (st, _out) = st.step(Event::Exists(true));
    let (_st, out) = st.step(Event::ToolLaunchFailed);
    assert_eq!(
        out.prints,
        vec![s("Error: Failed to execute FFmpeg command.")]
    );
    expect_done(&out);
}

#[test]
fn extraction_failure_keeps_intermediate_file() {
    let (st, _out) = init(&vec![s("p"), s("clip.mp4"), s("10")]);
    let (st, _out) = st.step(Event::Exists(true));
    let (st, _out) = st.step(Event::ToolExited(true));
    let (st, _out) = st.step(Event::Exists(false));
    // The extraction ran and failed: no deletion is requested.
    let (_st, out) = st.step(Event::ToolExited(false));
    assert_eq!(
        out.prints,
        vec![
            s("Error: FFmpeg command for audio conversion failed."),
            s("Video successfully cut and saved as 'clip.mp4_out.mp4'"),
        ]
    );
    expect_done(&out);
}

#[test]
fn failed_deletion_names_file_and_cause() {
    let (st, _out) = init(&vec![s("p"), s("clip.mp4"), s("10")]);
    let (st, _out) = st.step(Event::Exists(true));
    let (st, _out) = st.step(Event::ToolExited(true));
    let (st, _out) = st.step(Event::Exists(false));
    let (st, _out) = st.step(Event::ToolExited(true));
    let (_st, out) = st.step(Event::Deleted(Some(s("permission denied"))));
    assert_eq!(
        out.prints,
        vec![
            s("Error: Failed to delete the original video file 'clip.mp4_out.mp4': permission denied"),
            s("Video successfully cut and saved as 'clip.mp4_out.mp4'"),
        ]
    );
    expect_done(&out);
}

#[test]
fn mp3_command_echo_quotes_awkward_names() {
    let (st, _out) = init(&vec![s("p"), s("my clip.mp3"), s("3")]);
    let (st, _out) = st.step(Event::Exists(true));
    let (_st, out) = st.step(Event::Exists(false));
    assert_eq!(
        out.prints,
        vec![s(
            "FFmpeg command ffmpeg -i 'my clip.mp3' -ss 3 -t 30 -c:v copy -c:a copy 'my clip.mp3'"
        )]
    );
    // The argument vector itself carries the names unquoted.
    let argv = expect_run(&out);
    assert_eq!(argv[2], "my clip.mp3");
    assert_eq!(argv[11], "my clip.mp3");
}

#[test]
fn mp3_run_failures_are_reported() {
    let (st, _out) = init(&vec![s("p"), s("song.mp3"), s("5")]);
    let (st, _out) = st.step(Event::Exists(true));
    let (st, _out) = st.step(Event::Exists(false));
    let (_st, out) = st.step(Event::ToolExited(false));
    assert_eq!(out.prints, vec![s("Error: FFmpeg command failed.")]);

    let (st, _out) = init(&vec![s("p"), s("song.mp3"), s("5")]);
    let (st, _out) = st.step(Event::Exists(true));
    let (st, _out) = st.step(Event::Exists(false));
    let (_st, out) = st.step(Event::ToolLaunchFailed);
    assert_eq!(
        out.prints,
        vec![s("Error: Failed to execute FFmpeg command.")]
    );
}

#[test]
fn finished_session_stays_inert() {
    let (st, _out) = init(&vec![s("p"), s("ghost.mp4"), s("1")]);
    assert!(st.can_step(&Event::Exists(false)));
    let (st, _out) = st.step(Event::Exists(false));
    let (_st, out) = st.step(Event::ToolExited(true));
    assert!(out.prints.is_empty());
    expect_done(&out);
}

#[test]
fn cut_applies_the_given_cutter() {
    let r = cut("song.mp3", 5, |f: &str, n: i32| {
        if n >= 0 {
            Ok(())
        } else {
            Err(f.to_string())
        }
    });
    assert_eq!(r, Ok(()));
    let r = cut("song.mp3", -1, |f: &str, n: i32| {
        if n >= 0 {
            Ok(())
        } else {
            Err(f.to_string())
        }
    });
    assert_eq!(r, Err("song.mp3".to_string()));
}

#[test]
fn extraction_launch_failure_keeps_intermediate_file() {
    let (st, _out) = init(&vec![s("p"), s("clip.mp4"), s("10")]);
    let (st, _out) = st.step(Event::Exists(true));
    let (st, _out) = st.step(Event::ToolExited(true));
    let (st, _out) = st.step(Event::Exists(false));
    let (_st, out) = st.step(Event::ToolLaunchFailed);
    assert_eq!(
        out.prints,
        vec![
            s("Error: Failed to execute FFmpeg command for audio conversion."),
            s("Video successfully cut and saved as 'clip.mp4_out.mp4'"),
        ]
    );
    expect_done(&out);
}
