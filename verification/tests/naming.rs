use clipcut::command::render_trim_command;
use clipcut::names::{audio_candidate_of, intermediate_name_of, mp3_candidate_of};
use clipcut::numbers::{i32_to_string, parse_i32, u64_to_string};
use clipcut::text::{has_mp3_extension, has_mp4_extension, strip_mp3_suffix, strip_mp4_suffix};

#[test]
fn parse_accepts_plain_and_signed_integers() {
    assert_eq!(parse_i32("10"), Some(10));
    assert_eq!(parse_i32("+7"), Some(7));
    assert_eq!(parse_i32("-5"), Some(-5));
    assert_eq!(parse_i32("0"), Some(0));
    assert_eq!(parse_i32("007"), Some(7));
    assert_eq!(parse_i32("2147483647"), Some(2147483647));
    assert_eq!(parse_i32("-2147483648"), Some(-2147483648));
}

#[test]
fn parse_rejects_everything_else() {
    assert_eq!(parse_i32("abc"), None);
    assert_eq!(parse_i32(""), None);
    assert_eq!(parse_i32("-"), None);
    assert_eq!(parse_i32("+"), None);
    assert_eq!(parse_i32("1.5"), None);
    assert_eq!(parse_i32("10 "), None);
    assert_eq!(parse_i32("2147483648"), None);
    assert_eq!(parse_i32("-2147483649"), None);
    assert_eq!(parse_i32("99999999999999999999"), None);
}

#[test]
fn rendering_integers_in_decimal() {
    assert_eq!(u64_to_string(0), "0");
    assert_eq!(u64_to_string(30), "30");
    assert_eq!(u64_to_string(18446744073709551615), "18446744073709551615");
    assert_eq!(i32_to_string(10), "10");
    assert_eq!(i32_to_string(-7), "-7");
    assert_eq!(i32_to_string(-2147483648), "-2147483648");
}

#[test]
fn extension_checks_ignore_case_only() {
    assert!(has_mp4_extension("clip.mp4"));
    assert!(has_mp4_extension("CLIP.MP4"));
    assert!(has_mp4_extension("a.Mp4"));
    assert!(!has_mp4_extension("clip.mp3"));
    assert!(!has_mp4_extension("mp4"));
    assert!(!has_mp4_extension("clip.mp4x"));
    assert!(has_mp3_extension("song.mp3"));
    assert!(has_mp3_extension("SONG.MP3"));
    assert!(!has_mp3_extension("song.mp4"));
}

#[test]
fn suffix_stripping_is_exact_and_repeated() {
    assert_eq!(strip_mp4_suffix("clip.mp4"), "clip");
    assert_eq!(strip_mp4_suffix("a.mp4.mp4"), "a");
    assert_eq!(strip_mp4_suffix("CLIP.MP4"), "CLIP.MP4");
    assert_eq!(strip_mp4_suffix("clip"), "clip");
    assert_eq!(strip_mp3_suffix("song.mp3"), "song");
    assert_eq!(strip_mp3_suffix("song.Mp3"), "song.Mp3");
}

#[test]
fn output_names_follow_the_input_name() {
    assert_eq!(intermediate_name_of("clip.mp4"), "clip.mp4_out.mp4");
    assert_eq!(audio_candidate_of("clip.mp4", 0), "clip.mp3");
    assert_eq!(audio_candidate_of("clip.mp4", 1), "clip_1.mp3");
    assert_eq!(audio_candidate_of("clip.mp4", 12), "clip_12.mp3");
    assert_eq!(audio_candidate_of("CLIP.MP4", 0), "CLIP.MP4.mp3");
    assert_eq!(mp3_candidate_of("song.mp3", 0), "song.mp3");
    assert_eq!(mp3_candidate_of("song.mp3", 1), "song_1.mp3");
    assert_eq!(mp3_candidate_of("song.mp3", 2), "song_2.mp3");
}

#[test]
fn rendered_command_quotes_for_the_shell() {
    assert_eq!(
        render_trim_command("song.mp3", 5, "song_1.mp3"),
        "ffmpeg -i song.mp3 -ss 5 -t 30 -c:v copy -c:a copy song_1.mp3"
    );
    assert_eq!(
        render_trim_command("my song.mp3", -7, "x y.mp3"),
        "ffmpeg -i 'my song.mp3' -ss -7 -t 30 -c:v copy -c:a copy 'x y.mp3'"
    );
    assert_eq!(
        render_trim_command("a'b.mp3", 0, "out.mp3"),
        "ffmpeg -i 'a'\\''b.mp3' -ss 0 -t 30 -c:v copy -c:a copy out.mp3"
    );
    assert_eq!(
        render_trim_command("", 1, "out.mp3"),
        "ffmpeg -i '' -ss 1 -t 30 -c:v copy -c:a copy out.mp3"
    );
}
