use audio_convert::command::{build_arguments, codec_for};
use audio_convert::decimal::decimal_string;
use audio_convert::request::{AudioConfig, ConversionRequest, TrackMetadata};

fn config(format: &str, channels: i32) -> AudioConfig {
    AudioConfig {
        format: format.to_string(),
        bitrate: "320k".to_string(),
        sample_rate: "48000".to_string(),
        channels,
    }
}

fn request() -> ConversionRequest {
    ConversionRequest {
        source_path: "/videos/talk.mp4".to_string(),
        output_filename: "talk.mp3".to_string(),
        output_path: Some("/music/talk.mp3".to_string()),
        title: "A Talk".to_string(),
        artist: "Someone".to_string(),
        start_time: Some("00:01:00".to_string()),
        end_time: Some("90".to_string()),
        audio_config: config("mp3", 2),
        metadata: None,
    }
}

fn strings(tokens: &[&str]) -> Vec<String> {
    tokens.iter().map(|token| token.to_string()).collect()
}

#[test]
fn codec_of_each_known_format() {
    assert_eq!(codec_for("mp3"), "libmp3lame");
    assert_eq!(codec_for("aac"), "aac");
    assert_eq!(codec_for("flac"), "flac");
}

#[test]
fn codec_of_any_other_format_is_copy() {
    assert_eq!(codec_for("wav"), "copy");
    assert_eq!(codec_for(""), "copy");
    assert_eq!(codec_for("MP3"), "copy");
    assert_eq!(codec_for("mp3 "), "copy");
    assert_eq!(codec_for("ogg"), "copy");
}

#[test]
fn output_path_overrides_output_filename() {
    let mut job = request();
    job.output_path = Some("/tmp/out.mp3".to_string());
    job.output_filename = "ignored.mp3".to_string();
    assert_eq!(job.effective_output(), "/tmp/out.mp3");
}

#[test]
fn output_filename_is_used_without_output_path() {
    let mut job = request();
    job.output_path = None;
    assert_eq!(job.effective_output(), "talk.mp3");
}

#[test]
fn empty_output_path_still_overrides() {
    let mut job = request();
    job.output_path = Some(String::new());
    assert_eq!(job.effective_output(), "");
}

#[test]
fn arguments_with_both_markers() {
    let expected = strings(&[
        "-v",
        "info",
        "-i",
        "/videos/talk.mp4",
        "-ss",
        "00:01:00",
        "-t",
        "90",
        "-metadata",
        "title=A Talk",
        "-metadata",
        "artist=Someone",
        "-acodec",
        "libmp3lame",
        "-ab",
        "320k",
        "-ar",
        "48000",
        "-ac",
        "2",
        "-y",
        "/music/talk.mp3",
    ]);
    assert_eq!(build_arguments(&request()), expected);
}

#[test]
fn seek_comes_before_duration_before_tags_before_encoding() {
    let args = build_arguments(&request());
    let place = |flag: &str| args.iter().position(|arg| arg == flag).unwrap();
    assert!(place("-ss") < place("-t"));
    assert!(place("-t") < place("-metadata"));
    assert!(place("-metadata") < place("-acodec"));
    assert!(place("-acodec") < place("-ab"));
    assert!(place("-ab") < place("-ar"));
    assert!(place("-ar") < place("-ac"));
    assert!(place("-ac") < place("-y"));
    assert_eq!(place("-y"), args.len() - 2);
    assert_eq!(args.last().unwrap(), "/music/talk.mp3");
}

#[test]
fn arguments_without_markers() {
    let mut job = request();
    job.start_time = None;
    job.end_time = None;
    let expected = strings(&[
        "-v",
        "info",
        "-i",
        "/videos/talk.mp4",
        "-metadata",
        "title=A Talk",
        "-metadata",
        "artist=Someone",
        "-acodec",
        "libmp3lame",
        "-ab",
        "320k",
        "-ar",
        "48000",
        "-ac",
        "2",
        "-y",
        "/music/talk.mp3",
    ]);
    assert_eq!(build_arguments(&job), expected);
}

#[test]
fn arguments_with_start_only() {
    let mut job = request();
    job.end_time = None;
    let args = build_arguments(&job);
    assert_eq!(args.len(), 20);
    assert_eq!(args[4..6], strings(&["-ss", "00:01:00"])[..]);
    assert_eq!(args[6], "-metadata");
    assert!(!args.contains(&"-t".to_string()));
}

#[test]
fn arguments_with_duration_only() {
    let mut job = request();
    job.start_time = None;
    let args = build_arguments(&job);
    assert_eq!(args.len(), 20);
    assert_eq!(args[4..6], strings(&["-t", "90"])[..]);
    assert_eq!(args[6], "-metadata");
    assert!(!args.contains(&"-ss".to_string()));
}

#[test]
fn markers_are_passed_through_unparsed() {
    let mut job = request();
    job.start_time = Some("not a time".to_string());
    job.end_time = Some(String::new());
    let args = build_arguments(&job);
    assert_eq!(args[4..8], strings(&["-ss", "not a time", "-t", ""])[..]);
}

#[test]
fn unknown_format_copies_and_keeps_the_settings() {
    let mut job = request();
    job.audio_config = config("wav", 1);
    let args = build_arguments(&job);
    assert_eq!(
        args[12..20],
        strings(&["-acodec", "copy", "-ab", "320k", "-ar", "48000", "-ac", "1"])[..]
    );
}

#[test]
fn settings_are_passed_through_unchecked() {
    let mut job = request();
    job.audio_config = AudioConfig {
        format: "aac".to_string(),
        bitrate: "loud".to_string(),
        sample_rate: String::new(),
        channels: -7,
    };
    let args = build_arguments(&job);
    assert_eq!(
        args[12..20],
        strings(&["-acodec", "aac", "-ab", "loud", "-ar", "", "-ac", "-7"])[..]
    );
}

#[test]
fn two_channels_are_written_as_the_digit_two() {
    let args = build_arguments(&request());
    let place = args.iter().position(|arg| arg == "-ac").unwrap();
    assert_eq!(args[place + 1], "2");
}

#[test]
fn tags_are_one_argument_each_whatever_they_hold() {
    let mut job = request();
    job.title = "a b; rm -rf \"x\" $HOME".to_string();
    job.artist = "=".to_string();
    let args = build_arguments(&job);
    assert_eq!(args.len(), 22);
    assert_eq!(args[9], "title=a b; rm -rf \"x\" $HOME");
    assert_eq!(args[11], "artist==");
}

#[test]
fn track_metadata_does_not_reach_the_arguments() {
    let mut job = request();
    let plain = build_arguments(&job);
    job.metadata = Some(TrackMetadata {
        title: "Other".to_string(),
        artist: "Else".to_string(),
        album: Some("Album".to_string()),
        year: Some("1999".to_string()),
        genre: None,
        comment: Some("none".to_string()),
    });
    assert_eq!(build_arguments(&job), plain);
}

#[test]
fn bare_output_filename_is_the_last_argument() {
    let mut job = request();
    job.output_path = None;
    let args = build_arguments(&job);
    assert_eq!(args[args.len() - 2], "-y");
    assert_eq!(args[args.len() - 1], "talk.mp3");
}

#[test]
fn decimal_of_small_numbers() {
    assert_eq!(decimal_string(0), "0");
    assert_eq!(decimal_string(1), "1");
    assert_eq!(decimal_string(2), "2");
    assert_eq!(decimal_string(9), "9");
    assert_eq!(decimal_string(10), "10");
    assert_eq!(decimal_string(-1), "-1");
}

#[test]
fn decimal_of_large_numbers() {
    assert_eq!(decimal_string(1_000_000), "1000000");
    assert_eq!(decimal_string(-120), "-120");
    assert_eq!(decimal_string(i32::MAX), "2147483647");
    assert_eq!(decimal_string(i32::MIN), "-2147483648");
}

#[test]
fn decimal_agrees_with_the_standard_library() {
    let mut n: i64 = i32::MIN as i64;
    while n <= i32::MAX as i64 {
        assert_eq!(decimal_string(n as i32), (n as i32).to_string());
        n += 7_654_321;
    }
    for n in -1100..1100 {
        assert_eq!(decimal_string(n), n.to_string());
    }
}

#[test]
fn copies_of_a_request_are_equal_to_it() {
    let mut job = request();
    job.metadata = Some(TrackMetadata {
        title: "Other".to_string(),
        artist: "Else".to_string(),
        album: None,
        year: Some("1999".to_string()),
        genre: None,
        comment: None,
    });
    assert_eq!(job.clone(), job);
    assert_eq!(job.audio_config.clone(), job.audio_config);
}
