//! The argument list the transcoder is started with.
//!
//! The list is a sequence of separate tokens, one per argument. It never
//! passes through a shell, so no token is quoted or escaped.

use vstd::prelude::*;
use vstd::string::StringExecFns;
use crate::decimal::{decimal, decimal_string};
use crate::request::{AudioConfig, ConversionRequest};

verus! {

/// The encoder that writes `format`: a known format has its own, any other
/// text means that the audio stream is copied as it is, without re-encoding.
pub open spec fn spec_codec(format: Seq<char>) -> Seq<char> {
    if format == "mp3"@ {
        "libmp3lame"@
    } else if format == "aac"@ {
        "aac"@
    } else if format == "flac"@ {
        "flac"@
    } else {
        "copy"@
    }
}

/// The encoder that writes `format`.
pub fn codec_for(format: &str) -> (codec: &'static str)
    ensures
        codec@ == spec_codec(format@),
{
    let format = String::from_str(format);
    if format == String::from_str("mp3") {
        "libmp3lame"
    } else if format == String::from_str("aac") {
        "aac"
    } else if format == String::from_str("flac") {
        "flac"
    } else {
        "copy"
    }
}

/// The arguments that cut the span to convert: where to start reading, then
/// how much to read. An absent marker leaves its flag out.
pub open spec fn spec_trim_arguments(request: ConversionRequest) -> Seq<Seq<char>> {
    let seek = match request.start_time {
        Some(start) => seq!["-ss"@, start@],
        None => Seq::<Seq<char>>::empty(),
    };
    let span = match request.end_time {
        Some(end) => seq!["-t"@, end@],
        None => Seq::<Seq<char>>::empty(),
    };
    seek + span
}

/// The arguments that name the two tags written into the output.
pub open spec fn spec_tag_arguments(request: ConversionRequest) -> Seq<Seq<char>> {
    seq!["-metadata"@, "title="@ + request.title@, "-metadata"@, "artist="@ + request.artist@]
}

/// The arguments that choose the encoder and its settings. The settings are
/// listed for every format, also where the stream is copied and the
/// transcoder has no use for them.
pub open spec fn spec_encoding_arguments(config: AudioConfig) -> Seq<Seq<char>> {
    seq![
        "-acodec"@,
        spec_codec(config.format@),
        "-ab"@,
        config.bitrate@,
        "-ar"@,
        config.sample_rate@,
        "-ac"@,
        decimal(config.channels as int),
    ]
}

/// The whole argument list, in the order the transcoder reads it: log level,
/// input, span, tags, encoding, and last the permission to overwrite followed
/// by the output path.
pub open spec fn spec_arguments(request: ConversionRequest) -> Seq<Seq<char>> {
    seq!["-v"@, "info"@, "-i"@, request.source_path@] + spec_trim_arguments(request)
        + spec_tag_arguments(request) + spec_encoding_arguments(request.audio_config) + seq![
        "-y"@,
        request.spec_effective_output(),
    ]
}

fn push_text(args: &mut Vec<String>, text: String)
    ensures
        final(args).deep_view() == old(args).deep_view().push(text@),
{
    args.push(text);
    assert(args.deep_view() =~= old(args).deep_view().push(text@));
}

fn push_token(args: &mut Vec<String>, token: &str)
    ensures
        final(args).deep_view() == old(args).deep_view().push(token@),
{
    push_text(args, String::from_str(token));
}

/// Builds the argument list for `request`.
pub fn build_arguments(request: &ConversionRequest) -> (args: Vec<String>)
    ensures
        args.deep_view() == spec_arguments(*request),
{
    let mut args: Vec<String> = Vec::new();
    assert(args.deep_view() =~= Seq::<Seq<char>>::empty());
    push_token(&mut args, "-v");
    push_token(&mut args, "info");
    push_token(&mut args, "-i");
    push_token(&mut args, request.source_path.as_str());
    match &request.start_time {
        Some(start) => {
            push_token(&mut args, "-ss");
            push_token(&mut args, start.as_str());
        },
        None => {},
    }
    match &request.end_time {
        Some(end) => {
            push_token(&mut args, "-t");
            push_token(&mut args, end.as_str());
        },
        None => {},
    }
    assert(args.deep_view() =~= seq!["-v"@, "info"@, "-i"@, request.source_path@]
        + spec_trim_arguments(*request));
    push_token(&mut args, "-metadata");
    push_text(&mut args, String::from_str("title=").concat(request.title.as_str()));
    push_token(&mut args, "-metadata");
    push_text(&mut args, String::from_str("artist=").concat(request.artist.as_str()));
    assert(args.deep_view() =~= seq!["-v"@, "info"@, "-i"@, request.source_path@]
        + spec_trim_arguments(*request) + spec_tag_arguments(*request));
    let config = &request.audio_config;
    push_token(&mut args, "-acodec");
    push_token(&mut args, codec_for(config.format.as_str()));
    push_token(&mut args, "-ab");
    push_token(&mut args, config.bitrate.as_str());
    push_token(&mut args, "-ar");
    push_token(&mut args, config.sample_rate.as_str());
    push_token(&mut args, "-ac");
    push_text(&mut args, decimal_string(config.channels));
    assert(args.deep_view() =~= seq!["-v"@, "info"@, "-i"@, request.source_path@]
        + spec_trim_arguments(*request) + spec_tag_arguments(*request)
        + spec_encoding_arguments(request.audio_config));
    push_token(&mut args, "-y");
    push_text(&mut args, request.effective_output());
    assert(args.deep_view() =~= spec_arguments(*request));
    args
}

/// With both markers given the list has twenty-two arguments in this order:
/// the seek flag and its value come before the duration flag and its value,
/// both before the two tags, the tags before the encoder and its settings,
/// and the output path is the last argument.
pub proof fn lemma_argument_order(request: ConversionRequest)
    requires
        request.start_time is Some,
        request.end_time is Some,
    ensures
        spec_arguments(request) == seq![
            "-v"@,
            "info"@,
            "-i"@,
            request.source_path@,
            "-ss"@,
            request.start_time.unwrap()@,
            "-t"@,
            request.end_time.unwrap()@,
            "-metadata"@,
            "title="@ + request.title@,
            "-metadata"@,
            "artist="@ + request.artist@,
            "-acodec"@,
            spec_codec(request.audio_config.format@),
            "-ab"@,
            request.audio_config.bitrate@,
            "-ar"@,
            request.audio_config.sample_rate@,
            "-ac"@,
            decimal(request.audio_config.channels as int),
            "-y"@,
            request.spec_effective_output(),
        ],
{
    let start = request.start_time.unwrap()@;
    let end = request.end_time.unwrap()@;
    assert(spec_trim_arguments(request) =~= seq!["-ss"@, start, "-t"@, end]);
    assert(spec_arguments(request) =~= seq![
        "-v"@,
        "info"@,
        "-i"@,
        request.source_path@,
        "-ss"@,
        start,
        "-t"@,
        end,
        "-metadata"@,
        "title="@ + request.title@,
        "-metadata"@,
        "artist="@ + request.artist@,
        "-acodec"@,
        spec_codec(request.audio_config.format@),
        "-ab"@,
        request.audio_config.bitrate@,
        "-ar"@,
        request.audio_config.sample_rate@,
        "-ac"@,
        decimal(request.audio_config.channels as int),
        "-y"@,
        request.spec_effective_output(),
    ]);
}

/// Whatever the request, the list starts with the log level and the input,
/// and ends with the permission to overwrite followed by the output path.
/// Between them stand the span, of four arguments at most, and the twelve
/// arguments of tags and encoding.
pub proof fn lemma_argument_frame(request: ConversionRequest)
    ensures
        spec_trim_arguments(request).len() <= 4,
        spec_arguments(request).len() == 18 + spec_trim_arguments(request).len(),
        spec_arguments(request).subrange(0, 4) == seq![
            "-v"@,
            "info"@,
            "-i"@,
            request.source_path@,
        ],
        spec_arguments(request)[spec_arguments(request).len() - 2] == "-y"@,
        spec_arguments(request).last() == request.spec_effective_output(),
{
    let args = spec_arguments(request);
    assert(args.subrange(0, 4) =~= seq!["-v"@, "info"@, "-i"@, request.source_path@]);
}

} // verus!
