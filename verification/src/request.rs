//! The values a caller fills in to ask for one conversion.

use vstd::prelude::*;

verus! {

/// How the output audio is to be encoded.
///
/// `format` names the target: `"mp3"`, `"aac"`, `"wav"` or `"flac"`. `bitrate`
/// and `sample_rate` are tokens such as `"320k"` and `"48000"`. They and
/// `channels` (1 or 2 in practice) reach the transcoder as they are: no unit
/// or range is checked.
#[derive(Debug, PartialEq, Eq)]
pub struct AudioConfig {
    pub format: String,
    pub bitrate: String,
    pub sample_rate: String,
    pub channels: i32,
}

/// Tags describing a track. Carried with a request, not yet written anywhere.
#[derive(Debug, PartialEq, Eq)]
pub struct TrackMetadata {
    pub title: String,
    pub artist: String,
    pub album: Option<String>,
    pub year: Option<String>,
    pub genre: Option<String>,
    pub comment: Option<String>,
}

/// One conversion job.
///
/// `start_time` is where reading starts. `end_time`, despite its name, is the
/// length of the span to convert, counted from `start_time`: it is handed to
/// the transcoder as a duration, not as a point in time. Neither is parsed.
#[derive(Debug, PartialEq, Eq)]
pub struct ConversionRequest {
    pub source_path: String,
    pub output_filename: String,
    pub output_path: Option<String>,
    pub title: String,
    pub artist: String,
    pub start_time: Option<String>,
    pub end_time: Option<String>,
    pub audio_config: AudioConfig,
    pub metadata: Option<TrackMetadata>,
}

fn copy_optional(text: &Option<String>) -> (copy: Option<String>)
    ensures
        copy == *text,
{
    match text {
        Some(inner) => Some(inner.clone()),
        None => None,
    }
}

impl Clone for AudioConfig {
    fn clone(&self) -> (copy: Self)
        ensures
            copy == *self,
    {
        AudioConfig {
            format: self.format.clone(),
            bitrate: self.bitrate.clone(),
            sample_rate: self.sample_rate.clone(),
            channels: self.channels,
        }
    }
}

impl Clone for TrackMetadata {
    fn clone(&self) -> (copy: Self)
        ensures
            copy == *self,
    {
        TrackMetadata {
            title: self.title.clone(),
            artist: self.artist.clone(),
            album: copy_optional(&self.album),
            year: copy_optional(&self.year),
            genre: copy_optional(&self.genre),
            comment: copy_optional(&self.comment),
        }
    }
}

impl Clone for ConversionRequest {
    fn clone(&self) -> (copy: Self)
        ensures
            copy == *self,
    {
        let metadata = match &self.metadata {
            Some(tags) => Some(tags.clone()),
            None => None,
        };
        ConversionRequest {
            source_path: self.source_path.clone(),
            output_filename: self.output_filename.clone(),
            output_path: copy_optional(&self.output_path),
            title: self.title.clone(),
            artist: self.artist.clone(),
            start_time: copy_optional(&self.start_time),
            end_time: copy_optional(&self.end_time),
            audio_config: self.audio_config.clone(),
            metadata,
        }
    }
}

impl ConversionRequest {
    /// The path the output is written to: `output_path` where it is given,
    /// `output_filename` otherwise.
    pub open spec fn spec_effective_output(&self) -> Seq<char> {
        match self.output_path {
            Some(path) => path@,
            None => self.output_filename@,
        }
    }

    /// The path the output is written to: `output_path` where it is given,
    /// `output_filename` otherwise.
    pub fn effective_output(&self) -> (path: String)
        ensures
            path@ == self.spec_effective_output(),
    {
        match &self.output_path {
            Some(path) => path.clone(),
            None => self.output_filename.clone(),
        }
    }
}

} // verus!
