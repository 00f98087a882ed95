//! The settings that the host runs with, as they come out of the command
//! line: plain values in, records out, with the defaults filled in.

use vstd::prelude::*;
use vstd::string::*;
use vstd::slice::slice_subrange;
use crate::text::{
    chars_of, decimal_digits, find_char, find_in, lowercase, parse_u32, parsed_u32, same_text,
    text_of, texts, to_lowercase, u32_to_string,
};

verus! {

/// The socket of the virtual-input daemon where none is given.
pub fn default_vimputti_path() -> (path: &'static str)
    ensures
        path@ == "/tmp/vimputti-0"@,
{
    "/tmp/vimputti-0"
}

/// The settings of the host itself.
#[derive(Debug, PartialEq, Eq)]
pub struct AppArgs {
    /// Verbose output mode.
    pub verbose: bool,
    /// Virtual display resolution, width and height.
    pub resolution: (u32, u32),
    /// Virtual display framerate.
    pub framerate: u32,
    /// The relay to connect to.
    pub relay_url: String,
    /// The name of the room.
    pub room: String,
    /// The socket of the virtual-input daemon.
    pub vimputti_path: Option<String>,
    /// Zero-copy pipeline.
    pub zero_copy: bool,
}

/// The part of `s` before its first `x`, where it has one.
pub open spec fn width_part(s: Seq<char>) -> Seq<char> {
    s.subrange(0, find_char(s, 'x', 0))
}

/// The part of `s` between its first `x` and the next one, or the end.
pub open spec fn height_part(s: Seq<char>) -> Seq<char>
    recommends
        find_char(s, 'x', 0) < s.len(),
{
    let first = find_char(s, 'x', 0);
    s.subrange(first + 1, find_char(s, 'x', first + 1))
}

/// The resolution that a text of the form `WIDTHxHEIGHT` asks for. A text
/// without an `x` gives 1280 by 720; a part that is no number gives its
/// default, 1280 for the width and 720 for the height.
pub open spec fn resolution_of(s: Seq<char>) -> (u32, u32) {
    if find_char(s, 'x', 0) >= s.len() {
        (1280u32, 720u32)
    } else {
        (
            match parsed_u32(width_part(s)) {
                Some(w) => w,
                None => 1280u32,
            },
            match parsed_u32(height_part(s)) {
                Some(h) => h,
                None => 720u32,
            },
        )
    }
}

/// Reads a resolution of the form `WIDTHxHEIGHT`.
pub fn parse_resolution(res: &str) -> (out: (u32, u32))
    ensures
        out == resolution_of(res@),
{
    let chars = chars_of(res);
    let first = find_in(chars.as_slice(), 'x', 0);
    if first >= chars.len() {
        return (1280, 720);
    }
    let second = find_in(chars.as_slice(), 'x', first + 1);
    let width_text = text_of(slice_subrange(chars.as_slice(), 0, first));
    let height_text = text_of(slice_subrange(chars.as_slice(), first + 1, second));
    let width = match parse_u32(width_text.as_str()) {
        Some(w) => w,
        None => 1280,
    };
    let height = match parse_u32(height_text.as_str()) {
        Some(h) => h,
        None => 720,
    };
    (width, height)
}

/// A number drawn at random through `rand::random`. Nothing is claimed of
/// it.
#[verifier::external_body]
fn random_number() -> (n: u32) {
    rand::random::<u32>()
}

/// The room name that a number makes: its decimal notation.
pub fn room_name_for(n: u32) -> (room: String)
    ensures
        room@ == decimal_digits(n as nat),
{
    u32_to_string(n)
}

impl AppArgs {
    /// The settings for the values given on the command line. Missing
    /// values take their defaults: not verbose, 1280 by 720, 60 frames a
    /// second, no zero-copy, and a room named by a number drawn at random.
    pub fn from_values(
        verbose: Option<bool>,
        resolution: Option<String>,
        framerate: Option<u32>,
        relay_url: String,
        room: Option<String>,
        vimputti_path: Option<String>,
        zero_copy: Option<bool>,
    ) -> (args: AppArgs)
        ensures
            args.verbose == (verbose == Some(true)),
            args.resolution == match resolution {
                Some(text) => resolution_of(text@),
                None => (1280u32, 720u32),
            },
            args.framerate == match framerate {
                Some(f) => f,
                None => 60u32,
            },
            args.relay_url == relay_url,
            match room {
                Some(name) => args.room == name,
                None => exists|n: u32| args.room@ == decimal_digits(n as nat),
            },
            args.vimputti_path == vimputti_path,
            args.zero_copy == (zero_copy == Some(true)),
    {
        let room = match room {
            Some(name) => name,
            None => room_name_for(random_number()),
        };
        AppArgs {
            verbose: match verbose {
                Some(v) => v,
                None => false,
            },
            resolution: match resolution {
                Some(text) => parse_resolution(text.as_str()),
                None => (1280, 720),
            },
            framerate: match framerate {
                Some(f) => f,
                None => 60,
            },
            relay_url,
            room,
            vimputti_path,
            zero_copy: match zero_copy {
                Some(z) => z,
                None => false,
            },
        }
    }
}

/// Which GPU to use.
#[derive(Clone, Debug, PartialEq, Eq)]
pub struct DeviceArgs {
    /// GPU vendor, such as `intel`.
    pub gpu_vendor: Option<String>,
    /// Part of the GPU's name.
    pub gpu_name: Option<String>,
    /// Index among the GPUs that the other filters leave.
    pub gpu_index: Option<u32>,
    /// Card or render path; it wins over the other filters.
    pub gpu_card_path: Option<String>,
}

impl DeviceArgs {
    /// The selection for the values given on the command line.
    pub fn from_values(
        gpu_vendor: Option<String>,
        gpu_name: Option<String>,
        gpu_index: Option<u32>,
        gpu_card_path: Option<String>,
    ) -> (args: DeviceArgs)
        ensures
            args.gpu_vendor == gpu_vendor,
            args.gpu_name == gpu_name,
            args.gpu_index == gpu_index,
            args.gpu_card_path == gpu_card_path,
    {
        DeviceArgs { gpu_vendor, gpu_name, gpu_index, gpu_card_path }
    }
}

/// Constant quantization parameter.
#[derive(Clone, Copy, Debug, PartialEq, Eq, Structural)]
pub struct RateControlCQP {
    /// Quality level.
    pub quality: u32,
}

/// Variable bitrate.
#[derive(Clone, Copy, Debug, PartialEq, Eq, Structural)]
pub struct RateControlVBR {
    /// Target bitrate in kbps.
    pub target_bitrate: u32,
    /// Maximum bitrate in kbps.
    pub max_bitrate: u32,
}

/// Constant bitrate.
#[derive(Clone, Copy, Debug, PartialEq, Eq, Structural)]
pub struct RateControlCBR {
    /// Target bitrate in kbps.
    pub target_bitrate: u32,
}

/// The three ways to control the rate.
#[derive(Clone, Copy, Debug, PartialEq, Eq, Structural)]
pub enum RateControlMethod {
    CQP,
    VBR,
    CBR,
}

/// The name of a method on the command line.
pub open spec fn method_name(method: RateControlMethod) -> Seq<char> {
    match method {
        RateControlMethod::CQP => "cqp"@,
        RateControlMethod::VBR => "vbr"@,
        RateControlMethod::CBR => "cbr"@,
    }
}

/// The method that a name on the command line stands for.
pub open spec fn method_named(s: Seq<char>) -> Option<RateControlMethod> {
    if s == "cqp"@ {
        Some(RateControlMethod::CQP)
    } else if s == "vbr"@ {
        Some(RateControlMethod::VBR)
    } else if s == "cbr"@ {
        Some(RateControlMethod::CBR)
    } else {
        None
    }
}

impl RateControlMethod {
    pub fn as_str(&self) -> (name: &str)
        ensures
            name@ == method_name(*self),
    {
        match self {
            RateControlMethod::CQP => "cqp",
            RateControlMethod::VBR => "vbr",
            RateControlMethod::CBR => "cbr",
        }
    }

    /// Reads a method by its exact name. Any other text is an error that
    /// names the text.
    pub fn from_str(s: &str) -> (res: Result<RateControlMethod, String>)
        ensures
            match method_named(s@) {
                Some(m) => res == Ok::<RateControlMethod, String>(m),
                None => match res {
                    Err(text) => text@ == "Invalid rate control method: "@ + s@,
                    Ok(_) => false,
                },
            },
    {
        if same_text(s, "cqp") {
            Ok(RateControlMethod::CQP)
        } else if same_text(s, "vbr") {
            Ok(RateControlMethod::VBR)
        } else if same_text(s, "cbr") {
            Ok(RateControlMethod::CBR)
        } else {
            let mut text = "Invalid rate control method: ".to_owned();
            text.append(s);
            Err(text)
        }
    }
}

/// A rate control method with its numbers.
#[derive(Clone, Copy, Debug, PartialEq, Eq, Structural)]
pub enum RateControl {
    /// Constant quantization parameter.
    CQP(RateControlCQP),
    /// Variable bitrate.
    VBR(RateControlVBR),
    /// Constant bitrate.
    CBR(RateControlCBR),
}

/// The rate control that a method makes with the numbers given for it, or
/// none where a number that the method needs is missing.
pub open spec fn rate_control_for(
    method: RateControlMethod,
    quality: Option<u32>,
    bitrate: Option<u32>,
    max_bitrate: Option<u32>,
) -> Option<RateControl> {
    match method {
        RateControlMethod::CQP => match quality {
            Some(q) => Some(RateControl::CQP(RateControlCQP { quality: q })),
            None => None,
        },
        RateControlMethod::CBR => match bitrate {
            Some(b) => Some(RateControl::CBR(RateControlCBR { target_bitrate: b })),
            None => None,
        },
        RateControlMethod::VBR => match (bitrate, max_bitrate) {
            (Some(b), Some(m)) => Some(
                RateControl::VBR(RateControlVBR { target_bitrate: b, max_bitrate: m }),
            ),
            _ => None,
        },
    }
}

/// Puts a method and its numbers together.
pub fn rate_control_from(
    method: RateControlMethod,
    quality: Option<u32>,
    bitrate: Option<u32>,
    max_bitrate: Option<u32>,
) -> (res: Option<RateControl>)
    ensures
        res == rate_control_for(method, quality, bitrate, max_bitrate),
{
    match method {
        RateControlMethod::CQP => match quality {
            Some(q) => Some(RateControl::CQP(RateControlCQP { quality: q })),
            None => None,
        },
        RateControlMethod::CBR => match bitrate {
            Some(b) => Some(RateControl::CBR(RateControlCBR { target_bitrate: b })),
            None => None,
        },
        RateControlMethod::VBR => match (bitrate, max_bitrate) {
            (Some(b), Some(m)) => Some(
                RateControl::VBR(RateControlVBR { target_bitrate: b, max_bitrate: m }),
            ),
            _ => None,
        },
    }
}

/// What to tune the encoder towards.
#[derive(Clone, Copy, Debug, PartialEq, Eq, Structural)]
pub enum LatencyControl {
    LowestLatency,
    HighestQuality,
}

/// The video codecs.
#[allow(non_camel_case_types)]
#[derive(Clone, Copy, Debug, PartialEq, Eq, Structural)]
pub enum VideoCodec {
    H264,
    H265,
    AV1,
    VP8,
    VP9,
}

/// The audio codecs.
#[derive(Clone, Copy, Debug, PartialEq, Eq, Structural)]
pub enum AudioCodec {
    OPUS,
}

/// A codec of either kind.
#[derive(Clone, Copy, Debug, PartialEq, Eq, Structural)]
pub enum Codec {
    Audio(AudioCodec),
    Video(VideoCodec),
}

/// The name of a codec.
pub open spec fn codec_name(codec: Codec) -> Seq<char> {
    match codec {
        Codec::Audio(AudioCodec::OPUS) => "opus"@,
        Codec::Video(VideoCodec::H264) => "h264"@,
        Codec::Video(VideoCodec::H265) => "h265"@,
        Codec::Video(VideoCodec::AV1) => "av1"@,
        Codec::Video(VideoCodec::VP8) => "vp8"@,
        Codec::Video(VideoCodec::VP9) => "vp9"@,
    }
}

impl Codec {
    pub fn as_str(&self) -> (name: &str)
        ensures
            name@ == codec_name(*self),
    {
        match self {
            Codec::Audio(AudioCodec::OPUS) => "opus",
            Codec::Video(VideoCodec::H264) => "h264",
            Codec::Video(VideoCodec::H265) => "h265",
            Codec::Video(VideoCodec::AV1) => "av1",
            Codec::Video(VideoCodec::VP8) => "vp8",
            Codec::Video(VideoCodec::VP9) => "vp9",
        }
    }
}

/// Whether an encoder runs on the CPU or on the GPU.
#[derive(Clone, Copy, Debug, PartialEq, Eq, Structural)]
pub enum EncoderType {
    SOFTWARE,
    HARDWARE,
}

impl EncoderType {
    pub fn as_str(&self) -> (name: &str)
        ensures
            name@ == encoder_type_name(*self),
    {
        match self {
            EncoderType::SOFTWARE => "software",
            EncoderType::HARDWARE => "hardware",
        }
    }
}

/// What video and audio encoding have in common.
#[derive(Clone, Debug, PartialEq, Eq)]
pub struct EncodingOptionsBase {
    /// The codec.
    pub codec: Codec,
    /// An encoder asked for by name.
    pub encoder: Option<String>,
    /// Rate control with its numbers.
    pub rate_control: RateControl,
    /// What to tune towards.
    pub latency_control: LatencyControl,
}

/// How to encode video.
#[derive(Clone, Debug, PartialEq, Eq)]
pub struct VideoEncodingOptions {
    pub base: EncodingOptionsBase,
    pub encoder_type: EncoderType,
    pub bit_depth: u32,
    pub keyframe_dist_secs: u32,
}

/// The video options that the given values make with the defaults filled
/// in: H.264, constant bitrate, lowest latency, hardware, 8 bits, a key
/// frame every second.
pub open spec fn video_options_for(
    codec: Option<VideoCodec>,
    encoder: Option<String>,
    method: Option<RateControlMethod>,
    quality: Option<u32>,
    bitrate: Option<u32>,
    max_bitrate: Option<u32>,
    latency_control: Option<LatencyControl>,
    encoder_type: Option<EncoderType>,
    bit_depth: Option<u32>,
    keyframe_dist_secs: Option<u32>,
) -> Option<VideoEncodingOptions> {
    match rate_control_for(
        match method {
            Some(m) => m,
            None => RateControlMethod::CBR,
        },
        quality,
        bitrate,
        max_bitrate,
    ) {
        None => None,
        Some(rate_control) => Some(
            VideoEncodingOptions {
                base: EncodingOptionsBase {
                    codec: Codec::Video(
                        match codec {
                            Some(c) => c,
                            None => VideoCodec::H264,
                        },
                    ),
                    encoder,
                    rate_control,
                    latency_control: match latency_control {
                        Some(l) => l,
                        None => LatencyControl::LowestLatency,
                    },
                },
                encoder_type: match encoder_type {
                    Some(t) => t,
                    None => EncoderType::HARDWARE,
                },
                bit_depth: match bit_depth {
                    Some(d) => d,
                    None => 8u32,
                },
                keyframe_dist_secs: match keyframe_dist_secs {
                    Some(k) => k,
                    None => 1u32,
                },
            },
        ),
    }
}

impl VideoEncodingOptions {
    /// The video options for the values given on the command line, or
    /// `None` where a number that the rate control needs is missing.
    pub fn from_values(
        codec: Option<VideoCodec>,
        encoder: Option<String>,
        method: Option<RateControlMethod>,
        quality: Option<u32>,
        bitrate: Option<u32>,
        max_bitrate: Option<u32>,
        latency_control: Option<LatencyControl>,
        encoder_type: Option<EncoderType>,
        bit_depth: Option<u32>,
        keyframe_dist_secs: Option<u32>,
    ) -> (res: Option<VideoEncodingOptions>)
        ensures
            res == video_options_for(
                codec,
                encoder,
                method,
                quality,
                bitrate,
                max_bitrate,
                latency_control,
                encoder_type,
                bit_depth,
                keyframe_dist_secs,
            ),
    {
        let method = match method {
            Some(m) => m,
            None => RateControlMethod::CBR,
        };
        match rate_control_from(method, quality, bitrate, max_bitrate) {
            None => None,
            Some(rate_control) => Some(
                VideoEncodingOptions {
                    base: EncodingOptionsBase {
                        codec: Codec::Video(
                            match codec {
                                Some(c) => c,
                                None => VideoCodec::H264,
                            },
                        ),
                        encoder,
                        rate_control,
                        latency_control: match latency_control {
                            Some(l) => l,
                            None => LatencyControl::LowestLatency,
                        },
                    },
                    encoder_type: match encoder_type {
                        Some(t) => t,
                        None => EncoderType::HARDWARE,
                    },
                    bit_depth: match bit_depth {
                        Some(d) => d,
                        None => 8,
                    },
                    keyframe_dist_secs: match keyframe_dist_secs {
                        Some(k) => k,
                        None => 1,
                    },
                },
            ),
        }
    }
}

/// Where audio is captured from.
#[derive(Clone, Copy, Debug, PartialEq, Eq, Structural)]
pub enum AudioCaptureMethod {
    PULSEAUDIO,
    PIPEWIRE,
    ALSA,
}

/// The display name of a capture method.
pub open spec fn capture_name(method: AudioCaptureMethod) -> Seq<char> {
    match method {
        AudioCaptureMethod::PULSEAUDIO => "PulseAudio"@,
        AudioCaptureMethod::PIPEWIRE => "PipeWire"@,
        AudioCaptureMethod::ALSA => "ALSA"@,
    }
}

/// The capture method that a lower-cased name stands for.
pub open spec fn capture_named(lower: Seq<char>) -> Option<AudioCaptureMethod> {
    if lower == "pulseaudio"@ {
        Some(AudioCaptureMethod::PULSEAUDIO)
    } else if lower == "pipewire"@ {
        Some(AudioCaptureMethod::PIPEWIRE)
    } else if lower == "alsa"@ {
        Some(AudioCaptureMethod::ALSA)
    } else {
        None
    }
}

impl AudioCaptureMethod {
    pub fn as_str(&self) -> (name: &str)
        ensures
            name@ == capture_name(*self),
    {
        match self {
            AudioCaptureMethod::PULSEAUDIO => "PulseAudio",
            AudioCaptureMethod::PIPEWIRE => "PipeWire",
            AudioCaptureMethod::ALSA => "ALSA",
        }
    }

    /// The capture method that `lower`, a name already in lower case,
    /// stands for.
    pub fn from_lowercase(lower: &str) -> (res: Option<AudioCaptureMethod>)
        ensures
            res == capture_named(lower@),
    {
        if same_text(lower, "pulseaudio") {
            Some(AudioCaptureMethod::PULSEAUDIO)
        } else if same_text(lower, "pipewire") {
            Some(AudioCaptureMethod::PIPEWIRE)
        } else if same_text(lower, "alsa") {
            Some(AudioCaptureMethod::ALSA)
        } else {
            None
        }
    }

    /// Reads a capture method by its name, whatever the case. Any other
    /// text is an error that names the text as it was given.
    pub fn from_str(s: &str) -> (res: Result<AudioCaptureMethod, String>)
        ensures
            match capture_named(lowercase(s@)) {
                Some(m) => res == Ok::<AudioCaptureMethod, String>(m),
                None => match res {
                    Err(text) => text@ == "Invalid audio capture method: "@ + s@,
                    Ok(_) => false,
                },
            },
    {
        let lower = to_lowercase(s);
        match AudioCaptureMethod::from_lowercase(lower.as_str()) {
            Some(method) => Ok(method),
            None => {
                let mut text = "Invalid audio capture method: ".to_owned();
                text.append(s);
                Err(text)
            },
        }
    }
}

/// How to encode audio.
#[derive(Clone, Debug, PartialEq, Eq)]
pub struct AudioEncodingOptions {
    pub base: EncodingOptionsBase,
    pub capture_method: AudioCaptureMethod,
}

/// The audio options that the given values make with the defaults filled
/// in: Opus, constant bitrate, lowest latency, captured from PipeWire. Audio
/// has no constant-quantization mode.
pub open spec fn audio_options_for(
    codec: Option<AudioCodec>,
    encoder: Option<String>,
    method: Option<RateControlMethod>,
    bitrate: Option<u32>,
    max_bitrate: Option<u32>,
    latency_control: Option<LatencyControl>,
    capture_method: Option<AudioCaptureMethod>,
) -> Option<AudioEncodingOptions> {
    let method = match method {
        Some(m) => m,
        None => RateControlMethod::CBR,
    };
    if method == RateControlMethod::CQP {
        None
    } else {
        match rate_control_for(method, None, bitrate, max_bitrate) {
            None => None,
            Some(rate_control) => Some(
                AudioEncodingOptions {
                    base: EncodingOptionsBase {
                        codec: Codec::Audio(
                            match codec {
                                Some(c) => c,
                                None => AudioCodec::OPUS,
                            },
                        ),
                        encoder,
                        rate_control,
                        latency_control: match latency_control {
                            Some(l) => l,
                            None => LatencyControl::LowestLatency,
                        },
                    },
                    capture_method: match capture_method {
                        Some(c) => c,
                        None => AudioCaptureMethod::PIPEWIRE,
                    },
                },
            ),
        }
    }
}

impl AudioEncodingOptions {
    /// The audio options for the values given on the command line, or
    /// `None` where the rate control is not one for audio or a number that
    /// it needs is missing.
    pub fn from_values(
        codec: Option<AudioCodec>,
        encoder: Option<String>,
        method: Option<RateControlMethod>,
        bitrate: Option<u32>,
        max_bitrate: Option<u32>,
        latency_control: Option<LatencyControl>,
        capture_method: Option<AudioCaptureMethod>,
    ) -> (res: Option<AudioEncodingOptions>)
        ensures
            res == audio_options_for(
                codec,
                encoder,
                method,
                bitrate,
                max_bitrate,
                latency_control,
                capture_method,
            ),
    {
        let method = match method {
            Some(m) => m,
            None => RateControlMethod::CBR,
        };
        match method {
            RateControlMethod::CQP => None,
            _ => match rate_control_from(method, None, bitrate, max_bitrate) {
                None => None,
                Some(rate_control) => Some(
                    AudioEncodingOptions {
                        base: EncodingOptionsBase {
                            codec: Codec::Audio(
                                match codec {
                                    Some(c) => c,
                                    None => AudioCodec::OPUS,
                                },
                            ),
                            encoder,
                            rate_control,
                            latency_control: match latency_control {
                                Some(l) => l,
                                None => LatencyControl::LowestLatency,
                            },
                        },
                        capture_method: match capture_method {
                            Some(c) => c,
                            None => AudioCaptureMethod::PIPEWIRE,
                        },
                    },
                ),
            },
        }
    }
}

/// How to encode.
#[derive(Clone, Debug, PartialEq, Eq)]
pub struct EncodingArgs {
    /// Video encoder options.
    pub video: VideoEncodingOptions,
    /// Audio encoder options.
    pub audio: AudioEncodingOptions,
}

/// The audio encoder to use: the one asked for, or `opusenc`.
pub fn handle_encoder_audio(audio: &AudioEncodingOptions) -> (encoder: String)
    ensures
        encoder@ == match audio.base.encoder {
            Some(name) => name@,
            None => "opusenc"@,
        },
{
    match &audio.base.encoder {
        Some(name) => name.clone(),
        None => "opusenc".to_owned(),
    }
}

/// `true` or `false`.
pub open spec fn bool_text(b: bool) -> Seq<char> {
    if b {
        "true"@
    } else {
        "false"@
    }
}

/// The text of an optional value, or `fallback` where there is none.
pub open spec fn text_or(value: Option<String>, fallback: Seq<char>) -> Seq<char> {
    match value {
        Some(text) => text@,
        None => fallback,
    }
}

/// A line made of a label, a value and what closes it.
fn line(label: &str, value: &str, close: &str) -> (out: String)
    ensures
        out@ == label@ + value@ + close@,
{
    let mut out = label.to_owned();
    out.append(value);
    out.append(close);
    out
}

/// Adds a line to a report.
fn push_line(lines: &mut Vec<String>, text: String)
    ensures
        texts(final(lines)@) == texts(old(lines)@).push(text@),
{
    lines.push(text);
    assert(texts(lines@) =~= texts(old(lines)@).push(text@));
}

/// Adds the lines of one report to another.
fn append_lines(lines: &mut Vec<String>, more: Vec<String>)
    ensures
        texts(final(lines)@) == texts(old(lines)@) + texts(more@),
{
    let rest = more;
    let ghost all = more@;
    let mut i: usize = 0;
    let n = rest.len();
    while i < n
        invariant
            i <= n,
            n == rest@.len(),
            rest@ == all,
            texts(lines@) == texts(old(lines)@) + texts(all.take(i as int)),
        decreases n - i,
    {
        let text = rest[i].clone();
        push_line(lines, text);
        assert(texts(all.take(i + 1)) =~= texts(all.take(i as int)).push(all[i as int]@));
        assert(texts(lines@) =~= texts(old(lines)@) + texts(all.take(i + 1)));
        i += 1;
    }
    assert(all.take(n as int) =~= all);
}

/// The report of the host's settings, line by line.
pub open spec fn app_lines(args: AppArgs) -> Seq<Seq<char>> {
    seq![
        "AppArgs:"@,
        "> verbose: "@ + bool_text(args.verbose),
        "> resolution: '"@ + decimal_digits(args.resolution.0 as nat) + "x"@ + decimal_digits(
            args.resolution.1 as nat,
        ) + "'"@,
        "> framerate: "@ + decimal_digits(args.framerate as nat),
        "> relay_url: '"@ + args.relay_url@ + "'"@,
        "> room: '"@ + args.room@ + "'"@,
        "> vimputti_path: '"@ + text_or(args.vimputti_path, "None"@) + "'"@,
        "> zero_copy: "@ + bool_text(args.zero_copy),
    ]
}

/// The report of the GPU selection, line by line.
pub open spec fn device_lines(args: DeviceArgs) -> Seq<Seq<char>> {
    seq![
        "DeviceArgs:"@,
        "> gpu_vendor: '"@ + text_or(args.gpu_vendor, "auto"@) + "'"@,
        "> gpu_name: '"@ + text_or(args.gpu_name, "auto"@) + "'"@,
        "> gpu_index: "@ + match args.gpu_index {
            Some(index) => decimal_digits(index as nat),
            None => "auto"@,
        },
        "> gpu_card_path: '"@ + text_or(args.gpu_card_path, "auto"@) + "'"@,
    ]
}

/// The report of a rate control, line by line.
pub open spec fn rate_control_lines(rate_control: RateControl) -> Seq<Seq<char>> {
    match rate_control {
        RateControl::CQP(cqp) => seq![
            "> Rate Control: CQP"@,
            "-> Quality: "@ + decimal_digits(cqp.quality as nat),
        ],
        RateControl::VBR(vbr) => seq![
            "> Rate Control: VBR"@,
            "-> Target Bitrate: "@ + decimal_digits(vbr.target_bitrate as nat),
            "-> Max Bitrate: "@ + decimal_digits(vbr.max_bitrate as nat),
        ],
        RateControl::CBR(cbr) => seq![
            "> Rate Control: CBR"@,
            "-> Target Bitrate: "@ + decimal_digits(cbr.target_bitrate as nat),
        ],
    }
}

/// The line that reports what the encoder is tuned towards.
pub open spec fn latency_line(latency_control: LatencyControl) -> Seq<char> {
    match latency_control {
        LatencyControl::LowestLatency => "> Latency Control: Priorizing lowest latency"@,
        LatencyControl::HighestQuality => "> Latency Control: Priorizing quality at the cost of latency"@,
    }
}

/// The report of the common encoding options, line by line.
pub open spec fn base_lines(base: EncodingOptionsBase) -> Seq<Seq<char>> {
    seq![
        "> Codec: '"@ + codec_name(base.codec) + "'"@,
        "> Encoder: '"@ + text_or(base.encoder, "auto"@) + "'"@,
    ] + rate_control_lines(base.rate_control) + seq![latency_line(base.latency_control)]
}

/// The report of the video options, line by line.
pub open spec fn video_lines(video: VideoEncodingOptions) -> Seq<Seq<char>> {
    seq!["Video Encoding Options:"@] + base_lines(video.base) + seq![
        "> Encoder Type: "@ + encoder_type_name(video.encoder_type),
        "> Bit Depth: "@ + decimal_digits(video.bit_depth as nat),
        "> Keyframe Distance Seconds: "@ + decimal_digits(video.keyframe_dist_secs as nat),
    ]
}

/// The report of the audio options, line by line.
pub open spec fn audio_lines(audio: AudioEncodingOptions) -> Seq<Seq<char>> {
    seq!["Audio Encoding Options:"@] + base_lines(audio.base) + seq![
        "> Capture Method: "@ + capture_name(audio.capture_method),
    ]
}

/// The report of all encoding options, line by line.
pub open spec fn encoding_lines(args: EncodingArgs) -> Seq<Seq<char>> {
    seq!["Encoding Arguments:"@] + video_lines(args.video) + audio_lines(args.audio)
}

fn bool_str(b: bool) -> (text: &'static str)
    ensures
        text@ == bool_text(b),
{
    if b {
        "true"
    } else {
        "false"
    }
}

fn number_line(label: &str, value: u32) -> (out: String)
    ensures
        out@ == label@ + decimal_digits(value as nat),
{
    let digits = u32_to_string(value);
    let mut out = label.to_owned();
    out.append(digits.as_str());
    out
}

fn quoted_line(label: &str, value: &Option<String>, fallback: &str) -> (out: String)
    ensures
        out@ == label@ + text_or(*value, fallback@) + "'"@,
{
    match value {
        Some(text) => line(label, text.as_str(), "'"),
        None => line(label, fallback, "'"),
    }
}

impl AppArgs {
    /// The report of the settings: the lines to log, in order.
    pub fn debug_print(&self) -> (lines: Vec<String>)
        ensures
            texts(lines@) == app_lines(*self),
    {
        let mut lines: Vec<String> = Vec::new();
        assert(texts(lines@) =~= Seq::<Seq<char>>::empty());
        push_line(&mut lines, "AppArgs:".to_owned());
        push_line(&mut lines, line("> verbose: ", bool_str(self.verbose), ""));
        let mut resolution = number_line("> resolution: '", self.resolution.0);
        resolution.append("x");
        let height = u32_to_string(self.resolution.1);
        resolution.append(height.as_str());
        resolution.append("'");
        push_line(&mut lines, resolution);
        push_line(&mut lines, number_line("> framerate: ", self.framerate));
        push_line(&mut lines, line("> relay_url: '", self.relay_url.as_str(), "'"));
        push_line(&mut lines, line("> room: '", self.room.as_str(), "'"));
        push_line(&mut lines, quoted_line("> vimputti_path: '", &self.vimputti_path, "None"));
        push_line(&mut lines, line("> zero_copy: ", bool_str(self.zero_copy), ""));
        proof {
            assert("> verbose: "@ + bool_text(self.verbose) + ""@ =~= "> verbose: "@ + bool_text(
                self.verbose,
            )) by {
                reveal_strlit("");
            }
            assert("> zero_copy: "@ + bool_text(self.zero_copy) + ""@ =~= "> zero_copy: "@
                + bool_text(self.zero_copy)) by {
                reveal_strlit("");
            }
            assert(texts(lines@) =~= app_lines(*self));
        }
        lines
    }
}

impl DeviceArgs {
    /// The report of the selection: the lines to log, in order.
    pub fn debug_print(&self) -> (lines: Vec<String>)
        ensures
            texts(lines@) == device_lines(*self),
    {
        let mut lines: Vec<String> = Vec::new();
        assert(texts(lines@) =~= Seq::<Seq<char>>::empty());
        push_line(&mut lines, "DeviceArgs:".to_owned());
        push_line(&mut lines, quoted_line("> gpu_vendor: '", &self.gpu_vendor, "auto"));
        push_line(&mut lines, quoted_line("> gpu_name: '", &self.gpu_name, "auto"));
        let index = match self.gpu_index {
            Some(i) => number_line("> gpu_index: ", i),
            None => {
                let mut text = "> gpu_index: ".to_owned();
                text.append("auto");
                text
            },
        };
        push_line(&mut lines, index);
        push_line(&mut lines, quoted_line("> gpu_card_path: '", &self.gpu_card_path, "auto"));
        assert(texts(lines@) =~= device_lines(*self));
        lines
    }
}

/// The display name of an encoder type.
pub open spec fn encoder_type_name(encoder_type: EncoderType) -> Seq<char> {
    match encoder_type {
        EncoderType::SOFTWARE => "software"@,
        EncoderType::HARDWARE => "hardware"@,
    }
}

impl EncodingOptionsBase {
    /// The report of the common options: the lines to log, in order.
    pub fn debug_print(&self) -> (lines: Vec<String>)
        ensures
            texts(lines@) == base_lines(*self),
    {
        let mut lines: Vec<String> = Vec::new();
        assert(texts(lines@) =~= Seq::<Seq<char>>::empty());
        push_line(&mut lines, line("> Codec: '", self.codec.as_str(), "'"));
        push_line(&mut lines, quoted_line("> Encoder: '", &self.encoder, "auto"));
        match self.rate_control {
            RateControl::CQP(cqp) => {
                push_line(&mut lines, "> Rate Control: CQP".to_owned());
                push_line(&mut lines, number_line("-> Quality: ", cqp.quality));
            },
            RateControl::VBR(vbr) => {
                push_line(&mut lines, "> Rate Control: VBR".to_owned());
                push_line(&mut lines, number_line("-> Target Bitrate: ", vbr.target_bitrate));
                push_line(&mut lines, number_line("-> Max Bitrate: ", vbr.max_bitrate));
            },
            RateControl::CBR(cbr) => {
                push_line(&mut lines, "> Rate Control: CBR".to_owned());
                push_line(&mut lines, number_line("-> Target Bitrate: ", cbr.target_bitrate));
            },
        }
        match self.latency_control {
            LatencyControl::LowestLatency => {
                push_line(&mut lines, "> Latency Control: Priorizing lowest latency".to_owned());
            },
            LatencyControl::HighestQuality => {
                push_line(
                    &mut lines,
                    "> Latency Control: Priorizing quality at the cost of latency".to_owned(),
                );
            },
        }
        assert(texts(lines@) =~= base_lines(*self));
        lines
    }
}

impl VideoEncodingOptions {
    /// The report of the video options: the lines to log, in order.
    pub fn debug_print(&self) -> (lines: Vec<String>)
        ensures
            texts(lines@) == video_lines(*self),
    {
        let mut lines: Vec<String> = Vec::new();
        assert(texts(lines@) =~= Seq::<Seq<char>>::empty());
        push_line(&mut lines, "Video Encoding Options:".to_owned());
        append_lines(&mut lines, self.base.debug_print());
        push_line(&mut lines, line("> Encoder Type: ", self.encoder_type.as_str(), ""));
        push_line(&mut lines, number_line("> Bit Depth: ", self.bit_depth));
        push_line(
            &mut lines,
            number_line("> Keyframe Distance Seconds: ", self.keyframe_dist_secs),
        );
        proof {
            assert("> Encoder Type: "@ + encoder_type_name(self.encoder_type) + ""@
                =~= "> Encoder Type: "@ + encoder_type_name(self.encoder_type)) by {
                reveal_strlit("");
            }
            assert(texts(lines@) =~= video_lines(*self));
        }
        lines
    }
}

impl AudioEncodingOptions {
    /// The report of the audio options: the lines to log, in order.
    pub fn debug_print(&self) -> (lines: Vec<String>)
        ensures
            texts(lines@) == audio_lines(*self),
    {
        let mut lines: Vec<String> = Vec::new();
        assert(texts(lines@) =~= Seq::<Seq<char>>::empty());
        push_line(&mut lines, "Audio Encoding Options:".to_owned());
        append_lines(&mut lines, self.base.debug_print());
        push_line(&mut lines, line("> Capture Method: ", self.capture_method.as_str(), ""));
        proof {
            assert("> Capture Method: "@ + capture_name(self.capture_method) + ""@
                =~= "> Capture Method: "@ + capture_name(self.capture_method)) by {
                reveal_strlit("");
            }
            assert(texts(lines@) =~= audio_lines(*self));
        }
        lines
    }
}

impl EncodingArgs {
    /// The report of all encoding options: the lines to log, in order.
    pub fn debug_print(&self) -> (lines: Vec<String>)
        ensures
            texts(lines@) == encoding_lines(*self),
    {
        let mut lines: Vec<String> = Vec::new();
        assert(texts(lines@) =~= Seq::<Seq<char>>::empty());
        push_line(&mut lines, "Encoding Arguments:".to_owned());
        append_lines(&mut lines, self.video.debug_print());
        append_lines(&mut lines, self.audio.debug_print());
        assert(texts(lines@) =~= encoding_lines(*self));
        lines
    }
}

impl std::str::FromStr for RateControlMethod {
    type Err = String;

    fn from_str(s: &str) -> (res: Result<RateControlMethod, String>)
        ensures method_read(s@, res),
    { RateControlMethod::from_str(s) }
}

impl std::str::FromStr for AudioCaptureMethod {
    type Err = String;

    fn from_str(s: &str) -> (res: Result<AudioCaptureMethod, String>)
        ensures capture_read(s@, res),
    { AudioCaptureMethod::from_str(s) }
}

impl std::ops::Deref for VideoEncodingOptions {
    type Target = EncodingOptionsBase;

    fn deref(&self) -> (base: &EncodingOptionsBase)
        ensures *base == self.base,
    { &self.base }
}

impl std::ops::Deref for AudioEncodingOptions {
    type Target = EncodingOptionsBase;

    fn deref(&self) -> (base: &EncodingOptionsBase)
        ensures *base == self.base,
    { &self.base }
}

/// `res` is what reading `s` as a rate control method gives: the method of
/// exactly that name, or else an error whose text names `s`.
pub open spec fn method_read(s: Seq<char>, res: Result<RateControlMethod, String>) -> bool {
    match method_named(s) {
        Some(m) => res == Ok::<RateControlMethod, String>(m),
        None => match res {
            Err(text) => text@ == "Invalid rate control method: "@ + s,
            Ok(_) => false,
        },
    }
}

/// `res` is what reading `s` as an audio capture method gives: the method
/// of that name, whatever the case of `s`, or else an error whose text names
/// `s` as it was given.
pub open spec fn capture_read(s: Seq<char>, res: Result<AudioCaptureMethod, String>) -> bool {
    match capture_named(lowercase(s)) {
        Some(m) => res == Ok::<AudioCaptureMethod, String>(m),
        None => match res {
            Err(text) => text@ == "Invalid audio capture method: "@ + s,
            Ok(_) => false,
        },
    }
}

} // verus!
