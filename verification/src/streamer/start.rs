//! Starting a stream: what the host is asked for and what the browser is told.
use crate::streamer::gamepads::ActiveGamepads;
use crate::streamer::messages::{DebugLog, LogMessageType};
use vstd::prelude::*;

verus! {

/// What the browser wants of a stream. `C` is a color space and `F` a set of video
/// formats, which are only passed on.
pub struct StreamSettings<C, F> {
    pub bitrate: u32,
    pub packet_size: u32,
    pub fps: u32,
    pub width: u32,
    pub height: u32,
    pub play_audio_local: bool,
    pub video_supported_formats: F,
    pub video_colorspace: C,
    pub video_color_range_full: bool,
    pub hdr: bool,
}

/// The range of color values.
#[derive(Debug, Clone, Copy, PartialEq, Eq, Structural)]
pub enum ColorRange {
    Limited,
    Full,
}

/// What of a stream is encrypted.
#[derive(Debug, Clone, Copy, PartialEq, Eq, Structural)]
pub enum EncryptionFlags {
    /// Everything that can be.
    All,
}

/// What the host is asked for.
pub struct StartParameters<C, F> {
    pub app_id: u32,
    pub width: u32,
    pub height: u32,
    pub fps: u32,
    pub hdr: bool,
    /// The host may set up its applications for the stream.
    pub sops: bool,
    pub local_audio_play_mode: bool,
    pub gamepads: ActiveGamepads,
    pub gamepads_persist_after_disconnect: bool,
    pub color_space: C,
    pub color_range: ColorRange,
    pub bitrate: u32,
    pub packet_size: u32,
    pub encryption: EncryptionFlags,
    pub supported_formats: F,
}

/// The host is asked for what the browser wants, with no gamepads to begin with.
pub open spec fn requested<C, F>(app_id: u32, settings: StreamSettings<C, F>) -> StartParameters<
    C,
    F,
> {
    StartParameters {
        app_id,
        width: settings.width,
        height: settings.height,
        fps: settings.fps,
        hdr: settings.hdr,
        sops: true,
        local_audio_play_mode: settings.play_audio_local,
        gamepads: ActiveGamepads::none(),
        gamepads_persist_after_disconnect: false,
        color_space: settings.video_colorspace,
        color_range: if settings.video_color_range_full {
            ColorRange::Full
        } else {
            ColorRange::Limited
        },
        bitrate: settings.bitrate,
        packet_size: settings.packet_size,
        encryption: EncryptionFlags::All,
        supported_formats: settings.video_supported_formats,
    }
}

/// Says what the host is asked for.
pub fn start_parameters<C, F>(app_id: u32, settings: StreamSettings<C, F>) -> (r: StartParameters<
    C,
    F,
>)
    ensures
        r == requested(app_id, settings),
        r.app_id == app_id,
        r.width == settings.width,
        r.height == settings.height,
        r.fps == settings.fps,
        r.hdr == settings.hdr,
        r.sops,
        r.local_audio_play_mode == settings.play_audio_local,
        r.gamepads.bits == 0,
        !r.gamepads_persist_after_disconnect,
        r.color_space == settings.video_colorspace,
        r.color_range == ColorRange::Full <==> settings.video_color_range_full,
        r.bitrate == settings.bitrate,
        r.packet_size == settings.packet_size,
        r.encryption == EncryptionFlags::All,
        r.supported_formats == settings.video_supported_formats,
{
    StartParameters {
        app_id,
        width: settings.width,
        height: settings.height,
        fps: settings.fps,
        hdr: settings.hdr,
        sops: true,
        local_audio_play_mode: settings.play_audio_local,
        gamepads: ActiveGamepads::empty(),
        gamepads_persist_after_disconnect: false,
        color_space: settings.video_colorspace,
        color_range: if settings.video_color_range_full {
            ColorRange::Full
        } else {
            ColorRange::Limited
        },
        bitrate: settings.bitrate,
        packet_size: settings.packet_size,
        encryption: EncryptionFlags::All,
        supported_formats: settings.video_supported_formats,
    }
}

/// Why a stream could not be started.
#[derive(Debug, Clone, Copy, PartialEq, Eq, Structural)]
pub enum StartFailure {
    /// The streamer has a stream already.
    ConnectionAlreadyExists,
    /// The application has no high dynamic range.
    NotSupportedHdr,
    /// Anything else.
    Other,
}

/// `log` is what the browser is told of a stream that could not be started, where
/// there is something to tell.
pub open spec fn tells_failure(failure: StartFailure, log: Option<DebugLog>) -> bool {
    match failure {
        StartFailure::ConnectionAlreadyExists => log is Some && log->0.message@
            == "Failed to start stream because this streamer is already streaming"@
            && log->0.ty is None,
        StartFailure::NotSupportedHdr => log is Some && log->0.message@
            == "Failed to start stream because this app doesn't support HDR!"@ && log->0.ty == Some(
            LogMessageType::FatalDescription,
        ),
        StartFailure::Other => log is None,
    }
}

/// Tells the browser of a stream that could not be started.
pub fn start_failure_message(failure: StartFailure) -> (r: Option<DebugLog>)
    ensures
        tells_failure(failure, r),
{
    match failure {
        StartFailure::ConnectionAlreadyExists => Some(
            DebugLog {
                message:
                    "Failed to start stream because this streamer is already streaming".to_owned(),
                ty: None,
            },
        ),
        StartFailure::NotSupportedHdr => Some(
            DebugLog {
                message: "Failed to start stream because this app doesn't support HDR!".to_owned(),
                ty: Some(LogMessageType::FatalDescription),
            },
        ),
        StartFailure::Other => None,
    }
}

/// The video that the host sends.
#[derive(Debug, Clone, Copy, PartialEq, Eq, Structural)]
pub struct VideoSetup {
    pub format: u32,
    pub width: u32,
    pub height: u32,
    pub redraw_rate: u32,
    pub flags: i32,
}

/// The audio that the host sends.
#[derive(Debug, Clone, Copy, PartialEq, Eq)]
pub struct OpusMultistreamConfig {
    pub sample_rate: u32,
    pub channel_count: u32,
    pub streams: u32,
    pub coupled_streams: u32,
    pub samples_per_frame: u32,
    pub mapping: [u8; 8],
}

/// What the video and audio decoders were told, so far.
#[derive(Debug, Clone, Copy, PartialEq, Eq)]
pub struct StreamSetup {
    pub video: Option<VideoSetup>,
    pub audio: Option<OpusMultistreamConfig>,
}

/// What a browser can do with a stream.
#[derive(Debug, Clone, Copy, PartialEq, Eq, Structural)]
pub struct StreamCapabilities {
    pub touch: bool,
}

/// The message to the browser that a stream was started.
#[derive(Debug)]
pub struct ConnectionComplete {
    pub capabilities: StreamCapabilities,
    pub format: u32,
    pub width: u32,
    pub height: u32,
    pub fps: u32,
    pub audio_sample_rate: u32,
    pub audio_channel_count: u32,
    pub audio_streams: u32,
    pub audio_coupled_streams: u32,
    pub audio_samples_per_frame: u32,
    pub audio_mapping: [u8; 8],
}

/// What is assumed of a stream where nothing else is known.
#[derive(Debug, Clone, Copy, PartialEq, Eq)]
pub struct StreamDefaults {
    pub width: u32,
    pub height: u32,
    pub fps: u32,
    /// The most common video format.
    pub format: u32,
    /// Stereo audio.
    pub stereo: OpusMultistreamConfig,
    /// The feature of a host that touch input needs.
    pub pen_touch: u32,
}

/// Values of the Moonlight library that stand in for what a host does not tell.
#[derive(Debug, Clone, Copy, PartialEq, Eq)]
pub struct StreamConstants {
    /// The most common video format.
    pub format: u32,
    /// Stereo audio.
    pub stereo: OpusMultistreamConfig,
    /// The feature of a host that touch input needs.
    pub pen_touch: u32,
}

/// Assumes of a stream what was asked for.
pub fn stream_defaults<C, F>(settings: &StreamSettings<C, F>, constants: &StreamConstants) -> (r:
    StreamDefaults)
    ensures
        r == (StreamDefaults {
            width: settings.width,
            height: settings.height,
            fps: settings.fps,
            format: constants.format,
            stereo: constants.stereo,
            pen_touch: constants.pen_touch,
        }),
{
    StreamDefaults {
        width: settings.width,
        height: settings.height,
        fps: settings.fps,
        format: constants.format,
        stereo: constants.stereo,
        pen_touch: constants.pen_touch,
    }
}

/// What a browser can do with a stream from a host of these features. A host that has
/// not told its features has none.
pub open spec fn capabilities_of(features: Option<u32>, pen_touch: u32) -> StreamCapabilities {
    StreamCapabilities {
        touch: match features {
            Some(features) => features & pen_touch == pen_touch,
            None => pen_touch == 0,
        },
    }
}

/// Says what a browser can do with a stream.
pub fn stream_capabilities(features: Option<u32>, pen_touch: u32) -> (r: StreamCapabilities)
    ensures
        r == capabilities_of(features, pen_touch),
{
    let host_features: u32 = match features {
        Some(features) => features,
        None => 0,
    };
    proof {
        assert(0u32 & pen_touch == 0) by (bit_vector);
    }
    StreamCapabilities { touch: host_features & pen_touch == pen_touch }
}

/// The video that the browser is told of: what the decoder was told, or else what was
/// asked for.
pub open spec fn told_video(setup: Option<VideoSetup>, defaults: StreamDefaults) -> VideoSetup {
    match setup {
        Some(video) => video,
        None => VideoSetup {
            format: defaults.format,
            width: defaults.width,
            height: defaults.height,
            redraw_rate: defaults.fps,
            flags: 0,
        },
    }
}

/// The audio that the browser is told of: what the decoder was told, or else stereo.
pub open spec fn told_audio(
    setup: Option<OpusMultistreamConfig>,
    defaults: StreamDefaults,
) -> OpusMultistreamConfig {
    match setup {
        Some(audio) => audio,
        None => defaults.stereo,
    }
}

/// What the browser is told of a stream that was started.
pub open spec fn told(
    features: Option<u32>,
    setup: StreamSetup,
    defaults: StreamDefaults,
) -> ConnectionComplete {
    let video = told_video(setup.video, defaults);
    let audio = told_audio(setup.audio, defaults);
    ConnectionComplete {
        capabilities: capabilities_of(features, defaults.pen_touch),
        format: video.format,
        width: video.width,
        height: video.height,
        fps: video.redraw_rate,
        audio_sample_rate: audio.sample_rate,
        audio_channel_count: audio.channel_count,
        audio_streams: audio.streams,
        audio_coupled_streams: audio.coupled_streams,
        audio_samples_per_frame: audio.samples_per_frame,
        audio_mapping: audio.mapping,
    }
}

/// Tells the browser of a stream that was started.
pub fn connection_complete(
    features: Option<u32>,
    setup: &StreamSetup,
    defaults: &StreamDefaults,
) -> (r: ConnectionComplete)
    ensures
        r == told(features, *setup, *defaults),
{
    let video_setup = match setup.video {
        Some(video) => video,
        None => VideoSetup {
            format: defaults.format,
            width: defaults.width,
            height: defaults.height,
            redraw_rate: defaults.fps,
            flags: 0,
        },
    };
    let audio_setup = match setup.audio {
        Some(audio) => audio,
        None => defaults.stereo,
    };
    ConnectionComplete {
        capabilities: stream_capabilities(features, defaults.pen_touch),
        format: video_setup.format,
        width: video_setup.width,
        height: video_setup.height,
        fps: video_setup.redraw_rate,
        audio_sample_rate: audio_setup.sample_rate,
        audio_channel_count: audio_setup.channel_count,
        audio_streams: audio_setup.streams,
        audio_coupled_streams: audio_setup.coupled_streams,
        audio_samples_per_frame: audio_setup.samples_per_frame,
        audio_mapping: audio_setup.mapping,
    }
}

/// The host is asked for every wish of the browser as it is: nothing is asked for that
/// the browser has not wished, and nothing else is left to the host but what is the same
/// for every stream.
pub proof fn law_every_wish_is_asked_for<C, F>(app_id: u32, settings: StreamSettings<C, F>)
    ensures
        requested(app_id, settings).app_id == app_id,
        requested(app_id, settings).width == settings.width,
        requested(app_id, settings).height == settings.height,
        requested(app_id, settings).fps == settings.fps,
        requested(app_id, settings).hdr == settings.hdr,
        requested(app_id, settings).sops,
        requested(app_id, settings).local_audio_play_mode == settings.play_audio_local,
        requested(app_id, settings).gamepads.bits == 0,
        !requested(app_id, settings).gamepads_persist_after_disconnect,
        requested(app_id, settings).color_space == settings.video_colorspace,
        requested(app_id, settings).color_range == ColorRange::Full <==> settings.video_color_range_full,
        requested(app_id, settings).bitrate == settings.bitrate,
        requested(app_id, settings).packet_size == settings.packet_size,
        requested(app_id, settings).encryption == EncryptionFlags::All,
        requested(app_id, settings).supported_formats == settings.video_supported_formats,
{
}

/// Streams that are wished differently are asked for differently.
pub proof fn law_different_wishes_are_asked_for_differently<C, F>(
    app_id: u32,
    settings: StreamSettings<C, F>,
    other_app_id: u32,
    other: StreamSettings<C, F>,
)
    requires
        requested(app_id, settings) == requested(other_app_id, other),
    ensures
        app_id == other_app_id,
        settings == other,
{
    law_every_wish_is_asked_for(app_id, settings);
    law_every_wish_is_asked_for(other_app_id, other);
}

/// Of a failed start the browser is told exactly where it can be explained.
pub proof fn law_failed_starts_are_explained(failure: StartFailure, log: Option<DebugLog>)
    requires
        tells_failure(failure, log),
    ensures
        log is None <==> failure is Other,
        failure is ConnectionAlreadyExists ==> log->0.message@
            == "Failed to start stream because this streamer is already streaming"@
            && log->0.ty is None,
        failure is NotSupportedHdr ==> log->0.message@
            == "Failed to start stream because this app doesn't support HDR!"@ && log->0.ty == Some(
            LogMessageType::FatalDescription,
        ),
{
}

/// Touch input needs every bit of its feature. A host that tells nothing counts as one
/// that has no feature.
pub proof fn law_touch_needs_its_feature(features: u32, pen_touch: u32)
    ensures
        capabilities_of(Some(features), pen_touch).touch <==> features | pen_touch == features,
        capabilities_of(None, pen_touch) == capabilities_of(Some(0), pen_touch),
{
    assert(features & pen_touch == pen_touch <==> features | pen_touch == features) by (bit_vector);
    assert(0u32 & pen_touch == 0) by (bit_vector);
}

/// The browser is told the video and audio that the decoders were told. Where a decoder
/// was told nothing, the browser is told what was asked for, or stereo.
pub proof fn law_browser_is_told_what_the_decoders_were_told(
    features: Option<u32>,
    setup: StreamSetup,
    defaults: StreamDefaults,
)
    ensures
        ({
            let told = told(features, setup, defaults);
            &&& features matches Some(bits) ==> (told.capabilities.touch <==> bits
                & defaults.pen_touch == defaults.pen_touch)
            &&& features is None ==> (told.capabilities.touch <==> defaults.pen_touch == 0)
            &&& setup.video matches Some(video) ==> told.format == video.format && told.width
                == video.width && told.height == video.height && told.fps == video.redraw_rate
            &&& setup.video is None ==> told.format == defaults.format && told.width
                == defaults.width && told.height == defaults.height && told.fps == defaults.fps
            &&& setup.audio matches Some(audio) ==> told.audio_sample_rate == audio.sample_rate
                && told.audio_channel_count == audio.channel_count && told.audio_streams
                == audio.streams && told.audio_coupled_streams == audio.coupled_streams
                && told.audio_samples_per_frame == audio.samples_per_frame && told.audio_mapping
                == audio.mapping
            &&& setup.audio is None ==> told.audio_sample_rate == defaults.stereo.sample_rate
                && told.audio_channel_count == defaults.stereo.channel_count && told.audio_streams
                == defaults.stereo.streams && told.audio_coupled_streams
                == defaults.stereo.coupled_streams && told.audio_samples_per_frame
                == defaults.stereo.samples_per_frame && told.audio_mapping
                == defaults.stereo.mapping
        }),
{
}

} // verus!
