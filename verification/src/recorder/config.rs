//! The configuration of a recording and the builder that assembles it.

use crate::processing::encoder::EncoderGuid;
use vstd::prelude::*;

verus! {

/// Frame rate numerator of a configuration that names none.
pub const DEFAULT_FPS_NUM: u32 = 30;

/// Frame rate denominator of a configuration that names none.
pub const DEFAULT_FPS_DEN: u32 = 1;

/// Width, in pixels, of a configuration that names no dimensions.
pub const DEFAULT_WIDTH: u32 = 1920;

/// Height, in pixels, of a configuration that names no dimensions.
pub const DEFAULT_HEIGHT: u32 = 1080;

/// Video bitrate, in bits per second, of a configuration that names none.
pub const DEFAULT_VIDEO_BITRATE: u32 = 5_000_000;

/// Output path of a configuration that names none.
pub open spec fn default_output_path() -> Seq<char> {
    "output.mp4"@
}

/// The mathematical content of a [`RecorderConfig`].
pub struct RecorderSettings {
    pub fps_num: u32,
    pub fps_den: u32,
    pub input_width: u32,
    pub input_height: u32,
    pub output_width: u32,
    pub output_height: u32,
    pub capture_audio: bool,
    pub capture_microphone: bool,
    pub debug_mode: bool,
    pub output_path: Seq<char>,
    pub video_bitrate: u32,
    pub encoder: Option<EncoderGuid>,
}

impl RecorderSettings {
    /// What whoever records with the configuration expects of it: positive
    /// dimensions and a frame rate with a nonzero denominator. Building a
    /// configuration does not ask for this; it is looked at when the
    /// configuration is put to use.
    pub open spec fn is_consistent(self) -> bool {
        &&& self.fps_den != 0
        &&& self.input_width > 0
        &&& self.input_height > 0
        &&& self.output_width > 0
        &&& self.output_height > 0
    }
}

/// The options of a builder: each one is either unset or holds what the
/// caller gave last.
pub struct BuilderOptions {
    pub fps: Option<(u32, u32)>,
    pub input_dimensions: Option<(u32, u32)>,
    pub output_dimensions: Option<(u32, u32)>,
    pub capture_audio: Option<bool>,
    pub capture_microphone: Option<bool>,
    pub debug_mode: Option<bool>,
    pub output_path: Option<Seq<char>>,
    pub video_bitrate: Option<u32>,
    pub encoder: Option<EncoderGuid>,
}

impl BuilderOptions {
    /// No option is set.
    pub open spec fn unset() -> BuilderOptions {
        BuilderOptions {
            fps: None,
            input_dimensions: None,
            output_dimensions: None,
            capture_audio: None,
            capture_microphone: None,
            debug_mode: None,
            output_path: None,
            video_bitrate: None,
            encoder: None,
        }
    }

    /// The configuration that these options resolve to: each option that is
    /// set gives its value, each other one its default.
    pub open spec fn resolve(self) -> RecorderSettings {
        RecorderSettings {
            fps_num: if let Some(fps) = self.fps {
                fps.0
            } else {
                DEFAULT_FPS_NUM
            },
            fps_den: if let Some(fps) = self.fps {
                fps.1
            } else {
                DEFAULT_FPS_DEN
            },
            input_width: if let Some(dimensions) = self.input_dimensions {
                dimensions.0
            } else {
                DEFAULT_WIDTH
            },
            input_height: if let Some(dimensions) = self.input_dimensions {
                dimensions.1
            } else {
                DEFAULT_HEIGHT
            },
            output_width: if let Some(dimensions) = self.output_dimensions {
                dimensions.0
            } else {
                DEFAULT_WIDTH
            },
            output_height: if let Some(dimensions) = self.output_dimensions {
                dimensions.1
            } else {
                DEFAULT_HEIGHT
            },
            capture_audio: self.capture_audio == Some(true),
            capture_microphone: self.capture_microphone == Some(true),
            debug_mode: self.debug_mode == Some(true),
            output_path: if let Some(path) = self.output_path {
                path
            } else {
                default_output_path()
            },
            video_bitrate: if let Some(bitrate) = self.video_bitrate {
                bitrate
            } else {
                DEFAULT_VIDEO_BITRATE
            },
            encoder: self.encoder,
        }
    }
}

/// Describes one recording: frame rate, capture and output dimensions,
/// audio sources, output file, bitrate and encoder. It is assembled by a
/// [`RecorderConfigBuilder`] and read-only afterwards.
#[derive(Debug, Clone)]
pub struct RecorderConfig {
    fps_num: u32,
    fps_den: u32,
    input_width: u32,
    input_height: u32,
    output_width: u32,
    output_height: u32,
    capture_audio: bool,
    capture_microphone: bool,
    debug_mode: bool,
    output_path: String,
    video_bitrate: u32,
    encoder: Option<EncoderGuid>,
}

impl View for RecorderConfig {
    type V = RecorderSettings;

    closed spec fn view(&self) -> RecorderSettings {
        RecorderSettings {
            fps_num: self.fps_num,
            fps_den: self.fps_den,
            input_width: self.input_width,
            input_height: self.input_height,
            output_width: self.output_width,
            output_height: self.output_height,
            capture_audio: self.capture_audio,
            capture_microphone: self.capture_microphone,
            debug_mode: self.debug_mode,
            output_path: self.output_path@,
            video_bitrate: self.video_bitrate,
            encoder: self.encoder,
        }
    }
}

impl RecorderConfig {
    /// A builder with no option set.
    pub fn builder() -> (builder: RecorderConfigBuilder)
        ensures
            builder@ == BuilderOptions::unset(),
    {
        RecorderConfigBuilder::new()
    }

    /// Frame rate numerator.
    pub fn fps_num(&self) -> (value: u32)
        ensures
            value == self@.fps_num,
    {
        self.fps_num
    }

    /// Frame rate denominator.
    pub fn fps_den(&self) -> (value: u32)
        ensures
            value == self@.fps_den,
    {
        self.fps_den
    }

    /// Width of the captured area, in pixels.
    pub fn input_width(&self) -> (value: u32)
        ensures
            value == self@.input_width,
    {
        self.input_width
    }

    /// Height of the captured area, in pixels.
    pub fn input_height(&self) -> (value: u32)
        ensures
            value == self@.input_height,
    {
        self.input_height
    }

    /// Width of the encoded video, in pixels.
    pub fn output_width(&self) -> (value: u32)
        ensures
            value == self@.output_width,
    {
        self.output_width
    }

    /// Height of the encoded video, in pixels.
    pub fn output_height(&self) -> (value: u32)
        ensures
            value == self@.output_height,
    {
        self.output_height
    }

    /// Whether system audio is captured.
    pub fn capture_audio(&self) -> (value: bool)
        ensures
            value == self@.capture_audio,
    {
        self.capture_audio
    }

    /// Whether the microphone is captured.
    pub fn capture_microphone(&self) -> (value: bool)
        ensures
            value == self@.capture_microphone,
    {
        self.capture_microphone
    }

    /// Whether the recorder reports what it does.
    pub fn debug_mode(&self) -> (value: bool)
        ensures
            value == self@.debug_mode,
    {
        self.debug_mode
    }

    /// Where the encoded file is written.
    pub fn output_path(&self) -> (value: &str)
        ensures
            value@ == self@.output_path,
    {
        self.output_path.as_str()
    }

    /// Target video bitrate, in bits per second.
    pub fn video_bitrate(&self) -> (value: u32)
        ensures
            value == self@.video_bitrate,
    {
        self.video_bitrate
    }

    /// The encoder that was chosen, if any. With none the recording engine
    /// picks one.
    pub fn encoder(&self) -> (value: Option<EncoderGuid>)
        ensures
            value == self@.encoder,
    {
        self.encoder
    }

    /// Whether the configuration can be recorded with: all four dimensions
    /// are positive and the frame rate has a nonzero denominator.
    pub fn is_valid(&self) -> (valid: bool)
        ensures
            valid == self@.is_consistent(),
    {
        self.fps_den != 0 && self.input_width > 0 && self.input_height > 0 && self.output_width > 0
            && self.output_height > 0
    }
}

/// Collects the options of a configuration. Every option may be left out;
/// no combination is rejected.
#[derive(Debug, Clone)]
pub struct RecorderConfigBuilder {
    fps: Option<(u32, u32)>,
    input_dimensions: Option<(u32, u32)>,
    output_dimensions: Option<(u32, u32)>,
    capture_audio: Option<bool>,
    capture_microphone: Option<bool>,
    debug_mode: Option<bool>,
    output_path: Option<String>,
    video_bitrate: Option<u32>,
    encoder: Option<EncoderGuid>,
}

impl View for RecorderConfigBuilder {
    type V = BuilderOptions;

    closed spec fn view(&self) -> BuilderOptions {
        BuilderOptions {
            fps: self.fps,
            input_dimensions: self.input_dimensions,
            output_dimensions: self.output_dimensions,
            capture_audio: self.capture_audio,
            capture_microphone: self.capture_microphone,
            debug_mode: self.debug_mode,
            output_path: match self.output_path {
                Some(path) => Some(path@),
                None => None,
            },
            video_bitrate: self.video_bitrate,
            encoder: self.encoder,
        }
    }
}

impl RecorderConfigBuilder {
    /// A builder with no option set.
    pub fn new() -> (builder: Self)
        ensures
            builder@ == BuilderOptions::unset(),
    {
        RecorderConfigBuilder {
            fps: None,
            input_dimensions: None,
            output_dimensions: None,
            capture_audio: None,
            capture_microphone: None,
            debug_mode: None,
            output_path: None,
            video_bitrate: None,
            encoder: None,
        }
    }

    /// Sets the frame rate as a fraction of frames per second.
    pub fn fps(self, num: u32, den: u32) -> (builder: Self)
        ensures
            builder@ == (BuilderOptions { fps: Some((num, den)), ..self@ }),
    {
        let mut builder = self;
        builder.fps = Some((num, den));
        builder
    }

    /// Sets the dimensions of the captured area, in pixels.
    pub fn input_dimensions(self, width: u32, height: u32) -> (builder: Self)
        ensures
            builder@ == (BuilderOptions { input_dimensions: Some((width, height)), ..self@ }),
    {
        let mut builder = self;
        builder.input_dimensions = Some((width, height));
        builder
    }

    /// Sets the dimensions of the encoded video, in pixels.
    pub fn output_dimensions(self, width: u32, height: u32) -> (builder: Self)
        ensures
            builder@ == (BuilderOptions { output_dimensions: Some((width, height)), ..self@ }),
    {
        let mut builder = self;
        builder.output_dimensions = Some((width, height));
        builder
    }

    /// Sets whether system audio is captured.
    pub fn capture_audio(self, enabled: bool) -> (builder: Self)
        ensures
            builder@ == (BuilderOptions { capture_audio: Some(enabled), ..self@ }),
    {
        let mut builder = self;
        builder.capture_audio = Some(enabled);
        builder
    }

    /// Sets whether the microphone is captured.
    pub fn capture_microphone(self, enabled: bool) -> (builder: Self)
        ensures
            builder@ == (BuilderOptions { capture_microphone: Some(enabled), ..self@ }),
    {
        let mut builder = self;
        builder.capture_microphone = Some(enabled);
        builder
    }

    /// Sets whether the recorder reports what it does.
    pub fn debug_mode(self, enabled: bool) -> (builder: Self)
        ensures
            builder@ == (BuilderOptions { debug_mode: Some(enabled), ..self@ }),
    {
        let mut builder = self;
        builder.debug_mode = Some(enabled);
        builder
    }

    /// Sets where the encoded file is written.
    pub fn output_path(self, path: &str) -> (builder: Self)
        ensures
            builder@ == (BuilderOptions { output_path: Some(path@), ..self@ }),
    {
        let mut builder = self;
        builder.output_path = Some(path.to_owned());
        builder
    }

    /// Sets the target video bitrate, in bits per second.
    pub fn video_bitrate(self, bitrate: u32) -> (builder: Self)
        ensures
            builder@ == (BuilderOptions { video_bitrate: Some(bitrate), ..self@ }),
    {
        let mut builder = self;
        builder.video_bitrate = Some(bitrate);
        builder
    }

    /// Chooses the encoder, or with `None` leaves the choice to the
    /// recording engine.
    pub fn encoder(self, encoder: Option<EncoderGuid>) -> (builder: Self)
        ensures
            builder@ == (BuilderOptions { encoder, ..self@ }),
    {
        let mut builder = self;
        builder.encoder = encoder;
        builder
    }

    /// Produces the configuration. This never fails and checks nothing: an
    /// option that is set gives its value as it is, any other its default.
    pub fn build(self) -> (config: RecorderConfig)
        ensures
            config@ == self@.resolve(),
    {
        let (fps_num, fps_den) = match self.fps {
            Some(fps) => fps,
            None => (DEFAULT_FPS_NUM, DEFAULT_FPS_DEN),
        };
        let (input_width, input_height) = match self.input_dimensions {
            Some(dimensions) => dimensions,
            None => (DEFAULT_WIDTH, DEFAULT_HEIGHT),
        };
        let (output_width, output_height) = match self.output_dimensions {
            Some(dimensions) => dimensions,
            None => (DEFAULT_WIDTH, DEFAULT_HEIGHT),
        };
        let capture_audio = match self.capture_audio {
            Some(enabled) => enabled,
            None => false,
        };
        let capture_microphone = match self.capture_microphone {
            Some(enabled) => enabled,
            None => false,
        };
        let debug_mode = match self.debug_mode {
            Some(enabled) => enabled,
            None => false,
        };
        let output_path = match self.output_path {
            Some(path) => path,
            None => "output.mp4".to_owned(),
        };
        let video_bitrate = match self.video_bitrate {
            Some(bitrate) => bitrate,
            None => DEFAULT_VIDEO_BITRATE,
        };
        RecorderConfig {
            fps_num,
            fps_den,
            input_width,
            input_height,
            output_width,
            output_height,
            capture_audio,
            capture_microphone,
            debug_mode,
            output_path,
            video_bitrate,
            encoder: self.encoder,
        }
    }
}

/// A configuration built with no option set holds the defaults: no system
/// audio, no microphone, no debug mode, and the default frame rate,
/// dimensions, bitrate and output path, with the encoder left open.
pub proof fn lemma_unset_options_give_defaults()
    ensures
        BuilderOptions::unset().resolve() == (RecorderSettings {
            fps_num: DEFAULT_FPS_NUM,
            fps_den: DEFAULT_FPS_DEN,
            input_width: DEFAULT_WIDTH,
            input_height: DEFAULT_HEIGHT,
            output_width: DEFAULT_WIDTH,
            output_height: DEFAULT_HEIGHT,
            capture_audio: false,
            capture_microphone: false,
            debug_mode: false,
            output_path: default_output_path(),
            video_bitrate: DEFAULT_VIDEO_BITRATE,
            encoder: None,
        }),
        BuilderOptions::unset().resolve().is_consistent(),
{
}

/// A configuration built with every option set holds exactly the values
/// that were given, whatever they are.
pub proof fn lemma_set_options_round_trip(settings: RecorderSettings)
    ensures
        (BuilderOptions {
            fps: Some((settings.fps_num, settings.fps_den)),
            input_dimensions: Some((settings.input_width, settings.input_height)),
            output_dimensions: Some((settings.output_width, settings.output_height)),
            capture_audio: Some(settings.capture_audio),
            capture_microphone: Some(settings.capture_microphone),
            debug_mode: Some(settings.debug_mode),
            output_path: Some(settings.output_path),
            video_bitrate: Some(settings.video_bitrate),
            encoder: settings.encoder,
        }).resolve() == settings,
{
}

/// Setting one option gives the configuration that value and leaves what
/// the other options resolve to as it was.
pub proof fn lemma_each_option_is_kept(
    options: BuilderOptions,
    pair: (u32, u32),
    flag: bool,
    path: Seq<char>,
    bitrate: u32,
    encoder: Option<EncoderGuid>,
)
    ensures
        (BuilderOptions { fps: Some(pair), ..options }).resolve() == (RecorderSettings {
            fps_num: pair.0,
            fps_den: pair.1,
            ..options.resolve()
        }),
        (BuilderOptions { input_dimensions: Some(pair), ..options }).resolve() == (RecorderSettings {
            input_width: pair.0,
            input_height: pair.1,
            ..options.resolve()
        }),
        (BuilderOptions { output_dimensions: Some(pair), ..options }).resolve() == (RecorderSettings {
            output_width: pair.0,
            output_height: pair.1,
            ..options.resolve()
        }),
        (BuilderOptions { capture_audio: Some(flag), ..options }).resolve() == (RecorderSettings {
            capture_audio: flag,
            ..options.resolve()
        }),
        (BuilderOptions { capture_microphone: Some(flag), ..options }).resolve() == (
        RecorderSettings { capture_microphone: flag, ..options.resolve() }),
        (BuilderOptions { debug_mode: Some(flag), ..options }).resolve() == (RecorderSettings {
            debug_mode: flag,
            ..options.resolve()
        }),
        (BuilderOptions { output_path: Some(path), ..options }).resolve() == (RecorderSettings {
            output_path: path,
            ..options.resolve()
        }),
        (BuilderOptions { video_bitrate: Some(bitrate), ..options }).resolve() == (RecorderSettings {
            video_bitrate: bitrate,
            ..options.resolve()
        }),
        (BuilderOptions { encoder, ..options }).resolve() == (RecorderSettings {
            encoder,
            ..options.resolve()
        }),
{
}

} // verus!
