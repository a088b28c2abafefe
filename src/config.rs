//! The settings record and its choices.
use crate::presets::Presets;
use vstd::prelude::*;

verus! {

/// How the device is selected.
#[derive(Clone, Copy, Debug, PartialEq, Eq, Structural)]
pub enum ConnectMethod {
    Auto,
    Usb,
    Tcpip,
}

impl ConnectMethod {
    /// The word that names this choice on the command line.
    pub open spec fn word(self) -> Seq<char> {
        match self {
            ConnectMethod::Auto => "auto"@,
            ConnectMethod::Usb => "usb"@,
            ConnectMethod::Tcpip => "tcpip"@,
        }
    }

    pub fn as_word(&self) -> (r: &'static str)
        ensures
            r@ == self.word(),
    {
        match self {
            ConnectMethod::Auto => "auto",
            ConnectMethod::Usb => "usb",
            ConnectMethod::Tcpip => "tcpip",
        }
    }
}

/// Where the mirrored video comes from.
#[derive(Clone, Copy, Debug, PartialEq, Eq, Structural)]
pub enum VideoSource {
    Display,
    Camera,
    No,
}

impl VideoSource {
    /// The word that names this choice on the command line.
    pub open spec fn word(self) -> Seq<char> {
        match self {
            VideoSource::Display => "display"@,
            VideoSource::Camera => "camera"@,
            VideoSource::No => "none"@,
        }
    }

    pub fn as_word(&self) -> (r: &'static str)
        ensures
            r@ == self.word(),
    {
        match self {
            VideoSource::Display => "display",
            VideoSource::Camera => "camera",
            VideoSource::No => "none",
        }
    }
}

/// Which camera feeds the video when the source is a camera.
#[derive(Clone, Copy, Debug, PartialEq, Eq, Structural)]
pub enum Camera {
    Front,
    Back,
    External,
}

impl Camera {
    /// The word that names this choice on the command line.
    pub open spec fn word(self) -> Seq<char> {
        match self {
            Camera::Front => "front"@,
            Camera::Back => "back"@,
            Camera::External => "external"@,
        }
    }

    pub fn as_word(&self) -> (r: &'static str)
        ensures
            r@ == self.word(),
    {
        match self {
            Camera::Front => "front",
            Camera::Back => "back",
            Camera::External => "external",
        }
    }
}

/// Codec of the video stream.
#[derive(Clone, Copy, Debug, PartialEq, Eq, Structural)]
pub enum VideoCodec {
    H264,
    H265,
    Av1,
}

impl VideoCodec {
    /// The word that names this choice on the command line.
    pub open spec fn word(self) -> Seq<char> {
        match self {
            VideoCodec::H264 => "h264"@,
            VideoCodec::H265 => "h265"@,
            VideoCodec::Av1 => "av1"@,
        }
    }

    pub fn as_word(&self) -> (r: &'static str)
        ensures
            r@ == self.word(),
    {
        match self {
            VideoCodec::H264 => "h264",
            VideoCodec::H265 => "h265",
            VideoCodec::Av1 => "av1",
        }
    }
}

/// Whether the orientation applies to the capture or to the local display.
#[derive(Clone, Copy, Debug, PartialEq, Eq, Structural)]
pub enum OrientationType {
    Capture,
    Display,
}

impl OrientationType {
    /// The word that names this choice on the command line.
    pub open spec fn word(self) -> Seq<char> {
        match self {
            OrientationType::Capture => "capture"@,
            OrientationType::Display => "display"@,
        }
    }

    pub fn as_word(&self) -> (r: &'static str)
        ensures
            r@ == self.word(),
    {
        match self {
            OrientationType::Capture => "capture",
            OrientationType::Display => "display",
        }
    }
}

/// Clockwise rotation, or the device's own orientation.
#[derive(Clone, Copy, Debug, PartialEq, Eq, Structural)]
pub enum OrientationAngle {
    Default,
    Deg0,
    Deg90,
    Deg180,
    Deg270,
}

impl OrientationAngle {
    /// The word that names this choice on the command line.
    pub open spec fn word(self) -> Seq<char> {
        match self {
            OrientationAngle::Default => "default"@,
            OrientationAngle::Deg0 => "0"@,
            OrientationAngle::Deg90 => "90"@,
            OrientationAngle::Deg180 => "180"@,
            OrientationAngle::Deg270 => "270"@,
        }
    }

    pub fn as_word(&self) -> (r: &'static str)
        ensures
            r@ == self.word(),
    {
        match self {
            OrientationAngle::Default => "default",
            OrientationAngle::Deg0 => "0",
            OrientationAngle::Deg90 => "90",
            OrientationAngle::Deg180 => "180",
            OrientationAngle::Deg270 => "270",
        }
    }
}

/// Where the forwarded audio comes from.
#[derive(Clone, Copy, Debug, PartialEq, Eq, Structural)]
pub enum AudioSource {
    Output,
    Playback,
    Mic,
    No,
}

impl AudioSource {
    /// The word that names this choice on the command line.
    pub open spec fn word(self) -> Seq<char> {
        match self {
            AudioSource::Output => "output"@,
            AudioSource::Playback => "playback"@,
            AudioSource::Mic => "mic"@,
            AudioSource::No => "none"@,
        }
    }

    pub fn as_word(&self) -> (r: &'static str)
        ensures
            r@ == self.word(),
    {
        match self {
            AudioSource::Output => "output",
            AudioSource::Playback => "playback",
            AudioSource::Mic => "mic",
            AudioSource::No => "none",
        }
    }
}

/// Codec of the audio stream.
#[derive(Clone, Copy, Debug, PartialEq, Eq, Structural)]
pub enum AudioCodec {
    Opus,
    Aac,
    Flac,
    Raw,
}

impl AudioCodec {
    /// The word that names this choice on the command line.
    pub open spec fn word(self) -> Seq<char> {
        match self {
            AudioCodec::Opus => "opus"@,
            AudioCodec::Aac => "aac"@,
            AudioCodec::Flac => "flac"@,
            AudioCodec::Raw => "raw"@,
        }
    }

    pub fn as_word(&self) -> (r: &'static str)
        ensures
            r@ == self.word(),
    {
        match self {
            AudioCodec::Opus => "opus",
            AudioCodec::Aac => "aac",
            AudioCodec::Flac => "flac",
            AudioCodec::Raw => "raw",
        }
    }
}

/// How key events reach the device.
#[derive(Clone, Copy, Debug, PartialEq, Eq, Structural)]
pub enum Keyboard {
    Disabled,
    Sdk,
    Uhid,
    Aoa,
}

impl Keyboard {
    /// The word that names this choice on the command line.
    pub open spec fn word(self) -> Seq<char> {
        match self {
            Keyboard::Disabled => "disabled"@,
            Keyboard::Sdk => "sdk"@,
            Keyboard::Uhid => "uhid"@,
            Keyboard::Aoa => "aoa"@,
        }
    }

    pub fn as_word(&self) -> (r: &'static str)
        ensures
            r@ == self.word(),
    {
        match self {
            Keyboard::Disabled => "disabled",
            Keyboard::Sdk => "sdk",
            Keyboard::Uhid => "uhid",
            Keyboard::Aoa => "aoa",
        }
    }
}

/// How mouse events reach the device.
#[derive(Clone, Copy, Debug, PartialEq, Eq, Structural)]
pub enum Mouse {
    Disabled,
    Sdk,
    Uhid,
    Aoa,
}

impl Mouse {
    /// The word that names this choice on the command line.
    pub open spec fn word(self) -> Seq<char> {
        match self {
            Mouse::Disabled => "disabled"@,
            Mouse::Sdk => "sdk"@,
            Mouse::Uhid => "uhid"@,
            Mouse::Aoa => "aoa"@,
        }
    }

    pub fn as_word(&self) -> (r: &'static str)
        ensures
            r@ == self.word(),
    {
        match self {
            Mouse::Disabled => "disabled",
            Mouse::Sdk => "sdk",
            Mouse::Uhid => "uhid",
            Mouse::Aoa => "aoa",
        }
    }
}

/// How gamepad events reach the device.
#[derive(Clone, Copy, Debug, PartialEq, Eq, Structural)]
pub enum Gamepad {
    Disabled,
    Uhid,
    Aoa,
}

impl Gamepad {
    /// The word that names this choice on the command line.
    pub open spec fn word(self) -> Seq<char> {
        match self {
            Gamepad::Disabled => "disabled"@,
            Gamepad::Uhid => "uhid"@,
            Gamepad::Aoa => "aoa"@,
        }
    }

    pub fn as_word(&self) -> (r: &'static str)
        ensures
            r@ == self.word(),
    {
        match self {
            Gamepad::Disabled => "disabled",
            Gamepad::Uhid => "uhid",
            Gamepad::Aoa => "aoa",
        }
    }
}

/// Where the on-screen keyboard of a virtual display is shown.
#[derive(Clone, Copy, Debug, PartialEq, Eq, Structural)]
pub enum DisplayImePolicy {
    Local,
    Fallback,
    Hide,
}

impl DisplayImePolicy {
    /// The word that names this choice on the command line.
    pub open spec fn word(self) -> Seq<char> {
        match self {
            DisplayImePolicy::Local => "local"@,
            DisplayImePolicy::Fallback => "fallback"@,
            DisplayImePolicy::Hide => "hide"@,
        }
    }

    pub fn as_word(&self) -> (r: &'static str)
        ensures
            r@ == self.word(),
    {
        match self {
            DisplayImePolicy::Local => "local",
            DisplayImePolicy::Fallback => "fallback",
            DisplayImePolicy::Hide => "hide",
        }
    }
}

/// Whether the app to start is named by package or by label.
#[derive(Clone, Copy, Debug, PartialEq, Eq, Structural)]
pub enum AppNameType {
    Package,
    Name,
}

impl AppNameType {
    /// The word that names this choice on the command line.
    pub open spec fn word(self) -> Seq<char> {
        match self {
            AppNameType::Package => "package"@,
            AppNameType::Name => "name"@,
        }
    }

    pub fn as_word(&self) -> (r: &'static str)
        ensures
            r@ == self.word(),
    {
        match self {
            AppNameType::Package => "package",
            AppNameType::Name => "name",
        }
    }
}

/// Language of the interface.
#[derive(Clone, Copy, Debug, PartialEq, Eq, Structural)]
pub enum Language {
    En,
    Zh,
}

/// One complete set of settings.
pub struct ConfigItem {
    /// Path of the mirroring program; the one on the search path when absent.
    pub executable: Option<String>,
    pub connect_method: ConnectMethod,
    pub video_source: VideoSource,
    pub camera: Camera,
    /// Longest side of the video, in pixels.
    pub video_size: Option<u32>,
    pub video_playback: bool,
    pub video_codec: VideoCodec,
    pub video_codec_options: String,
    pub orientation_type: OrientationType,
    pub orientation_angle: OrientationAngle,
    pub orientation_lock: bool,
    pub orientation_flip: bool,
    pub audio_source: AudioSource,
    pub audio_dup: bool,
    pub audio_playback: bool,
    pub audio_codec: AudioCodec,
    pub audio_codec_options: String,
    pub video_bit_rate: String,
    pub audio_bit_rate: String,
    pub fps: Option<u32>,
    /// Video buffering, in milliseconds.
    pub video_buffer: Option<u32>,
    /// Audio buffering, in milliseconds.
    pub audio_buffer: Option<u32>,
    /// Whether editing one buffer also sets the other.
    pub buffer_sync: bool,
    pub keyboard: Keyboard,
    pub mouse: Mouse,
    pub gamepad: Gamepad,
    /// File to record to; none when empty.
    pub record: String,
    /// V4L2 sink device; none when empty.
    pub v4l2: String,
    pub virtual_display: bool,
    pub display_height: u32,
    pub display_width: u32,
    pub display_ime_policy: DisplayImePolicy,
    pub destroy_app_on_close: bool,
    /// App to start on the device; none when empty.
    pub start_app: String,
    pub restart_app: bool,
    pub app_name_type: AppNameType,
    /// Seconds after which mirroring stops.
    pub time_limit: Option<u32>,
    pub stay_awake: bool,
    pub disable_window: bool,
    pub borderless: bool,
    pub always_on_top: bool,
    pub fullscreen: bool,
    pub disable_screensaver: bool,
    /// Arguments appended as typed.
    pub additional_args: String,
    pub language: Language,
}

/// The settings with each text field seen as its characters.
pub struct ConfigItemView {
    pub executable: Option<Seq<char>>,
    pub connect_method: ConnectMethod,
    pub video_source: VideoSource,
    pub camera: Camera,
    pub video_size: Option<u32>,
    pub video_playback: bool,
    pub video_codec: VideoCodec,
    pub video_codec_options: Seq<char>,
    pub orientation_type: OrientationType,
    pub orientation_angle: OrientationAngle,
    pub orientation_lock: bool,
    pub orientation_flip: bool,
    pub audio_source: AudioSource,
    pub audio_dup: bool,
    pub audio_playback: bool,
    pub audio_codec: AudioCodec,
    pub audio_codec_options: Seq<char>,
    pub video_bit_rate: Seq<char>,
    pub audio_bit_rate: Seq<char>,
    pub fps: Option<u32>,
    pub video_buffer: Option<u32>,
    pub audio_buffer: Option<u32>,
    pub buffer_sync: bool,
    pub keyboard: Keyboard,
    pub mouse: Mouse,
    pub gamepad: Gamepad,
    pub record: Seq<char>,
    pub v4l2: Seq<char>,
    pub virtual_display: bool,
    pub display_height: u32,
    pub display_width: u32,
    pub display_ime_policy: DisplayImePolicy,
    pub destroy_app_on_close: bool,
    pub start_app: Seq<char>,
    pub restart_app: bool,
    pub app_name_type: AppNameType,
    pub time_limit: Option<u32>,
    pub stay_awake: bool,
    pub disable_window: bool,
    pub borderless: bool,
    pub always_on_top: bool,
    pub fullscreen: bool,
    pub disable_screensaver: bool,
    pub additional_args: Seq<char>,
    pub language: Language,
}

impl View for ConfigItem {
    type V = ConfigItemView;

    open spec fn view(&self) -> ConfigItemView {
        ConfigItemView {
            executable: match self.executable {
                Some(s) => Some(s@),
                None => None,
            },
            connect_method: self.connect_method,
            video_source: self.video_source,
            camera: self.camera,
            video_size: self.video_size,
            video_playback: self.video_playback,
            video_codec: self.video_codec,
            video_codec_options: self.video_codec_options@,
            orientation_type: self.orientation_type,
            orientation_angle: self.orientation_angle,
            orientation_lock: self.orientation_lock,
            orientation_flip: self.orientation_flip,
            audio_source: self.audio_source,
            audio_dup: self.audio_dup,
            audio_playback: self.audio_playback,
            audio_codec: self.audio_codec,
            audio_codec_options: self.audio_codec_options@,
            video_bit_rate: self.video_bit_rate@,
            audio_bit_rate: self.audio_bit_rate@,
            fps: self.fps,
            video_buffer: self.video_buffer,
            audio_buffer: self.audio_buffer,
            buffer_sync: self.buffer_sync,
            keyboard: self.keyboard,
            mouse: self.mouse,
            gamepad: self.gamepad,
            record: self.record@,
            v4l2: self.v4l2@,
            virtual_display: self.virtual_display,
            display_height: self.display_height,
            display_width: self.display_width,
            display_ime_policy: self.display_ime_policy,
            destroy_app_on_close: self.destroy_app_on_close,
            start_app: self.start_app@,
            restart_app: self.restart_app,
            app_name_type: self.app_name_type,
            time_limit: self.time_limit,
            stay_awake: self.stay_awake,
            disable_window: self.disable_window,
            borderless: self.borderless,
            always_on_top: self.always_on_top,
            fullscreen: self.fullscreen,
            disable_screensaver: self.disable_screensaver,
            additional_args: self.additional_args@,
            language: self.language,
        }
    }
}

/// The settings that a reset brings back.
pub open spec fn default_settings() -> ConfigItemView {
    ConfigItemView {
        executable: None,
        connect_method: ConnectMethod::Auto,
        video_source: VideoSource::Display,
        camera: Camera::Back,
        video_size: None,
        video_playback: true,
        video_codec: VideoCodec::H264,
        video_codec_options: Seq::empty(),
        orientation_type: OrientationType::Capture,
        orientation_angle: OrientationAngle::Default,
        orientation_lock: false,
        orientation_flip: false,
        audio_source: AudioSource::Output,
        audio_dup: false,
        audio_playback: true,
        audio_codec: AudioCodec::Opus,
        audio_codec_options: Seq::empty(),
        video_bit_rate: Seq::empty(),
        audio_bit_rate: Seq::empty(),
        fps: None,
        video_buffer: None,
        audio_buffer: None,
        buffer_sync: false,
        keyboard: Keyboard::Sdk,
        mouse: Mouse::Sdk,
        gamepad: Gamepad::Disabled,
        record: Seq::empty(),
        v4l2: Seq::empty(),
        virtual_display: false,
        display_height: 1080,
        display_width: 1920,
        display_ime_policy: DisplayImePolicy::Local,
        destroy_app_on_close: true,
        start_app: Seq::empty(),
        restart_app: false,
        app_name_type: AppNameType::Package,
        time_limit: None,
        stay_awake: false,
        disable_window: false,
        borderless: false,
        always_on_top: false,
        fullscreen: false,
        disable_screensaver: false,
        additional_args: Seq::empty(),
        language: Language::En,
    }
}

impl ConfigItem {
    pub fn set_executable(&mut self, path: String)
        ensures
            final(self)@ == (ConfigItemView { executable: Some(path@), ..old(self)@ }),
    {
        self.executable = Some(path);
    }

    pub fn set_connect_method(&mut self, value: ConnectMethod)
        ensures
            final(self)@ == (ConfigItemView { connect_method: value, ..old(self)@ }),
    {
        self.connect_method = value;
    }

    pub fn set_video_source(&mut self, value: VideoSource)
        ensures
            final(self)@ == (ConfigItemView { video_source: value, ..old(self)@ }),
    {
        self.video_source = value;
    }

    pub fn set_camera(&mut self, value: Camera)
        ensures
            final(self)@ == (ConfigItemView { camera: value, ..old(self)@ }),
    {
        self.camera = value;
    }

    pub fn set_video_size(&mut self, value: Option<u32>)
        ensures
            final(self)@ == (ConfigItemView { video_size: value, ..old(self)@ }),
    {
        self.video_size = value;
    }

    pub fn set_video_playback(&mut self, value: bool)
        ensures
            final(self)@ == (ConfigItemView { video_playback: value, ..old(self)@ }),
    {
        self.video_playback = value;
    }

    pub fn set_video_codec(&mut self, value: VideoCodec)
        ensures
            final(self)@ == (ConfigItemView { video_codec: value, ..old(self)@ }),
    {
        self.video_codec = value;
    }

    pub fn set_video_codec_options(&mut self, value: String)
        ensures
            final(self)@ == (ConfigItemView { video_codec_options: value@, ..old(self)@ }),
    {
        self.video_codec_options = value;
    }

    pub fn set_orientation_type(&mut self, value: OrientationType)
        ensures
            final(self)@ == (ConfigItemView { orientation_type: value, ..old(self)@ }),
    {
        self.orientation_type = value;
    }

    pub fn set_orientation_angle(&mut self, value: OrientationAngle)
        ensures
            final(self)@ == (ConfigItemView { orientation_angle: value, ..old(self)@ }),
    {
        self.orientation_angle = value;
    }

    pub fn set_orientation_lock(&mut self, value: bool)
        ensures
            final(self)@ == (ConfigItemView { orientation_lock: value, ..old(self)@ }),
    {
        self.orientation_lock = value;
    }

    pub fn set_orientation_flip(&mut self, value: bool)
        ensures
            final(self)@ == (ConfigItemView { orientation_flip: value, ..old(self)@ }),
    {
        self.orientation_flip = value;
    }

    pub fn set_audio_source(&mut self, value: AudioSource)
        ensures
            final(self)@ == (ConfigItemView { audio_source: value, ..old(self)@ }),
    {
        self.audio_source = value;
    }

    pub fn set_audio_dup(&mut self, value: bool)
        ensures
            final(self)@ == (ConfigItemView { audio_dup: value, ..old(self)@ }),
    {
        self.audio_dup = value;
    }

    pub fn set_audio_playback(&mut self, value: bool)
        ensures
            final(self)@ == (ConfigItemView { audio_playback: value, ..old(self)@ }),
    {
        self.audio_playback = value;
    }

    pub fn set_audio_codec(&mut self, value: AudioCodec)
        ensures
            final(self)@ == (ConfigItemView { audio_codec: value, ..old(self)@ }),
    {
        self.audio_codec = value;
    }

    pub fn set_audio_codec_options(&mut self, value: String)
        ensures
            final(self)@ == (ConfigItemView { audio_codec_options: value@, ..old(self)@ }),
    {
        self.audio_codec_options = value;
    }

    pub fn set_video_bit_rate(&mut self, value: String)
        ensures
            final(self)@ == (ConfigItemView { video_bit_rate: value@, ..old(self)@ }),
    {
        self.video_bit_rate = value;
    }

    pub fn set_audio_bit_rate(&mut self, value: String)
        ensures
            final(self)@ == (ConfigItemView { audio_bit_rate: value@, ..old(self)@ }),
    {
        self.audio_bit_rate = value;
    }

    pub fn set_fps(&mut self, value: Option<u32>)
        ensures
            final(self)@ == (ConfigItemView { fps: value, ..old(self)@ }),
    {
        self.fps = value;
    }

    pub fn set_video_buffer(&mut self, value: Option<u32>)
        ensures
            final(self)@ == (ConfigItemView { video_buffer: value, ..old(self)@ }),
    {
        self.video_buffer = value;
    }

    pub fn set_audio_buffer(&mut self, value: Option<u32>)
        ensures
            final(self)@ == (ConfigItemView { audio_buffer: value, ..old(self)@ }),
    {
        self.audio_buffer = value;
    }

    pub fn set_buffer_sync(&mut self, value: bool)
        ensures
            final(self)@ == (ConfigItemView { buffer_sync: value, ..old(self)@ }),
    {
        self.buffer_sync = value;
    }

    pub fn set_keyboard(&mut self, value: Keyboard)
        ensures
            final(self)@ == (ConfigItemView { keyboard: value, ..old(self)@ }),
    {
        self.keyboard = value;
    }

    pub fn set_mouse(&mut self, value: Mouse)
        ensures
            final(self)@ == (ConfigItemView { mouse: value, ..old(self)@ }),
    {
        self.mouse = value;
    }

    pub fn set_gamepad(&mut self, value: Gamepad)
        ensures
            final(self)@ == (ConfigItemView { gamepad: value, ..old(self)@ }),
    {
        self.gamepad = value;
    }

    pub fn set_record(&mut self, value: String)
        ensures
            final(self)@ == (ConfigItemView { record: value@, ..old(self)@ }),
    {
        self.record = value;
    }

    pub fn set_v4l2(&mut self, value: String)
        ensures
            final(self)@ == (ConfigItemView { v4l2: value@, ..old(self)@ }),
    {
        self.v4l2 = value;
    }

    pub fn set_virtual_display(&mut self, value: bool)
        ensures
            final(self)@ == (ConfigItemView { virtual_display: value, ..old(self)@ }),
    {
        self.virtual_display = value;
    }

    pub fn set_display_height(&mut self, value: u32)
        ensures
            final(self)@ == (ConfigItemView { display_height: value, ..old(self)@ }),
    {
        self.display_height = value;
    }

    pub fn set_display_width(&mut self, value: u32)
        ensures
            final(self)@ == (ConfigItemView { display_width: value, ..old(self)@ }),
    {
        self.display_width = value;
    }

    pub fn set_display_ime_policy(&mut self, value: DisplayImePolicy)
        ensures
            final(self)@ == (ConfigItemView { display_ime_policy: value, ..old(self)@ }),
    {
        self.display_ime_policy = value;
    }

    pub fn set_destroy_app_on_close(&mut self, value: bool)
        ensures
            final(self)@ == (ConfigItemView { destroy_app_on_close: value, ..old(self)@ }),
    {
        self.destroy_app_on_close = value;
    }

    pub fn set_start_app(&mut self, value: String)
        ensures
            final(self)@ == (ConfigItemView { start_app: value@, ..old(self)@ }),
    {
        self.start_app = value;
    }

    pub fn set_restart_app(&mut self, value: bool)
        ensures
            final(self)@ == (ConfigItemView { restart_app: value, ..old(self)@ }),
    {
        self.restart_app = value;
    }

    pub fn set_app_name_type(&mut self, value: AppNameType)
        ensures
            final(self)@ == (ConfigItemView { app_name_type: value, ..old(self)@ }),
    {
        self.app_name_type = value;
    }

    pub fn set_time_limit(&mut self, value: Option<u32>)
        ensures
            final(self)@ == (ConfigItemView { time_limit: value, ..old(self)@ }),
    {
        self.time_limit = value;
    }

    pub fn set_stay_awake(&mut self, value: bool)
        ensures
            final(self)@ == (ConfigItemView { stay_awake: value, ..old(self)@ }),
    {
        self.stay_awake = value;
    }

    pub fn set_disable_window(&mut self, value: bool)
        ensures
            final(self)@ == (ConfigItemView { disable_window: value, ..old(self)@ }),
    {
        self.disable_window = value;
    }

    pub fn set_borderless(&mut self, value: bool)
        ensures
            final(self)@ == (ConfigItemView { borderless: value, ..old(self)@ }),
    {
        self.borderless = value;
    }

    pub fn set_always_on_top(&mut self, value: bool)
        ensures
            final(self)@ == (ConfigItemView { always_on_top: value, ..old(self)@ }),
    {
        self.always_on_top = value;
    }

    pub fn set_fullscreen(&mut self, value: bool)
        ensures
            final(self)@ == (ConfigItemView { fullscreen: value, ..old(self)@ }),
    {
        self.fullscreen = value;
    }

    pub fn set_disable_screensaver(&mut self, value: bool)
        ensures
            final(self)@ == (ConfigItemView { disable_screensaver: value, ..old(self)@ }),
    {
        self.disable_screensaver = value;
    }

    pub fn set_additional_args(&mut self, value: String)
        ensures
            final(self)@ == (ConfigItemView { additional_args: value@, ..old(self)@ }),
    {
        self.additional_args = value;
    }

    pub fn set_language(&mut self, value: Language)
        ensures
            final(self)@ == (ConfigItemView { language: value, ..old(self)@ }),
    {
        self.language = value;
    }

    /// An independent copy of these settings.
    pub fn snapshot(&self) -> (r: ConfigItem)
        ensures
            r@ == self@,
    {
        ConfigItem {
            executable: match &self.executable {
                Some(s) => Some(s.clone()),
                None => None,
            },
            connect_method: self.connect_method,
            video_source: self.video_source,
            camera: self.camera,
            video_size: self.video_size,
            video_playback: self.video_playback,
            video_codec: self.video_codec,
            video_codec_options: self.video_codec_options.clone(),
            orientation_type: self.orientation_type,
            orientation_angle: self.orientation_angle,
            orientation_lock: self.orientation_lock,
            orientation_flip: self.orientation_flip,
            audio_source: self.audio_source,
            audio_dup: self.audio_dup,
            audio_playback: self.audio_playback,
            audio_codec: self.audio_codec,
            audio_codec_options: self.audio_codec_options.clone(),
            video_bit_rate: self.video_bit_rate.clone(),
            audio_bit_rate: self.audio_bit_rate.clone(),
            fps: self.fps,
            video_buffer: self.video_buffer,
            audio_buffer: self.audio_buffer,
            buffer_sync: self.buffer_sync,
            keyboard: self.keyboard,
            mouse: self.mouse,
            gamepad: self.gamepad,
            record: self.record.clone(),
            v4l2: self.v4l2.clone(),
            virtual_display: self.virtual_display,
            display_height: self.display_height,
            display_width: self.display_width,
            display_ime_policy: self.display_ime_policy,
            destroy_app_on_close: self.destroy_app_on_close,
            start_app: self.start_app.clone(),
            restart_app: self.restart_app,
            app_name_type: self.app_name_type,
            time_limit: self.time_limit,
            stay_awake: self.stay_awake,
            disable_window: self.disable_window,
            borderless: self.borderless,
            always_on_top: self.always_on_top,
            fullscreen: self.fullscreen,
            disable_screensaver: self.disable_screensaver,
            additional_args: self.additional_args.clone(),
            language: self.language,
        }
    }
}

impl Default for ConfigItem {
    fn default() -> (r: ConfigItem)
        ensures
            r@ == default_settings(),
    {
        ConfigItem {
            executable: None,
            connect_method: ConnectMethod::Auto,
            video_source: VideoSource::Display,
            camera: Camera::Back,
            video_size: None,
            video_playback: true,
            video_codec: VideoCodec::H264,
            video_codec_options: String::new(),
            orientation_type: OrientationType::Capture,
            orientation_angle: OrientationAngle::Default,
            orientation_lock: false,
            orientation_flip: false,
            audio_source: AudioSource::Output,
            audio_dup: false,
            audio_playback: true,
            audio_codec: AudioCodec::Opus,
            audio_codec_options: String::new(),
            video_bit_rate: String::new(),
            audio_bit_rate: String::new(),
            fps: None,
            video_buffer: None,
            audio_buffer: None,
            buffer_sync: false,
            keyboard: Keyboard::Sdk,
            mouse: Mouse::Sdk,
            gamepad: Gamepad::Disabled,
            record: String::new(),
            v4l2: String::new(),
            virtual_display: false,
            display_height: 1080,
            display_width: 1920,
            display_ime_policy: DisplayImePolicy::Local,
            destroy_app_on_close: true,
            start_app: String::new(),
            restart_app: false,
            app_name_type: AppNameType::Package,
            time_limit: None,
            stay_awake: false,
            disable_window: false,
            borderless: false,
            always_on_top: false,
            fullscreen: false,
            disable_screensaver: false,
            additional_args: String::new(),
            language: Language::En,
        }
    }
}

/// The settings being edited, and the presets saved beside them.
pub struct Config {
    /// The settings that the form shows and the command line is built from.
    pub default: ConfigItem,
    pub saved: Presets,
}

pub struct ConfigView {
    pub default: ConfigItemView,
    pub saved: Map<Seq<char>, ConfigItemView>,
}

impl View for Config {
    type V = ConfigView;

    open spec fn view(&self) -> ConfigView {
        ConfigView { default: self.default@, saved: self.saved@ }
    }
}

impl Config {
    pub open spec fn wf(&self) -> bool {
        self.saved.wf()
    }

    /// Default settings and no presets.
    pub fn new() -> (r: Config)
        ensures
            r.wf(),
            r@.default == default_settings(),
            r@.saved == Map::<Seq<char>, ConfigItemView>::empty(),
    {
        Config { default: ConfigItem::default(), saved: Presets::new() }
    }
}

} // verus!
