//! The event dispatcher: each event of the settings form edits the state, and
//! the dispatcher says what the front-end has to do next.
use crate::args::{args_line, build_args};
use crate::config::{
    default_settings, AppNameType, AudioCodec, AudioSource, Camera, Config, ConfigItem,
    ConfigItemView, ConfigView, ConnectMethod, DisplayImePolicy, Gamepad, Keyboard, Language,
    Mouse, OrientationAngle, OrientationType, VideoCodec, VideoSource,
};
use crate::config_status::{chosen_valid, select_config_valid, ConfigStatus};
use crate::text::{
    blank, is_blank, number_or_zero, optional_number, parse_u32, parsed_u32, trim, trimmed,
    typed_number, typed_optional,
};
use vstd::prelude::*;

verus! {

/// An event of the settings form.
#[derive(Debug, Clone)]
pub enum Message {
    ExecutablePathChanged(String),
    ConnectMethodChanged(ConnectMethod),
    VideoSourceChanged(VideoSource),
    CameraChanged(Camera),
    VideoSizeChanged(String),
    VideoPlaybackChanged(bool),
    VideoCodecChanged(VideoCodec),
    VideoCodecOptionsChanged(String),
    OrientationTypeChanged(OrientationType),
    OrientationAngleChanged(OrientationAngle),
    OrientationLockChanged(bool),
    OrientationFlipChanged(bool),
    AudioSourceChanged(AudioSource),
    AudioDupChanged(bool),
    AudioPlaybackChanged(bool),
    AudioCodecChanged(AudioCodec),
    AudioCodecOptionsChanged(String),
    VideoBitRateChanged(String),
    AudioBitRateChanged(String),
    FpsChanged(String),
    VideoBufferChanged(String),
    AudioBufferChanged(String),
    BufferSyncChanged(bool),
    KeyboardChanged(Keyboard),
    MouseChanged(Mouse),
    GamepadChanged(Gamepad),
    RecordChanged(String),
    V4l2Changed(String),
    VirtualDisplayChanged(bool),
    DisplayHeightChanged(String),
    DisplayWidthChanged(String),
    DisplayImePolicyChanged(DisplayImePolicy),
    DestroyAppOnCloseChanged(bool),
    StartAppChanged(String),
    RestartAppChanged(bool),
    AppNameTypeChanged(AppNameType),
    TimeLimitChanged(String),
    StayAwakeChanged(bool),
    DisableWindowChanged(bool),
    BorderlessChanged(bool),
    AlwaysOnTopChanged(bool),
    FullscreenChanged(bool),
    DisableScreensaverChanged(bool),
    AdditionalArgsChanged(String),
    LanguageChanged(Language),
    /// A preset was picked in the list.
    ConfigSelectChanged(String),
    /// Save the current settings under the picked name; only a picked name
    /// that is saved already counts as picked.
    ConfigSelectSave,
    /// Delete the picked preset, if the picked name is saved.
    ConfigSelectDelete,
    /// Make the picked preset the current settings.
    ConfigSelectLoad,
    /// The name for a new preset was edited.
    ConfigInputChanged(String),
    /// Save the current settings under the typed name.
    ConfigSave,
    /// The command line was edited by hand.
    ArgsChanged(String),
    /// Bring back the default settings, keeping the language.
    Reset,
    /// Launch the mirroring program with the command line.
    Run,
}

/// What the front-end has to do after an event.
#[derive(Debug)]
pub enum Effect {
    Nothing,
    /// Write the settings and presets to disk.
    Persist,
    /// Start the mirroring program with this command line, then close.
    Launch(String),
}

pub enum EffectView {
    Nothing,
    Persist,
    Launch(Seq<char>),
}

impl View for Effect {
    type V = EffectView;

    open spec fn view(&self) -> EffectView {
        match self {
            Effect::Nothing => EffectView::Nothing,
            Effect::Persist => EffectView::Persist,
            Effect::Launch(a) => EffectView::Launch(a@),
        }
    }
}

/// The state of the settings window.
pub struct WinMain {
    /// The command line shown to the user, and launched on `Run`.
    pub args: String,
    pub config_status: ConfigStatus,
    pub config: Config,
}

pub struct WinMainView {
    pub args: Seq<char>,
    pub chosen: Seq<char>,
    pub input: Seq<char>,
    pub config: ConfigView,
}

impl View for WinMain {
    type V = WinMainView;

    open spec fn view(&self) -> WinMainView {
        WinMainView {
            args: self.args@,
            chosen: self.config_status.chosen@,
            input: self.config_status.input@,
            config: self.config@,
        }
    }
}

/// Which part of the form an event belongs to.
#[derive(Clone, Copy, Debug, PartialEq, Eq, Structural)]
pub enum Section {
    Video,
    Audio,
    Device,
    Window,
    Preset,
}

impl Message {
    pub open spec fn section_of(self) -> Section {
        match self {
            Message::ExecutablePathChanged(_) | Message::ConnectMethodChanged(_) | Message::VideoSourceChanged(_) | Message::CameraChanged(_) | Message::VideoSizeChanged(_) | Message::VideoPlaybackChanged(_) | Message::VideoCodecChanged(_) | Message::VideoCodecOptionsChanged(_) | Message::OrientationTypeChanged(_) | Message::OrientationAngleChanged(_) | Message::OrientationLockChanged(_) | Message::OrientationFlipChanged(_) => Section::Video,
            Message::AudioSourceChanged(_) | Message::AudioDupChanged(_) | Message::AudioPlaybackChanged(_) | Message::AudioCodecChanged(_) | Message::AudioCodecOptionsChanged(_) | Message::VideoBitRateChanged(_) | Message::AudioBitRateChanged(_) | Message::FpsChanged(_) | Message::VideoBufferChanged(_) | Message::AudioBufferChanged(_) | Message::BufferSyncChanged(_) => Section::Audio,
            Message::KeyboardChanged(_) | Message::MouseChanged(_) | Message::GamepadChanged(_) | Message::RecordChanged(_) | Message::V4l2Changed(_) | Message::VirtualDisplayChanged(_) | Message::DisplayHeightChanged(_) | Message::DisplayWidthChanged(_) | Message::DisplayImePolicyChanged(_) | Message::DestroyAppOnCloseChanged(_) | Message::StartAppChanged(_) | Message::RestartAppChanged(_) | Message::AppNameTypeChanged(_) => Section::Device,
            Message::TimeLimitChanged(_) | Message::StayAwakeChanged(_) | Message::DisableWindowChanged(_) | Message::BorderlessChanged(_) | Message::AlwaysOnTopChanged(_) | Message::FullscreenChanged(_) | Message::DisableScreensaverChanged(_) | Message::AdditionalArgsChanged(_) | Message::LanguageChanged(_) => Section::Window,
            _ => Section::Preset,
        }
    }

    pub fn section(&self) -> (r: Section)
        ensures
            r == self.section_of(),
    {
        match self {
            Message::ExecutablePathChanged(_) | Message::ConnectMethodChanged(_) | Message::VideoSourceChanged(_) | Message::CameraChanged(_) | Message::VideoSizeChanged(_) | Message::VideoPlaybackChanged(_) | Message::VideoCodecChanged(_) | Message::VideoCodecOptionsChanged(_) | Message::OrientationTypeChanged(_) | Message::OrientationAngleChanged(_) | Message::OrientationLockChanged(_) | Message::OrientationFlipChanged(_) => Section::Video,
            Message::AudioSourceChanged(_) | Message::AudioDupChanged(_) | Message::AudioPlaybackChanged(_) | Message::AudioCodecChanged(_) | Message::AudioCodecOptionsChanged(_) | Message::VideoBitRateChanged(_) | Message::AudioBitRateChanged(_) | Message::FpsChanged(_) | Message::VideoBufferChanged(_) | Message::AudioBufferChanged(_) | Message::BufferSyncChanged(_) => Section::Audio,
            Message::KeyboardChanged(_) | Message::MouseChanged(_) | Message::GamepadChanged(_) | Message::RecordChanged(_) | Message::V4l2Changed(_) | Message::VirtualDisplayChanged(_) | Message::DisplayHeightChanged(_) | Message::DisplayWidthChanged(_) | Message::DisplayImePolicyChanged(_) | Message::DestroyAppOnCloseChanged(_) | Message::StartAppChanged(_) | Message::RestartAppChanged(_) | Message::AppNameTypeChanged(_) => Section::Device,
            Message::TimeLimitChanged(_) | Message::StayAwakeChanged(_) | Message::DisableWindowChanged(_) | Message::BorderlessChanged(_) | Message::AlwaysOnTopChanged(_) | Message::FullscreenChanged(_) | Message::DisableScreensaverChanged(_) | Message::AdditionalArgsChanged(_) | Message::LanguageChanged(_) => Section::Window,
            _ => Section::Preset,
        }
    }
}

/// `e` is what the event `m` of the video part of the form makes of the settings `d`.
#[verifier::opaque]
pub open spec fn video_edit(d: ConfigItemView, m: Message, e: ConfigItemView) -> bool {
    &&& (m is ExecutablePathChanged ==> e == (ConfigItemView { executable: Some(m->ExecutablePathChanged_0@), ..d }))
    &&& (m is ConnectMethodChanged ==> e == (ConfigItemView { connect_method: m->ConnectMethodChanged_0, ..d }))
    &&& (m is VideoSourceChanged ==> e == (ConfigItemView { video_source: m->VideoSourceChanged_0, ..d }))
    &&& (m is CameraChanged ==> e == (ConfigItemView { camera: m->CameraChanged_0, ..d }))
    &&& (m is VideoSizeChanged ==> e == (ConfigItemView { video_size: typed_optional(m->VideoSizeChanged_0@, d.video_size), ..d }))
    &&& (m is VideoPlaybackChanged ==> e == (ConfigItemView { video_playback: m->VideoPlaybackChanged_0, ..d }))
    &&& (m is VideoCodecChanged ==> e == (ConfigItemView { video_codec: m->VideoCodecChanged_0, ..d }))
    &&& (m is VideoCodecOptionsChanged ==> e == (ConfigItemView { video_codec_options: m->VideoCodecOptionsChanged_0@, ..d }))
    &&& (m is OrientationTypeChanged ==> e == (ConfigItemView { orientation_type: m->OrientationTypeChanged_0, ..d }))
    &&& (m is OrientationAngleChanged ==> e == (ConfigItemView { orientation_angle: m->OrientationAngleChanged_0, ..d }))
    &&& (m is OrientationLockChanged ==> e == (ConfigItemView { orientation_lock: m->OrientationLockChanged_0, ..d }))
    &&& (m is OrientationFlipChanged ==> e == (ConfigItemView { orientation_flip: m->OrientationFlipChanged_0, ..d }))
}

/// `e` is what the event `m` of the audio part of the form makes of the settings `d`.
#[verifier::opaque]
pub open spec fn audio_edit(d: ConfigItemView, m: Message, e: ConfigItemView) -> bool {
    &&& (m is AudioSourceChanged ==> e == (ConfigItemView { audio_source: m->AudioSourceChanged_0, ..d }))
    &&& (m is AudioDupChanged ==> e == (ConfigItemView { audio_dup: m->AudioDupChanged_0, ..d }))
    &&& (m is AudioPlaybackChanged ==> e == (ConfigItemView { audio_playback: m->AudioPlaybackChanged_0, ..d }))
    &&& (m is AudioCodecChanged ==> e == (ConfigItemView { audio_codec: m->AudioCodecChanged_0, ..d }))
    &&& (m is AudioCodecOptionsChanged ==> e == (ConfigItemView { audio_codec_options: m->AudioCodecOptionsChanged_0@, ..d }))
    &&& (m is VideoBitRateChanged ==> e == (ConfigItemView { video_bit_rate: trimmed(m->VideoBitRateChanged_0@), ..d }))
    &&& (m is AudioBitRateChanged ==> e == (ConfigItemView { audio_bit_rate: trimmed(m->AudioBitRateChanged_0@), ..d }))
    &&& (m is FpsChanged ==> e == (ConfigItemView { fps: typed_optional(m->FpsChanged_0@, d.fps), ..d }))
    &&& (m is VideoBufferChanged ==> e == (ConfigItemView { video_buffer: typed_optional(m->VideoBufferChanged_0@, d.video_buffer), audio_buffer: synced_buffer(m->VideoBufferChanged_0@, d.video_buffer, d.audio_buffer, d.buffer_sync), ..d }))
    &&& (m is AudioBufferChanged ==> e == (ConfigItemView { audio_buffer: typed_optional(m->AudioBufferChanged_0@, d.audio_buffer), video_buffer: synced_buffer(m->AudioBufferChanged_0@, d.audio_buffer, d.video_buffer, d.buffer_sync), ..d }))
    &&& (m is BufferSyncChanged ==> e == (ConfigItemView { buffer_sync: m->BufferSyncChanged_0, ..d }))
}

/// `e` is what the event `m` of the device part of the form makes of the settings `d`.
#[verifier::opaque]
pub open spec fn device_edit(d: ConfigItemView, m: Message, e: ConfigItemView) -> bool {
    &&& (m is KeyboardChanged ==> e == (ConfigItemView { keyboard: m->KeyboardChanged_0, ..d }))
    &&& (m is MouseChanged ==> e == (ConfigItemView { mouse: m->MouseChanged_0, ..d }))
    &&& (m is GamepadChanged ==> e == (ConfigItemView { gamepad: m->GamepadChanged_0, ..d }))
    &&& (m is RecordChanged ==> e == (ConfigItemView { record: m->RecordChanged_0@, ..d }))
    &&& (m is V4l2Changed ==> e == (ConfigItemView { v4l2: m->V4l2Changed_0@, ..d }))
    &&& (m is VirtualDisplayChanged ==> e == (ConfigItemView { virtual_display: m->VirtualDisplayChanged_0, ..d }))
    &&& (m is DisplayHeightChanged ==> e == (ConfigItemView { display_height: typed_number(m->DisplayHeightChanged_0@, d.display_height), ..d }))
    &&& (m is DisplayWidthChanged ==> e == (ConfigItemView { display_width: typed_number(m->DisplayWidthChanged_0@, d.display_width), ..d }))
    &&& (m is DisplayImePolicyChanged ==> e == (ConfigItemView { display_ime_policy: m->DisplayImePolicyChanged_0, ..d }))
    &&& (m is DestroyAppOnCloseChanged ==> e == (ConfigItemView { destroy_app_on_close: m->DestroyAppOnCloseChanged_0, ..d }))
    &&& (m is StartAppChanged ==> e == (ConfigItemView { start_app: m->StartAppChanged_0@, ..d }))
    &&& (m is RestartAppChanged ==> e == (ConfigItemView { restart_app: m->RestartAppChanged_0, ..d }))
    &&& (m is AppNameTypeChanged ==> e == (ConfigItemView { app_name_type: m->AppNameTypeChanged_0, ..d }))
}

/// `e` is what the event `m` of the window part of the form makes of the settings `d`.
#[verifier::opaque]
pub open spec fn window_edit(d: ConfigItemView, m: Message, e: ConfigItemView) -> bool {
    &&& (m is TimeLimitChanged ==> e == (ConfigItemView { time_limit: typed_optional(m->TimeLimitChanged_0@, d.time_limit), ..d }))
    &&& (m is StayAwakeChanged ==> e == (ConfigItemView { stay_awake: m->StayAwakeChanged_0, ..d }))
    &&& (m is DisableWindowChanged ==> e == (ConfigItemView { disable_window: m->DisableWindowChanged_0, ..d }))
    &&& (m is BorderlessChanged ==> e == (ConfigItemView { borderless: m->BorderlessChanged_0, ..d }))
    &&& (m is AlwaysOnTopChanged ==> e == (ConfigItemView { always_on_top: m->AlwaysOnTopChanged_0, ..d }))
    &&& (m is FullscreenChanged ==> e == (ConfigItemView { fullscreen: m->FullscreenChanged_0, ..d }))
    &&& (m is DisableScreensaverChanged ==> e == (ConfigItemView { disable_screensaver: m->DisableScreensaverChanged_0, ..d }))
    &&& (m is AdditionalArgsChanged ==> e == (ConfigItemView { additional_args: m->AdditionalArgsChanged_0@, ..d }))
    &&& (m is LanguageChanged ==> e == (ConfigItemView { language: m->LanguageChanged_0, ..d }))
}

/// `e` is what the settings event `m` makes of the settings `d`.
pub open spec fn setting_edit(d: ConfigItemView, m: Message, e: ConfigItemView) -> bool {
    match m.section_of() {
        Section::Video => video_edit(d, m, e),
        Section::Audio => audio_edit(d, m, e),
        Section::Device => device_edit(d, m, e),
        Section::Window => window_edit(d, m, e),
        Section::Preset => e == d,
    }
}

/// `s` with the settings `d` in force and the command line built from them.
pub open spec fn edited(s: WinMainView, d: ConfigItemView) -> WinMainView {
    WinMainView { args: args_line(d), config: ConfigView { default: d, ..s.config }, ..s }
}

/// `s` with the presets `p`.
pub open spec fn with_presets(s: WinMainView, p: Map<Seq<char>, ConfigItemView>) -> WinMainView {
    WinMainView { config: ConfigView { saved: p, ..s.config }, ..s }
}

/// A buffer field follows the other one when the two are kept in step and the
/// typed text was taken.
pub open spec fn synced_buffer(
    input: Seq<char>,
    own: Option<u32>,
    other: Option<u32>,
    sync: bool,
) -> Option<u32> {
    if sync && (blank(input) || parsed_u32(input) is Some) {
        typed_optional(input, own)
    } else {
        other
    }
}

/// The state after the event `m` of the preset part of the form in state `s`.
pub open spec fn preset_state(s: WinMainView, m: Message) -> WinMainView {
    let d = s.config.default;
    match m {
        Message::ConfigSelectChanged(x) => WinMainView { chosen: x@, ..s },
        Message::ConfigSelectSave => if chosen_valid(s.chosen, s.config.saved) {
            with_presets(s, s.config.saved.insert(trimmed(s.chosen), d))
        } else {
            s
        },
        Message::ConfigSelectDelete => if chosen_valid(s.chosen, s.config.saved) {
            with_presets(s, s.config.saved.remove(s.chosen))
        } else {
            s
        },
        Message::ConfigSelectLoad => if chosen_valid(s.chosen, s.config.saved) {
            edited(s, s.config.saved[s.chosen])
        } else {
            s
        },
        Message::ConfigInputChanged(x) => WinMainView { input: x@, ..s },
        Message::ConfigSave => if blank(s.input) {
            s
        } else {
            with_presets(s, s.config.saved.insert(trimmed(s.input), d))
        },
        Message::ArgsChanged(x) => WinMainView { args: x@, ..s },
        Message::Reset => edited(s, ConfigItemView { language: d.language, ..default_settings() }),
        Message::Run => s,
        _ => s,
    }
}

/// `t` is the state after the event `m` in state `s`. A settings event edits
/// the current settings and rebuilds the command line from them.
pub open spec fn stepped(s: WinMainView, m: Message, t: WinMainView) -> bool {
    if m.section_of() == Section::Preset {
        t == preset_state(s, m)
    } else {
        &&& setting_edit(s.config.default, m, t.config.default)
        &&& t == edited(s, t.config.default)
    }
}

/// What the front-end has to do after the event `m` in state `s`.
pub open spec fn next_effect(s: WinMainView, m: Message) -> EffectView {
    match m {
        Message::ConfigSelectSave => if chosen_valid(s.chosen, s.config.saved) {
            EffectView::Persist
        } else {
            EffectView::Nothing
        },
        Message::ConfigSelectDelete => if chosen_valid(s.chosen, s.config.saved) {
            EffectView::Persist
        } else {
            EffectView::Nothing
        },
        Message::ConfigSave => if blank(s.input) {
            EffectView::Nothing
        } else {
            EffectView::Persist
        },
        Message::Reset => EffectView::Persist,
        Message::Run => EffectView::Launch(s.args),
        _ => EffectView::Nothing,
    }
}

/// Window title in the language `l`.
pub open spec fn title_text(l: Language) -> Seq<char> {
    match l {
        Language::En => "Scrcpy Config"@,
        Language::Zh => "Scrcpy 配置"@,
    }
}

fn on_executable_path_changed(item: &mut ConfigItem, message: Message)
    requires
        message is ExecutablePathChanged,
    ensures
        video_edit(old(item)@, message, final(item)@),
{
    proof {
        reveal(video_edit);
    }
    match message {
        Message::ExecutablePathChanged(x) => {
            item.set_executable(x);
        },
        _ => {},
    }
}

fn on_connect_method_changed(item: &mut ConfigItem, message: Message)
    requires
        message is ConnectMethodChanged,
    ensures
        video_edit(old(item)@, message, final(item)@),
{
    proof {
        reveal(video_edit);
    }
    match message {
        Message::ConnectMethodChanged(x) => {
            item.set_connect_method(x);
        },
        _ => {},
    }
}

fn on_video_source_changed(item: &mut ConfigItem, message: Message)
    requires
        message is VideoSourceChanged,
    ensures
        video_edit(old(item)@, message, final(item)@),
{
    proof {
        reveal(video_edit);
    }
    match message {
        Message::VideoSourceChanged(x) => {
            item.set_video_source(x);
        },
        _ => {},
    }
}

fn on_camera_changed(item: &mut ConfigItem, message: Message)
    requires
        message is CameraChanged,
    ensures
        video_edit(old(item)@, message, final(item)@),
{
    proof {
        reveal(video_edit);
    }
    match message {
        Message::CameraChanged(x) => {
            item.set_camera(x);
        },
        _ => {},
    }
}

fn on_video_size_changed(item: &mut ConfigItem, message: Message)
    requires
        message is VideoSizeChanged,
    ensures
        video_edit(old(item)@, message, final(item)@),
{
    proof {
        reveal(video_edit);
    }
    match message {
        Message::VideoSizeChanged(x) => {
            item.set_video_size(optional_number(x.as_str(), item.video_size));
        },
        _ => {},
    }
}

fn on_video_playback_changed(item: &mut ConfigItem, message: Message)
    requires
        message is VideoPlaybackChanged,
    ensures
        video_edit(old(item)@, message, final(item)@),
{
    proof {
        reveal(video_edit);
    }
    match message {
        Message::VideoPlaybackChanged(x) => {
            item.set_video_playback(x);
        },
        _ => {},
    }
}

fn on_video_codec_changed(item: &mut ConfigItem, message: Message)
    requires
        message is VideoCodecChanged,
    ensures
        video_edit(old(item)@, message, final(item)@),
{
    proof {
        reveal(video_edit);
    }
    match message {
        Message::VideoCodecChanged(x) => {
            item.set_video_codec(x);
        },
        _ => {},
    }
}

fn on_video_codec_options_changed(item: &mut ConfigItem, message: Message)
    requires
        message is VideoCodecOptionsChanged,
    ensures
        video_edit(old(item)@, message, final(item)@),
{
    proof {
        reveal(video_edit);
    }
    match message {
        Message::VideoCodecOptionsChanged(x) => {
            item.set_video_codec_options(x);
        },
        _ => {},
    }
}

fn on_orientation_type_changed(item: &mut ConfigItem, message: Message)
    requires
        message is OrientationTypeChanged,
    ensures
        video_edit(old(item)@, message, final(item)@),
{
    proof {
        reveal(video_edit);
    }
    match message {
        Message::OrientationTypeChanged(x) => {
            item.set_orientation_type(x);
        },
        _ => {},
    }
}

fn on_orientation_angle_changed(item: &mut ConfigItem, message: Message)
    requires
        message is OrientationAngleChanged,
    ensures
        video_edit(old(item)@, message, final(item)@),
{
    proof {
        reveal(video_edit);
    }
    match message {
        Message::OrientationAngleChanged(x) => {
            item.set_orientation_angle(x);
        },
        _ => {},
    }
}

fn on_orientation_lock_changed(item: &mut ConfigItem, message: Message)
    requires
        message is OrientationLockChanged,
    ensures
        video_edit(old(item)@, message, final(item)@),
{
    proof {
        reveal(video_edit);
    }
    match message {
        Message::OrientationLockChanged(x) => {
            item.set_orientation_lock(x);
        },
        _ => {},
    }
}

fn on_orientation_flip_changed(item: &mut ConfigItem, message: Message)
    requires
        message is OrientationFlipChanged,
    ensures
        video_edit(old(item)@, message, final(item)@),
{
    proof {
        reveal(video_edit);
    }
    match message {
        Message::OrientationFlipChanged(x) => {
            item.set_orientation_flip(x);
        },
        _ => {},
    }
}

fn apply_video(item: &mut ConfigItem, message: Message)
    ensures
        video_edit(old(item)@, message, final(item)@),
{
    match message {
        Message::ExecutablePathChanged(..) => on_executable_path_changed(item, message),
        Message::ConnectMethodChanged(..) => on_connect_method_changed(item, message),
        Message::VideoSourceChanged(..) => on_video_source_changed(item, message),
        Message::CameraChanged(..) => on_camera_changed(item, message),
        Message::VideoSizeChanged(..) => on_video_size_changed(item, message),
        Message::VideoPlaybackChanged(..) => on_video_playback_changed(item, message),
        Message::VideoCodecChanged(..) => on_video_codec_changed(item, message),
        Message::VideoCodecOptionsChanged(..) => on_video_codec_options_changed(item, message),
        Message::OrientationTypeChanged(..) => on_orientation_type_changed(item, message),
        Message::OrientationAngleChanged(..) => on_orientation_angle_changed(item, message),
        Message::OrientationLockChanged(..) => on_orientation_lock_changed(item, message),
        Message::OrientationFlipChanged(..) => on_orientation_flip_changed(item, message),
        _ => {
            assert(video_edit(old(item)@, message, item@)) by {
                reveal(video_edit);
            }
        },
    }
}

fn on_audio_source_changed(item: &mut ConfigItem, message: Message)
    requires
        message is AudioSourceChanged,
    ensures
        audio_edit(old(item)@, message, final(item)@),
{
    proof {
        reveal(audio_edit);
    }
    match message {
        Message::AudioSourceChanged(x) => {
            item.set_audio_source(x);
        },
        _ => {},
    }
}

fn on_audio_dup_changed(item: &mut ConfigItem, message: Message)
    requires
        message is AudioDupChanged,
    ensures
        audio_edit(old(item)@, message, final(item)@),
{
    proof {
        reveal(audio_edit);
    }
    match message {
        Message::AudioDupChanged(x) => {
            item.set_audio_dup(x);
        },
        _ => {},
    }
}

fn on_audio_playback_changed(item: &mut ConfigItem, message: Message)
    requires
        message is AudioPlaybackChanged,
    ensures
        audio_edit(old(item)@, message, final(item)@),
{
    proof {
        reveal(audio_edit);
    }
    match message {
        Message::AudioPlaybackChanged(x) => {
            item.set_audio_playback(x);
        },
        _ => {},
    }
}

fn on_audio_codec_changed(item: &mut ConfigItem, message: Message)
    requires
        message is AudioCodecChanged,
    ensures
        audio_edit(old(item)@, message, final(item)@),
{
    proof {
        reveal(audio_edit);
    }
    match message {
        Message::AudioCodecChanged(x) => {
            item.set_audio_codec(x);
        },
        _ => {},
    }
}

fn on_audio_codec_options_changed(item: &mut ConfigItem, message: Message)
    requires
        message is AudioCodecOptionsChanged,
    ensures
        audio_edit(old(item)@, message, final(item)@),
{
    proof {
        reveal(audio_edit);
    }
    match message {
        Message::AudioCodecOptionsChanged(x) => {
            item.set_audio_codec_options(x);
        },
        _ => {},
    }
}

fn on_video_bit_rate_changed(item: &mut ConfigItem, message: Message)
    requires
        message is VideoBitRateChanged,
    ensures
        audio_edit(old(item)@, message, final(item)@),
{
    proof {
        reveal(audio_edit);
    }
    match message {
        Message::VideoBitRateChanged(x) => {
            item.set_video_bit_rate(trim(x.as_str()));
        },
        _ => {},
    }
}

fn on_audio_bit_rate_changed(item: &mut ConfigItem, message: Message)
    requires
        message is AudioBitRateChanged,
    ensures
        audio_edit(old(item)@, message, final(item)@),
{
    proof {
        reveal(audio_edit);
    }
    match message {
        Message::AudioBitRateChanged(x) => {
            item.set_audio_bit_rate(trim(x.as_str()));
        },
        _ => {},
    }
}

fn on_fps_changed(item: &mut ConfigItem, message: Message)
    requires
        message is FpsChanged,
    ensures
        audio_edit(old(item)@, message, final(item)@),
{
    proof {
        reveal(audio_edit);
    }
    match message {
        Message::FpsChanged(x) => {
            item.set_fps(optional_number(x.as_str(), item.fps));
        },
        _ => {},
    }
}

fn on_video_buffer_changed(item: &mut ConfigItem, message: Message)
    requires
        message is VideoBufferChanged,
    ensures
        audio_edit(old(item)@, message, final(item)@),
{
    proof {
        reveal(audio_edit);
    }
    match message {
        Message::VideoBufferChanged(x) => {
            if is_blank(x.as_str()) {
                item.set_video_buffer(None);
                if item.buffer_sync {
                    item.set_audio_buffer(None);
                }
            } else if let Some(n) = parse_u32(x.as_str()) {
                item.set_video_buffer(Some(n));
                if item.buffer_sync {
                    item.set_audio_buffer(Some(n));
                }
            }
        },
        _ => {},
    }
}

fn on_audio_buffer_changed(item: &mut ConfigItem, message: Message)
    requires
        message is AudioBufferChanged,
    ensures
        audio_edit(old(item)@, message, final(item)@),
{
    proof {
        reveal(audio_edit);
    }
    match message {
        Message::AudioBufferChanged(x) => {
            if is_blank(x.as_str()) {
                item.set_audio_buffer(None);
                if item.buffer_sync {
                    item.set_video_buffer(None);
                }
            } else if let Some(n) = parse_u32(x.as_str()) {
                item.set_audio_buffer(Some(n));
                if item.buffer_sync {
                    item.set_video_buffer(Some(n));
                }
            }
        },
        _ => {},
    }
}

fn on_buffer_sync_changed(item: &mut ConfigItem, message: Message)
    requires
        message is BufferSyncChanged,
    ensures
        audio_edit(old(item)@, message, final(item)@),
{
    proof {
        reveal(audio_edit);
    }
    match message {
        Message::BufferSyncChanged(x) => {
            item.set_buffer_sync(x);
        },
        _ => {},
    }
}

fn apply_audio(item: &mut ConfigItem, message: Message)
    ensures
        audio_edit(old(item)@, message, final(item)@),
{
    match message {
        Message::AudioSourceChanged(..) => on_audio_source_changed(item, message),
        Message::AudioDupChanged(..) => on_audio_dup_changed(item, message),
        Message::AudioPlaybackChanged(..) => on_audio_playback_changed(item, message),
        Message::AudioCodecChanged(..) => on_audio_codec_changed(item, message),
        Message::AudioCodecOptionsChanged(..) => on_audio_codec_options_changed(item, message),
        Message::VideoBitRateChanged(..) => on_video_bit_rate_changed(item, message),
        Message::AudioBitRateChanged(..) => on_audio_bit_rate_changed(item, message),
        Message::FpsChanged(..) => on_fps_changed(item, message),
        Message::VideoBufferChanged(..) => on_video_buffer_changed(item, message),
        Message::AudioBufferChanged(..) => on_audio_buffer_changed(item, message),
        Message::BufferSyncChanged(..) => on_buffer_sync_changed(item, message),
        _ => {
            assert(audio_edit(old(item)@, message, item@)) by {
                reveal(audio_edit);
            }
        },
    }
}

fn on_keyboard_changed(item: &mut ConfigItem, message: Message)
    requires
        message is KeyboardChanged,
    ensures
        device_edit(old(item)@, message, final(item)@),
{
    proof {
        reveal(device_edit);
    }
    match message {
        Message::KeyboardChanged(x) => {
            item.set_keyboard(x);
        },
        _ => {},
    }
}

fn on_mouse_changed(item: &mut ConfigItem, message: Message)
    requires
        message is MouseChanged,
    ensures
        device_edit(old(item)@, message, final(item)@),
{
    proof {
        reveal(device_edit);
    }
    match message {
        Message::MouseChanged(x) => {
            item.set_mouse(x);
        },
        _ => {},
    }
}

fn on_gamepad_changed(item: &mut ConfigItem, message: Message)
    requires
        message is GamepadChanged,
    ensures
        device_edit(old(item)@, message, final(item)@),
{
    proof {
        reveal(device_edit);
    }
    match message {
        Message::GamepadChanged(x) => {
            item.set_gamepad(x);
        },
        _ => {},
    }
}

fn on_record_changed(item: &mut ConfigItem, message: Message)
    requires
        message is RecordChanged,
    ensures
        device_edit(old(item)@, message, final(item)@),
{
    proof {
        reveal(device_edit);
    }
    match message {
        Message::RecordChanged(x) => {
            item.set_record(x);
        },
        _ => {},
    }
}

fn on_v4l2_changed(item: &mut ConfigItem, message: Message)
    requires
        message is V4l2Changed,
    ensures
        device_edit(old(item)@, message, final(item)@),
{
    proof {
        reveal(device_edit);
    }
    match message {
        Message::V4l2Changed(x) => {
            item.set_v4l2(x);
        },
        _ => {},
    }
}

fn on_virtual_display_changed(item: &mut ConfigItem, message: Message)
    requires
        message is VirtualDisplayChanged,
    ensures
        device_edit(old(item)@, message, final(item)@),
{
    proof {
        reveal(device_edit);
    }
    match message {
        Message::VirtualDisplayChanged(x) => {
            item.set_virtual_display(x);
        },
        _ => {},
    }
}

fn on_display_height_changed(item: &mut ConfigItem, message: Message)
    requires
        message is DisplayHeightChanged,
    ensures
        device_edit(old(item)@, message, final(item)@),
{
    proof {
        reveal(device_edit);
    }
    match message {
        Message::DisplayHeightChanged(x) => {
            item.set_display_height(number_or_zero(x.as_str(), item.display_height));
        },
        _ => {},
    }
}

fn on_display_width_changed(item: &mut ConfigItem, message: Message)
    requires
        message is DisplayWidthChanged,
    ensures
        device_edit(old(item)@, message, final(item)@),
{
    proof {
        reveal(device_edit);
    }
    match message {
        Message::DisplayWidthChanged(x) => {
            item.set_display_width(number_or_zero(x.as_str(), item.display_width));
        },
        _ => {},
    }
}

fn on_display_ime_policy_changed(item: &mut ConfigItem, message: Message)
    requires
        message is DisplayImePolicyChanged,
    ensures
        device_edit(old(item)@, message, final(item)@),
{
    proof {
        reveal(device_edit);
    }
    match message {
        Message::DisplayImePolicyChanged(x) => {
            item.set_display_ime_policy(x);
        },
        _ => {},
    }
}

fn on_destroy_app_on_close_changed(item: &mut ConfigItem, message: Message)
    requires
        message is DestroyAppOnCloseChanged,
    ensures
        device_edit(old(item)@, message, final(item)@),
{
    proof {
        reveal(device_edit);
    }
    match message {
        Message::DestroyAppOnCloseChanged(x) => {
            item.set_destroy_app_on_close(x);
        },
        _ => {},
    }
}

fn on_start_app_changed(item: &mut ConfigItem, message: Message)
    requires
        message is StartAppChanged,
    ensures
        device_edit(old(item)@, message, final(item)@),
{
    proof {
        reveal(device_edit);
    }
    match message {
        Message::StartAppChanged(x) => {
            item.set_start_app(x);
        },
        _ => {},
    }
}

fn on_restart_app_changed(item: &mut ConfigItem, message: Message)
    requires
        message is RestartAppChanged,
    ensures
        device_edit(old(item)@, message, final(item)@),
{
    proof {
        reveal(device_edit);
    }
    match message {
        Message::RestartAppChanged(x) => {
            item.set_restart_app(x);
        },
        _ => {},
    }
}

fn on_app_name_type_changed(item: &mut ConfigItem, message: Message)
    requires
        message is AppNameTypeChanged,
    ensures
        device_edit(old(item)@, message, final(item)@),
{
    proof {
        reveal(device_edit);
    }
    match message {
        Message::AppNameTypeChanged(x) => {
            item.set_app_name_type(x);
        },
        _ => {},
    }
}

fn apply_device(item: &mut ConfigItem, message: Message)
    ensures
        device_edit(old(item)@, message, final(item)@),
{
    match message {
        Message::KeyboardChanged(..) => on_keyboard_changed(item, message),
        Message::MouseChanged(..) => on_mouse_changed(item, message),
        Message::GamepadChanged(..) => on_gamepad_changed(item, message),
        Message::RecordChanged(..) => on_record_changed(item, message),
        Message::V4l2Changed(..) => on_v4l2_changed(item, message),
        Message::VirtualDisplayChanged(..) => on_virtual_display_changed(item, message),
        Message::DisplayHeightChanged(..) => on_display_height_changed(item, message),
        Message::DisplayWidthChanged(..) => on_display_width_changed(item, message),
        Message::DisplayImePolicyChanged(..) => on_display_ime_policy_changed(item, message),
        Message::DestroyAppOnCloseChanged(..) => on_destroy_app_on_close_changed(item, message),
        Message::StartAppChanged(..) => on_start_app_changed(item, message),
        Message::RestartAppChanged(..) => on_restart_app_changed(item, message),
        Message::AppNameTypeChanged(..) => on_app_name_type_changed(item, message),
        _ => {
            assert(device_edit(old(item)@, message, item@)) by {
                reveal(device_edit);
            }
        },
    }
}

fn on_time_limit_changed(item: &mut ConfigItem, message: Message)
    requires
        message is TimeLimitChanged,
    ensures
        window_edit(old(item)@, message, final(item)@),
{
    proof {
        reveal(window_edit);
    }
    match message {
        Message::TimeLimitChanged(x) => {
            item.set_time_limit(optional_number(x.as_str(), item.time_limit));
        },
        _ => {},
    }
}

fn on_stay_awake_changed(item: &mut ConfigItem, message: Message)
    requires
        message is StayAwakeChanged,
    ensures
        window_edit(old(item)@, message, final(item)@),
{
    proof {
        reveal(window_edit);
    }
    match message {
        Message::StayAwakeChanged(x) => {
            item.set_stay_awake(x);
        },
        _ => {},
    }
}

fn on_disable_window_changed(item: &mut ConfigItem, message: Message)
    requires
        message is DisableWindowChanged,
    ensures
        window_edit(old(item)@, message, final(item)@),
{
    proof {
        reveal(window_edit);
    }
    match message {
        Message::DisableWindowChanged(x) => {
            item.set_disable_window(x);
        },
        _ => {},
    }
}

fn on_borderless_changed(item: &mut ConfigItem, message: Message)
    requires
        message is BorderlessChanged,
    ensures
        window_edit(old(item)@, message, final(item)@),
{
    proof {
        reveal(window_edit);
    }
    match message {
        Message::BorderlessChanged(x) => {
            item.set_borderless(x);
        },
        _ => {},
    }
}

fn on_always_on_top_changed(item: &mut ConfigItem, message: Message)
    requires
        message is AlwaysOnTopChanged,
    ensures
        window_edit(old(item)@, message, final(item)@),
{
    proof {
        reveal(window_edit);
    }
    match message {
        Message::AlwaysOnTopChanged(x) => {
            item.set_always_on_top(x);
        },
        _ => {},
    }
}

fn on_fullscreen_changed(item: &mut ConfigItem, message: Message)
    requires
        message is FullscreenChanged,
    ensures
        window_edit(old(item)@, message, final(item)@),
{
    proof {
        reveal(window_edit);
    }
    match message {
        Message::FullscreenChanged(x) => {
            item.set_fullscreen(x);
        },
        _ => {},
    }
}

fn on_disable_screensaver_changed(item: &mut ConfigItem, message: Message)
    requires
        message is DisableScreensaverChanged,
    ensures
        window_edit(old(item)@, message, final(item)@),
{
    proof {
        reveal(window_edit);
    }
    match message {
        Message::DisableScreensaverChanged(x) => {
            item.set_disable_screensaver(x);
        },
        _ => {},
    }
}

fn on_additional_args_changed(item: &mut ConfigItem, message: Message)
    requires
        message is AdditionalArgsChanged,
    ensures
        window_edit(old(item)@, message, final(item)@),
{
    proof {
        reveal(window_edit);
    }
    match message {
        Message::AdditionalArgsChanged(x) => {
            item.set_additional_args(x);
        },
        _ => {},
    }
}

fn on_language_changed(item: &mut ConfigItem, message: Message)
    requires
        message is LanguageChanged,
    ensures
        window_edit(old(item)@, message, final(item)@),
{
    proof {
        reveal(window_edit);
    }
    match message {
        Message::LanguageChanged(x) => {
            item.set_language(x);
        },
        _ => {},
    }
}

fn apply_window(item: &mut ConfigItem, message: Message)
    ensures
        window_edit(old(item)@, message, final(item)@),
{
    match message {
        Message::TimeLimitChanged(..) => on_time_limit_changed(item, message),
        Message::StayAwakeChanged(..) => on_stay_awake_changed(item, message),
        Message::DisableWindowChanged(..) => on_disable_window_changed(item, message),
        Message::BorderlessChanged(..) => on_borderless_changed(item, message),
        Message::AlwaysOnTopChanged(..) => on_always_on_top_changed(item, message),
        Message::FullscreenChanged(..) => on_fullscreen_changed(item, message),
        Message::DisableScreensaverChanged(..) => on_disable_screensaver_changed(item, message),
        Message::AdditionalArgsChanged(..) => on_additional_args_changed(item, message),
        Message::LanguageChanged(..) => on_language_changed(item, message),
        _ => {
            assert(window_edit(old(item)@, message, item@)) by {
                reveal(window_edit);
            }
        },
    }
}

impl WinMain {
    pub open spec fn wf(&self) -> bool {
        self.config.wf()
    }

    /// A window over `config`, with nothing picked and the command line built
    /// from the current settings.
    pub fn new(config: Config) -> (r: WinMain)
        requires
            config.wf(),
        ensures
            r.wf(),
            r@.config == config@,
            r@.args == args_line(config@.default),
            r@.chosen == Seq::<char>::empty(),
            r@.input == Seq::<char>::empty(),
    {
        let args = build_args(&config.default);
        WinMain { args, config_status: ConfigStatus::default(), config }
    }

    pub fn title(&self) -> (r: String)
        ensures
            r@ == title_text(self.config.default.language),
    {
        match self.config.default.language {
            Language::En => String::from_str("Scrcpy Config"),
            Language::Zh => String::from_str("Scrcpy 配置"),
        }
    }

    fn refresh_args(&mut self)
        ensures
            final(self).args@ == args_line(final(self).config.default@),
            final(self).config == old(self).config,
            final(self).config_status == old(self).config_status,
    {
        self.args = build_args(&self.config.default);
    }

    /// Applies the event `message` and says what the front-end has to do.
    pub fn update(&mut self, message: Message) -> (r: Effect)
        requires
            old(self).wf(),
        ensures
            final(self).wf(),
            stepped(old(self)@, message, final(self)@),
            r@ == next_effect(old(self)@, message),
    {
        match message.section() {
            Section::Video => {
                apply_video(&mut self.config.default, message);
            },
            Section::Audio => {
                apply_audio(&mut self.config.default, message);
            },
            Section::Device => {
                apply_device(&mut self.config.default, message);
            },
            Section::Window => {
                apply_window(&mut self.config.default, message);
            },
            Section::Preset => {
                return self.apply_preset(message);
            },
        }
        self.refresh_args();
        Effect::Nothing
    }

    fn apply_preset(&mut self, message: Message) -> (r: Effect)
        requires
            old(self).wf(),
            message.section_of() == Section::Preset,
        ensures
            final(self).wf(),
            stepped(old(self)@, message, final(self)@),
            r@ == next_effect(old(self)@, message),
    {
        match message {
            Message::ConfigSelectChanged(name) => {
                self.config_status.chosen = name;
                Effect::Nothing
            },
            Message::ConfigSelectSave => {
                if !select_config_valid(&self.config_status.chosen, &self.config) {
                    return Effect::Nothing;
                }
                let item = self.config.default.snapshot();
                let name = trim(self.config_status.chosen.as_str());
                self.config.saved.insert(name, item);
                Effect::Persist
            },
            Message::ConfigSelectDelete => {
                if !select_config_valid(&self.config_status.chosen, &self.config) {
                    return Effect::Nothing;
                }
                self.config.saved.remove(&self.config_status.chosen);
                Effect::Persist
            },
            Message::ConfigSelectLoad => {
                if !select_config_valid(&self.config_status.chosen, &self.config) {
                    return Effect::Nothing;
                }
                if let Some(c) = self.config.saved.get(&self.config_status.chosen) {
                    self.config.default = c.snapshot();
                }
                self.refresh_args();
                Effect::Nothing
            },
            Message::ConfigInputChanged(name) => {
                self.config_status.input = name;
                Effect::Nothing
            },
            Message::ConfigSave => {
                if is_blank(self.config_status.input.as_str()) {
                    return Effect::Nothing;
                }
                let item = self.config.default.snapshot();
                let name = trim(self.config_status.input.as_str());
                self.config.saved.insert(name, item);
                Effect::Persist
            },
            Message::ArgsChanged(command) => {
                self.args = command;
                Effect::Nothing
            },
            Message::Reset => {
                let mut c = ConfigItem::default();
                c.language = self.config.default.language;
                self.config.default = c;
                self.refresh_args();
                Effect::Persist
            },
            Message::Run => Effect::Launch(self.args.clone()),
            _ => Effect::Nothing,
        }
    }
}

impl Default for WinMain {
    fn default() -> (r: WinMain)
        ensures
            r.wf(),
            r@.config.default == default_settings(),
            r@.config.saved == Map::<Seq<char>, ConfigItemView>::empty(),
            r@.args == args_line(default_settings()),
            r@.chosen == Seq::<char>::empty(),
            r@.input == Seq::<char>::empty(),
    {
        WinMain::new(Config::new())
    }
}

} // verus!
