use scrcpy_config::args::{arg_list, build_args};
use scrcpy_config::config::{
    AppNameType, AudioSource, Camera, Config, ConfigItem, Gamepad, Language, OrientationAngle,
    OrientationType, VideoCodec, VideoSource,
};
use scrcpy_config::config_status::select_config_valid;
use scrcpy_config::presets::Presets;
use scrcpy_config::text::{is_blank, number_or_zero, optional_number, trim};
use scrcpy_config::win_main::{Effect, Message, WinMain};

#[test]
fn trim_removes_outer_white_space_only() {
    assert_eq!(trim("  a b \t\n"), "a b");
    assert_eq!(trim("\u{3000}x\u{3000}"), "x");
    assert_eq!(trim("   "), "");
    assert_eq!(trim(""), "");
}

#[test]
fn blank_text() {
    assert!(is_blank(""));
    assert!(is_blank(" \t "));
    assert!(!is_blank(" a "));
}

#[test]
fn optional_number_rules() {
    assert_eq!(optional_number("", Some(5)), None);
    assert_eq!(optional_number("  ", Some(5)), None);
    assert_eq!(optional_number("1920", None), Some(1920));
    assert_eq!(optional_number("+7", None), Some(7));
    assert_eq!(optional_number("abc", Some(5)), Some(5));
    assert_eq!(optional_number(" 12", Some(5)), Some(5));
    assert_eq!(optional_number("4294967296", Some(3)), Some(3));
    assert_eq!(optional_number("4294967295", None), Some(4294967295));
}

#[test]
fn number_or_zero_rules() {
    assert_eq!(number_or_zero("", 1080), 0);
    assert_eq!(number_or_zero("720", 1080), 720);
    assert_eq!(number_or_zero("-1", 1080), 1080);
}

#[test]
fn default_settings_give_an_empty_command_line() {
    let item = ConfigItem::default();
    assert_eq!(build_args(&item), "");
    assert!(arg_list(&item).is_empty());
}

#[test]
fn command_line_of_edited_settings() {
    let mut item = ConfigItem::default();
    item.video_size = Some(1920);
    item.video_codec = VideoCodec::H265;
    item.fps = Some(60);
    item.stay_awake = true;
    item.additional_args = String::from("--verbosity=debug");
    assert_eq!(
        build_args(&item),
        "--max-size=1920 --video-codec=h265 --max-fps=60 --stay-awake --verbosity=debug"
    );
}

#[test]
fn command_line_of_camera_and_orientation() {
    let mut item = ConfigItem::default();
    item.video_source = VideoSource::Camera;
    item.camera = Camera::Front;
    item.orientation_type = OrientationType::Capture;
    item.orientation_angle = OrientationAngle::Deg90;
    item.orientation_lock = true;
    item.orientation_flip = true;
    item.audio_source = AudioSource::No;
    item.gamepad = Gamepad::Uhid;
    assert_eq!(
        build_args(&item),
        "--video-source=camera --camera-facing=front --capture-orientation=@flip90 --no-audio --gamepad=uhid"
    );
}

#[test]
fn command_line_without_video() {
    let mut item = ConfigItem::default();
    item.video_source = VideoSource::No;
    item.video_size = Some(800);
    item.video_bit_rate = String::from("8M");
    item.start_app = String::from("org.example");
    item.restart_app = true;
    item.app_name_type = AppNameType::Name;
    assert_eq!(build_args(&item), "--no-video --start-app=+?org.example");
}

#[test]
fn command_line_of_virtual_display() {
    let mut item = ConfigItem::default();
    item.virtual_display = true;
    item.display_width = 1280;
    item.display_height = 720;
    item.destroy_app_on_close = false;
    assert_eq!(build_args(&item), "--new-display=1280x720 --no-vd-destroy-content");
    item.display_width = 0;
    assert_eq!(build_args(&item), "--new-display --no-vd-destroy-content");
}

#[test]
fn presets_insert_get_remove() {
    let mut p = Presets::new();
    let a = String::from("a");
    let b = String::from("b");
    assert!(!p.contains_key(&a));
    let mut item = ConfigItem::default();
    item.fps = Some(30);
    p.insert(a.clone(), item);
    p.insert(b.clone(), ConfigItem::default());
    let mut again = ConfigItem::default();
    again.fps = Some(24);
    p.insert(a.clone(), again);
    assert_eq!(p.len(), 2);
    assert_eq!(p.keys(), vec![String::from("a"), String::from("b")]);
    assert_eq!(p.get(&a).map(|i| i.fps), Some(Some(24)));
    p.remove(&a);
    assert!(!p.contains_key(&a));
    assert!(p.get(&a).is_none());
    assert_eq!(p.keys(), vec![String::from("b")]);
    p.remove(&a);
    assert_eq!(p.len(), 1);
}

#[test]
fn chosen_preset_validity() {
    let mut config = Config::new();
    config.saved.insert(String::from("home"), ConfigItem::default());
    assert!(select_config_valid(&String::from("home"), &config));
    assert!(!select_config_valid(&String::from(" home "), &config));
    assert!(!select_config_valid(&String::from("  "), &config));
    assert!(!select_config_valid(&String::from("work"), &config));
}

#[test]
fn settings_events_rebuild_the_command_line() {
    let mut w = WinMain::default();
    assert_eq!(w.args, "");
    assert!(matches!(w.update(Message::VideoSizeChanged(String::from("1024"))), Effect::Nothing));
    assert_eq!(w.config.default.video_size, Some(1024));
    assert_eq!(w.args, "--max-size=1024");
    w.update(Message::VideoSizeChanged(String::from("big")));
    assert_eq!(w.config.default.video_size, Some(1024));
    w.update(Message::VideoSizeChanged(String::from(" ")));
    assert_eq!(w.config.default.video_size, None);
    assert_eq!(w.args, "");
    w.update(Message::VideoBitRateChanged(String::from("  8M ")));
    assert_eq!(w.config.default.video_bit_rate, "8M");
    assert_eq!(w.args, "--video-bit-rate=8M");
    w.update(Message::DisplayWidthChanged(String::new()));
    assert_eq!(w.config.default.display_width, 0);
}

#[test]
fn buffers_follow_each_other_when_synced() {
    let mut w = WinMain::default();
    w.update(Message::VideoBufferChanged(String::from("50")));
    assert_eq!(w.config.default.video_buffer, Some(50));
    assert_eq!(w.config.default.audio_buffer, None);
    w.update(Message::BufferSyncChanged(true));
    w.update(Message::AudioBufferChanged(String::from("80")));
    assert_eq!(w.config.default.video_buffer, Some(80));
    assert_eq!(w.config.default.audio_buffer, Some(80));
    w.update(Message::VideoBufferChanged(String::from("x")));
    assert_eq!(w.config.default.video_buffer, Some(80));
    assert_eq!(w.config.default.audio_buffer, Some(80));
    w.update(Message::VideoBufferChanged(String::new()));
    assert_eq!(w.config.default.video_buffer, None);
    assert_eq!(w.config.default.audio_buffer, None);
}

#[test]
fn preset_events() {
    let mut w = WinMain::default();
    assert!(matches!(w.update(Message::ConfigSelectSave), Effect::Nothing));
    w.update(Message::ConfigInputChanged(String::from("  ")));
    assert!(matches!(w.update(Message::ConfigSave), Effect::Nothing));
    assert_eq!(w.config.saved.len(), 0);
    w.update(Message::FpsChanged(String::from("30")));
    w.update(Message::ConfigInputChanged(String::from(" phone ")));
    assert!(matches!(w.update(Message::ConfigSave), Effect::Persist));
    assert_eq!(w.config.saved.keys(), vec![String::from("phone")]);
    w.update(Message::FpsChanged(String::new()));
    w.update(Message::ConfigSelectChanged(String::from("phone")));
    assert!(matches!(w.update(Message::ConfigSelectLoad), Effect::Nothing));
    assert_eq!(w.config.default.fps, Some(30));
    assert_eq!(w.args, "--max-fps=30");
    w.update(Message::ConfigSelectChanged(String::from("missing")));
    w.update(Message::FpsChanged(String::from("10")));
    w.update(Message::ConfigSelectLoad);
    assert_eq!(w.config.default.fps, Some(10));
    w.update(Message::ConfigSelectChanged(String::from("phone")));
    assert!(matches!(w.update(Message::ConfigSelectDelete), Effect::Persist));
    assert_eq!(w.config.saved.len(), 0);
}

#[test]
fn reset_keeps_language_and_run_launches() {
    let mut w = WinMain::default();
    w.update(Message::LanguageChanged(Language::Zh));
    w.update(Message::FullscreenChanged(true));
    assert_eq!(w.title(), "Scrcpy 配置");
    assert!(matches!(w.update(Message::Reset), Effect::Persist));
    assert_eq!(w.config.default.language, Language::Zh);
    assert!(!w.config.default.fullscreen);
    assert_eq!(w.args, "");
    w.update(Message::ArgsChanged(String::from("--turn-screen-off")));
    match w.update(Message::Run) {
        Effect::Launch(a) => assert_eq!(a, "--turn-screen-off"),
        _ => panic!("expected a launch"),
    }
    w.update(Message::LanguageChanged(Language::En));
    assert_eq!(w.title(), "Scrcpy Config");
}

#[test]
fn unsaved_pick_counts_as_no_pick() {
    let mut w = WinMain::default();
    w.update(Message::ConfigInputChanged(String::from("home")));
    w.update(Message::ConfigSave);
    w.update(Message::ConfigSelectChanged(String::from("work")));
    assert!(matches!(w.update(Message::ConfigSelectSave), Effect::Nothing));
    assert_eq!(w.config.saved.keys(), vec![String::from("home")]);
    assert!(matches!(w.update(Message::ConfigSelectDelete), Effect::Nothing));
    assert_eq!(w.config.saved.keys(), vec![String::from("home")]);
    w.update(Message::FpsChanged(String::from("25")));
    w.update(Message::ConfigSelectChanged(String::from("home")));
    assert!(matches!(w.update(Message::ConfigSelectSave), Effect::Persist));
    assert_eq!(w.config.saved.get(&String::from("home")).map(|i| i.fps), Some(Some(25)));
    assert!(matches!(w.update(Message::ConfigSelectDelete), Effect::Persist));
    assert_eq!(w.config.saved.len(), 0);
}
