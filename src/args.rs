//! The command line that the settings stand for.
use crate::config::{
    AppNameType, AudioCodec, AudioSource, ConfigItem, ConfigItemView, ConnectMethod,
    DisplayImePolicy, Gamepad, Keyboard, Mouse, OrientationAngle, OrientationType, VideoCodec,
    VideoSource,
};
use crate::text::{decimal, u32_text};
use vstd::prelude::*;

verus! {

/// The words of a command line, each seen as its characters.
pub open spec fn words(out: Vec<String>) -> Seq<Seq<char>> {
    out@.map_values(|s: String| s@)
}

pub open spec fn push_if(s: Seq<Seq<char>>, c: bool, t: Seq<char>) -> Seq<Seq<char>> {
    if c {
        s.push(t)
    } else {
        s
    }
}

pub open spec fn number(n: u32) -> Seq<char> {
    decimal(n as nat)
}

pub open spec fn video_on(v: ConfigItemView) -> bool {
    v.video_source != VideoSource::No
}

pub open spec fn audio_on(v: ConfigItemView) -> bool {
    v.audio_source != AudioSource::No
}

pub open spec fn virtual_display_on(v: ConfigItemView) -> bool {
    v.video_source == VideoSource::Display && v.virtual_display
}

/// `@` when the captured orientation is locked.
pub open spec fn lock_mark(v: ConfigItemView) -> Seq<char> {
    if v.orientation_lock {
        "@"@
    } else {
        Seq::empty()
    }
}

/// `flip` when the picture is mirrored.
pub open spec fn flip_mark(v: ConfigItemView) -> Seq<char> {
    if v.orientation_flip {
        "flip"@
    } else {
        Seq::empty()
    }
}

/// `=WxH` when both sides of the virtual display are given.
pub open spec fn display_size(v: ConfigItemView) -> Seq<char> {
    if v.display_width > 0 && v.display_height > 0 {
        "="@ + number(v.display_width) + "x"@ + number(v.display_height)
    } else {
        Seq::empty()
    }
}

/// `+` to restart the app, then `?` when it is named by its label.
pub open spec fn start_marks(v: ConfigItemView) -> Seq<char> {
    (if v.restart_app {
        "+"@
    } else {
        Seq::empty()
    }) + (if v.app_name_type == AppNameType::Name {
        "?"@
    } else {
        Seq::empty()
    })
}

pub open spec fn connection_words(s: Seq<Seq<char>>, v: ConfigItemView) -> Seq<Seq<char>> {
    let s = push_if(s, v.connect_method == ConnectMethod::Usb, "--select-usb"@);
    push_if(s, v.connect_method == ConnectMethod::Tcpip, "--select-tcpip"@)
}

pub open spec fn video_words(s: Seq<Seq<char>>, v: ConfigItemView) -> Seq<Seq<char>> {
    let on = video_on(v);
    let s = push_if(s, !on, "--no-video"@);
    let s = push_if(s, v.video_source == VideoSource::Camera, "--video-source=camera"@);
    let s = push_if(
        s,
        v.video_source == VideoSource::Camera,
        "--camera-facing="@ + v.camera.word(),
    );
    let s = push_if(s, on && v.video_size is Some, "--max-size="@ + number(v.video_size->0));
    let s = push_if(s, on && !v.video_playback, "--no-video-playback"@);
    let s = push_if(
        s,
        on && v.video_codec != VideoCodec::H264,
        "--video-codec="@ + v.video_codec.word(),
    );
    let s = push_if(
        s,
        on && v.video_codec_options.len() > 0,
        "--video-codec-options="@ + v.video_codec_options,
    );
    let turned = on && v.orientation_angle != OrientationAngle::Default;
    let s = push_if(
        s,
        turned && v.orientation_type == OrientationType::Capture,
        "--capture-orientation="@ + lock_mark(v) + flip_mark(v) + v.orientation_angle.word(),
    );
    push_if(
        s,
        turned && v.orientation_type == OrientationType::Display,
        "--display-orientation="@ + flip_mark(v) + v.orientation_angle.word(),
    )
}

pub open spec fn audio_words(s: Seq<Seq<char>>, v: ConfigItemView) -> Seq<Seq<char>> {
    let on = audio_on(v);
    let s = push_if(s, !on, "--no-audio"@);
    let s = push_if(
        s,
        on && v.audio_source != AudioSource::Output,
        "--audio-source="@ + v.audio_source.word(),
    );
    let s = push_if(s, on && v.audio_dup, "--audio-dup"@);
    let s = push_if(s, on && !v.audio_playback, "--no-audio-playback"@);
    let s = push_if(
        s,
        on && v.audio_codec != AudioCodec::Opus,
        "--audio-codec="@ + v.audio_codec.word(),
    );
    push_if(
        s,
        on && v.audio_codec_options.len() > 0,
        "--audio-codec-options="@ + v.audio_codec_options,
    )
}

pub open spec fn performance_words(s: Seq<Seq<char>>, v: ConfigItemView) -> Seq<Seq<char>> {
    let s = push_if(
        s,
        video_on(v) && v.video_bit_rate.len() > 0,
        "--video-bit-rate="@ + v.video_bit_rate,
    );
    let s = push_if(
        s,
        audio_on(v) && v.audio_bit_rate.len() > 0,
        "--audio-bit-rate="@ + v.audio_bit_rate,
    );
    let s = push_if(s, v.fps is Some, "--max-fps="@ + number(v.fps->0));
    let s = push_if(
        s,
        video_on(v) && v.video_buffer is Some,
        "--video-buffer="@ + number(v.video_buffer->0),
    );
    push_if(
        s,
        audio_on(v) && v.audio_buffer is Some,
        "--audio-buffer="@ + number(v.audio_buffer->0),
    )
}

pub open spec fn control_words(s: Seq<Seq<char>>, v: ConfigItemView) -> Seq<Seq<char>> {
    let s = push_if(s, v.keyboard != Keyboard::Sdk, "--keyboard="@ + v.keyboard.word());
    let s = push_if(s, v.mouse != Mouse::Sdk, "--mouse="@ + v.mouse.word());
    push_if(s, v.gamepad != Gamepad::Disabled, "--gamepad="@ + v.gamepad.word())
}

pub open spec fn output_words(s: Seq<Seq<char>>, v: ConfigItemView) -> Seq<Seq<char>> {
    let s = push_if(s, v.record.len() > 0, "--record="@ + v.record);
    push_if(s, v.v4l2.len() > 0, "--v4l2-sink="@ + v.v4l2)
}

pub open spec fn display_words(s: Seq<Seq<char>>, v: ConfigItemView) -> Seq<Seq<char>> {
    let on = virtual_display_on(v);
    let s = push_if(s, on, "--new-display"@ + display_size(v));
    let s = push_if(
        s,
        on && v.display_ime_policy != DisplayImePolicy::Local,
        "--display-ime-policy="@ + v.display_ime_policy.word(),
    );
    push_if(s, on && !v.destroy_app_on_close, "--no-vd-destroy-content"@)
}

pub open spec fn other_words(s: Seq<Seq<char>>, v: ConfigItemView) -> Seq<Seq<char>> {
    let s = push_if(s, v.start_app.len() > 0, "--start-app="@ + start_marks(v) + v.start_app);
    let s = push_if(s, v.time_limit is Some, "--time-limit="@ + number(v.time_limit->0));
    let s = push_if(s, v.stay_awake, "--stay-awake"@);
    let s = push_if(s, v.disable_window, "--no-window"@);
    let s = push_if(s, v.borderless, "--window-borderless"@);
    let s = push_if(s, v.always_on_top, "--always-on-top"@);
    let s = push_if(s, v.fullscreen, "--fullscreen"@);
    let s = push_if(s, v.disable_screensaver, "--disable-screensaver"@);
    push_if(s, v.additional_args.len() > 0, v.additional_args)
}

/// The words of the command line for the settings `v`, in order.
pub open spec fn arg_words(v: ConfigItemView) -> Seq<Seq<char>> {
    let s = connection_words(Seq::empty(), v);
    let s = video_words(s, v);
    let s = audio_words(s, v);
    let s = performance_words(s, v);
    let s = control_words(s, v);
    let s = output_words(s, v);
    let s = display_words(s, v);
    other_words(s, v)
}

/// The words of `ws` with one space between neighbours.
pub open spec fn join(ws: Seq<Seq<char>>) -> Seq<char>
    decreases ws.len(),
{
    if ws.len() == 0 {
        Seq::empty()
    } else if ws.len() == 1 {
        ws[0]
    } else {
        join(ws.drop_last()) + seq![' '] + ws.last()
    }
}

/// The command line for the settings `v`.
#[verifier::opaque]
pub open spec fn args_line(v: ConfigItemView) -> Seq<char> {
    join(arg_words(v))
}

fn put(out: &mut Vec<String>, t: String)
    ensures
        words(*final(out)) == words(*old(out)).push(t@),
{
    let ghost t_view = t@;
    out.push(t);
    assert(words(*out) =~= words(*old(out)).push(t_view));
}

fn glue(a: &str, b: &str) -> (r: String)
    ensures
        r@ == a@ + b@,
{
    String::from_str(a).concat(b)
}

fn glue_number(a: &str, n: u32) -> (r: String)
    ensures
        r@ == a@ + number(n),
{
    let d = u32_text(n);
    glue(a, d.as_str())
}

fn connection_args(out: &mut Vec<String>, v: &ConfigItem)
    ensures
        words(*final(out)) == connection_words(words(*old(out)), v@),
{
    if v.connect_method == ConnectMethod::Usb {
        put(out, String::from_str("--select-usb"));
    }
    if v.connect_method == ConnectMethod::Tcpip {
        put(out, String::from_str("--select-tcpip"));
    }
}

fn orientation_value(v: &ConfigItem, capture: bool) -> (r: String)
    ensures
        r@ == (if capture {
            lock_mark(v@) + flip_mark(v@) + v.orientation_angle.word()
        } else {
            flip_mark(v@) + v.orientation_angle.word()
        }),
{
    let mut r = String::new();
    if capture && v.orientation_lock {
        r.append("@");
    }
    if v.orientation_flip {
        r.append("flip");
    }
    r.append(v.orientation_angle.as_word());
    if capture {
        assert(r@ =~= lock_mark(v@) + flip_mark(v@) + v.orientation_angle.word());
    } else {
        assert(r@ =~= flip_mark(v@) + v.orientation_angle.word());
    }
    r
}

fn video_args(out: &mut Vec<String>, v: &ConfigItem)
    ensures
        words(*final(out)) == video_words(words(*old(out)), v@),
{
    let ghost w = v@;
    let on = v.video_source != VideoSource::No;
    if !on {
        put(out, String::from_str("--no-video"));
    }
    let ghost s1 = words(*out);
    if v.video_source == VideoSource::Camera {
        put(out, String::from_str("--video-source=camera"));
    }
    let ghost s2 = words(*out);
    assert(s2 == push_if(s1, w.video_source == VideoSource::Camera, "--video-source=camera"@));
    if v.video_source == VideoSource::Camera {
        put(out, glue("--camera-facing=", v.camera.as_word()));
    }
    let ghost s3 = words(*out);
    assert(s3 == push_if(
        s2,
        w.video_source == VideoSource::Camera,
        "--camera-facing="@ + w.camera.word(),
    ));
    if on {
        if let Some(n) = v.video_size {
            put(out, glue_number("--max-size=", n));
        }
    }
    let ghost s4 = words(*out);
    assert(s4 == push_if(s3, on && w.video_size is Some, "--max-size="@ + number(w.video_size->0)));
    if on && !v.video_playback {
        put(out, String::from_str("--no-video-playback"));
    }
    let ghost s5 = words(*out);
    if on && v.video_codec != VideoCodec::H264 {
        put(out, glue("--video-codec=", v.video_codec.as_word()));
    }
    let ghost s6 = words(*out);
    assert(s6 == push_if(
        s5,
        on && w.video_codec != VideoCodec::H264,
        "--video-codec="@ + w.video_codec.word(),
    ));
    if on && v.video_codec_options.as_str().unicode_len() > 0 {
        put(out, glue("--video-codec-options=", v.video_codec_options.as_str()));
    }
    let ghost s7 = words(*out);
    assert(s7 == push_if(
        s6,
        on && w.video_codec_options.len() > 0,
        "--video-codec-options="@ + w.video_codec_options,
    ));
    let turned = on && v.orientation_angle != OrientationAngle::Default;
    if turned && v.orientation_type == OrientationType::Capture {
        let value = orientation_value(v, true);
        put(out, glue("--capture-orientation=", value.as_str()));
        assert("--capture-orientation="@ + value@ =~= "--capture-orientation="@ + lock_mark(w)
            + flip_mark(w) + w.orientation_angle.word());
    }
    let ghost s8 = words(*out);
    assert(s8 == push_if(
        s7,
        turned && w.orientation_type == OrientationType::Capture,
        "--capture-orientation="@ + lock_mark(w) + flip_mark(w) + w.orientation_angle.word(),
    ));
    if turned && v.orientation_type == OrientationType::Display {
        let value = orientation_value(v, false);
        put(out, glue("--display-orientation=", value.as_str()));
        assert("--display-orientation="@ + value@ =~= "--display-orientation="@ + flip_mark(w)
            + w.orientation_angle.word());
    }
}

fn audio_args(out: &mut Vec<String>, v: &ConfigItem)
    ensures
        words(*final(out)) == audio_words(words(*old(out)), v@),
{
    let ghost w = v@;
    let on = v.audio_source != AudioSource::No;
    if !on {
        put(out, String::from_str("--no-audio"));
    }
    let ghost s1 = words(*out);
    if on && v.audio_source != AudioSource::Output {
        put(out, glue("--audio-source=", v.audio_source.as_word()));
    }
    let ghost s2 = words(*out);
    assert(s2 == push_if(
        s1,
        on && w.audio_source != AudioSource::Output,
        "--audio-source="@ + w.audio_source.word(),
    ));
    if on && v.audio_dup {
        put(out, String::from_str("--audio-dup"));
    }
    let ghost s3 = words(*out);
    assert(s3 == push_if(s2, on && w.audio_dup, "--audio-dup"@));
    if on && !v.audio_playback {
        put(out, String::from_str("--no-audio-playback"));
    }
    let ghost s4 = words(*out);
    assert(s4 == push_if(s3, on && !w.audio_playback, "--no-audio-playback"@));
    if on && v.audio_codec != AudioCodec::Opus {
        put(out, glue("--audio-codec=", v.audio_codec.as_word()));
    }
    let ghost s5 = words(*out);
    assert(s5 == push_if(
        s4,
        on && w.audio_codec != AudioCodec::Opus,
        "--audio-codec="@ + w.audio_codec.word(),
    ));
    if on && v.audio_codec_options.as_str().unicode_len() > 0 {
        put(out, glue("--audio-codec-options=", v.audio_codec_options.as_str()));
    }
}

fn performance_args(out: &mut Vec<String>, v: &ConfigItem)
    ensures
        words(*final(out)) == performance_words(words(*old(out)), v@),
{
    let ghost w = v@;
    let video = v.video_source != VideoSource::No;
    let audio = v.audio_source != AudioSource::No;
    let ghost s0 = words(*out);
    if video && v.video_bit_rate.as_str().unicode_len() > 0 {
        put(out, glue("--video-bit-rate=", v.video_bit_rate.as_str()));
    }
    let ghost s1 = words(*out);
    assert(s1 == push_if(
        s0,
        video_on(w) && w.video_bit_rate.len() > 0,
        "--video-bit-rate="@ + w.video_bit_rate,
    ));
    if audio && v.audio_bit_rate.as_str().unicode_len() > 0 {
        put(out, glue("--audio-bit-rate=", v.audio_bit_rate.as_str()));
    }
    let ghost s2 = words(*out);
    assert(s2 == push_if(
        s1,
        audio_on(w) && w.audio_bit_rate.len() > 0,
        "--audio-bit-rate="@ + w.audio_bit_rate,
    ));
    if let Some(n) = v.fps {
        put(out, glue_number("--max-fps=", n));
    }
    let ghost s3 = words(*out);
    assert(s3 == push_if(s2, w.fps is Some, "--max-fps="@ + number(w.fps->0)));
    if video {
        if let Some(n) = v.video_buffer {
            put(out, glue_number("--video-buffer=", n));
        }
    }
    let ghost s4 = words(*out);
    assert(s4 == push_if(
        s3,
        video_on(w) && w.video_buffer is Some,
        "--video-buffer="@ + number(w.video_buffer->0),
    ));
    if audio {
        if let Some(n) = v.audio_buffer {
            put(out, glue_number("--audio-buffer=", n));
        }
    }
}

fn control_args(out: &mut Vec<String>, v: &ConfigItem)
    ensures
        words(*final(out)) == control_words(words(*old(out)), v@),
{
    let ghost w = v@;
    let ghost s0 = words(*out);
    if v.keyboard != Keyboard::Sdk {
        put(out, glue("--keyboard=", v.keyboard.as_word()));
    }
    let ghost s1 = words(*out);
    assert(s1 == push_if(s0, w.keyboard != Keyboard::Sdk, "--keyboard="@ + w.keyboard.word()));
    if v.mouse != Mouse::Sdk {
        put(out, glue("--mouse=", v.mouse.as_word()));
    }
    let ghost s2 = words(*out);
    assert(s2 == push_if(s1, w.mouse != Mouse::Sdk, "--mouse="@ + w.mouse.word()));
    if v.gamepad != Gamepad::Disabled {
        put(out, glue("--gamepad=", v.gamepad.as_word()));
    }
}

fn output_args(out: &mut Vec<String>, v: &ConfigItem)
    ensures
        words(*final(out)) == output_words(words(*old(out)), v@),
{
    let ghost w = v@;
    let ghost s0 = words(*out);
    if v.record.as_str().unicode_len() > 0 {
        put(out, glue("--record=", v.record.as_str()));
    }
    let ghost s1 = words(*out);
    assert(s1 == push_if(s0, w.record.len() > 0, "--record="@ + w.record));
    if v.v4l2.as_str().unicode_len() > 0 {
        put(out, glue("--v4l2-sink=", v.v4l2.as_str()));
    }
}

fn display_size_text(v: &ConfigItem) -> (r: String)
    ensures
        r@ == display_size(v@),
{
    let mut r = String::new();
    if v.display_width > 0 && v.display_height > 0 {
        r.append("=");
        let w = u32_text(v.display_width);
        r.append(w.as_str());
        r.append("x");
        let h = u32_text(v.display_height);
        r.append(h.as_str());
        assert(r@ =~= display_size(v@));
    }
    r
}

fn display_args(out: &mut Vec<String>, v: &ConfigItem)
    ensures
        words(*final(out)) == display_words(words(*old(out)), v@),
{
    let ghost w = v@;
    let on = v.video_source == VideoSource::Display && v.virtual_display;
    let ghost s0 = words(*out);
    if on {
        let size = display_size_text(v);
        put(out, glue("--new-display", size.as_str()));
    }
    let ghost s1 = words(*out);
    assert(s1 == push_if(s0, virtual_display_on(w), "--new-display"@ + display_size(w)));
    if on && v.display_ime_policy != DisplayImePolicy::Local {
        put(out, glue("--display-ime-policy=", v.display_ime_policy.as_word()));
    }
    let ghost s2 = words(*out);
    assert(s2 == push_if(
        s1,
        virtual_display_on(w) && w.display_ime_policy != DisplayImePolicy::Local,
        "--display-ime-policy="@ + w.display_ime_policy.word(),
    ));
    if on && !v.destroy_app_on_close {
        put(out, String::from_str("--no-vd-destroy-content"));
    }
}

fn start_app_value(v: &ConfigItem) -> (r: String)
    ensures
        r@ == start_marks(v@) + v@.start_app,
{
    let mut r = String::new();
    if v.restart_app {
        r.append("+");
    }
    if v.app_name_type == AppNameType::Name {
        r.append("?");
    }
    r.append(v.start_app.as_str());
    assert(r@ =~= start_marks(v@) + v@.start_app);
    r
}

fn other_args(out: &mut Vec<String>, v: &ConfigItem)
    ensures
        words(*final(out)) == other_words(words(*old(out)), v@),
{
    let ghost w = v@;
    let ghost s0 = words(*out);
    if v.start_app.as_str().unicode_len() > 0 {
        let value = start_app_value(v);
        put(out, glue("--start-app=", value.as_str()));
        assert("--start-app="@ + value@ =~= "--start-app="@ + start_marks(w) + w.start_app);
    }
    let ghost s1 = words(*out);
    assert(s1 == push_if(
        s0,
        w.start_app.len() > 0,
        "--start-app="@ + start_marks(w) + w.start_app,
    ));
    if let Some(n) = v.time_limit {
        put(out, glue_number("--time-limit=", n));
    }
    let ghost s2 = words(*out);
    assert(s2 == push_if(s1, w.time_limit is Some, "--time-limit="@ + number(w.time_limit->0)));
    if v.stay_awake {
        put(out, String::from_str("--stay-awake"));
    }
    let ghost s3 = words(*out);
    if v.disable_window {
        put(out, String::from_str("--no-window"));
    }
    let ghost s4 = words(*out);
    if v.borderless {
        put(out, String::from_str("--window-borderless"));
    }
    let ghost s5 = words(*out);
    if v.always_on_top {
        put(out, String::from_str("--always-on-top"));
    }
    let ghost s6 = words(*out);
    if v.fullscreen {
        put(out, String::from_str("--fullscreen"));
    }
    let ghost s7 = words(*out);
    if v.disable_screensaver {
        put(out, String::from_str("--disable-screensaver"));
    }
    let ghost s8 = words(*out);
    assert(s8 == push_if(
        push_if(
            push_if(
                push_if(push_if(push_if(s2, w.stay_awake, "--stay-awake"@), w.disable_window, "--no-window"@), w.borderless, "--window-borderless"@),
                w.always_on_top,
                "--always-on-top"@,
            ),
            w.fullscreen,
            "--fullscreen"@,
        ),
        w.disable_screensaver,
        "--disable-screensaver"@,
    ));
    if v.additional_args.as_str().unicode_len() > 0 {
        put(out, v.additional_args.clone());
    }
}

/// The words of the command line for the settings `v`, in order.
pub fn arg_list(v: &ConfigItem) -> (r: Vec<String>)
    ensures
        words(r) == arg_words(v@),
{
    let mut out: Vec<String> = Vec::new();
    assert(words(out) =~= Seq::<Seq<char>>::empty());
    connection_args(&mut out, v);
    video_args(&mut out, v);
    audio_args(&mut out, v);
    performance_args(&mut out, v);
    control_args(&mut out, v);
    output_args(&mut out, v);
    display_args(&mut out, v);
    other_args(&mut out, v);
    out
}

/// The command line for the settings `v`: its words with one space between
/// neighbours.
pub fn build_args(v: &ConfigItem) -> (r: String)
    ensures
        r@ == args_line(v@),
{
    let list = arg_list(v);
    let ghost ws = words(list);
    let mut r = String::new();
    let mut i: usize = 0;
    while i < list.len()
        invariant
            i <= list@.len(),
            ws == words(list),
            r@ == join(ws.take(i as int)),
        decreases list@.len() - i,
    {
        assert(ws.take(i + 1).drop_last() =~= ws.take(i as int));
        if i > 0 {
            r.append(" ");
            proof {
                reveal_strlit(" ");
            }
        }
        r.append(list[i].as_str());
        i = i + 1;
        if i == 1 {
            assert(r@ =~= join(ws.take(i as int)));
        }
    }
    assert(ws.take(i as int) =~= ws);
    proof {
        reveal(args_line);
    }
    r
}

} // verus!
