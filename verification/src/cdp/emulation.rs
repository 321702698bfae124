//! The `Emulation` domain: devices, locale, time zone, media and other overrides.
use vstd::prelude::*;
use crate::cdp::{Command, Params, obj_m, objs_m, object, int_m, bool_m, str_m, raw_m, opt_i32_m, opt_bool_m, opt_str_m, opt_raw_m};

verus! {

/// How the screen is turned: its type and angle.
#[derive(Debug, Clone)]
pub struct ScreenOrientation {
    pub type_: String,
    pub angle: i32,
}

/// The members of a `ScreenOrientation`: those it has, in name order.
pub open spec fn screen_orientation_members(v: ScreenOrientation) -> Seq<Seq<char>> {
    int_m("angle"@, v.angle as int) + str_m("type"@, v.type_@)
}

fn screen_orientation_params(v: &ScreenOrientation) -> (p: Params)
    ensures
        p.members() == screen_orientation_members(*v),
{
    let mut p = Params::new();
    p.integer("angle", v.angle as i64);
    p.text("type", v.type_.as_str());
    assert(p.members() =~= screen_orientation_members(*v));
    p
}

/// A fold or hinge of the display.
#[derive(Debug, Clone)]
pub struct DisplayFeature {
    pub orientation: String,
    pub offset: i32,
    pub mask_length: i32,
}

/// The members of a `DisplayFeature`: those it has, in name order.
pub open spec fn display_feature_members(v: DisplayFeature) -> Seq<Seq<char>> {
    int_m("maskLength"@, v.mask_length as int) + int_m("offset"@, v.offset as int)
        + str_m("orientation"@, v.orientation@)
}

fn display_feature_params(v: &DisplayFeature) -> (p: Params)
    ensures
        p.members() == display_feature_members(*v),
{
    let mut p = Params::new();
    p.integer("maskLength", v.mask_length as i64);
    p.integer("offset", v.offset as i64);
    p.text("orientation", v.orientation.as_str());
    assert(p.members() =~= display_feature_members(*v));
    p
}

/// A CSS media feature and the value it is emulated with.
#[derive(Debug, Clone)]
pub struct MediaFeature {
    pub name: String,
    pub value: String,
}

/// The members of a `MediaFeature`: those it has, in name order.
pub open spec fn media_feature_members(v: MediaFeature) -> Seq<Seq<char>> {
    str_m("name"@, v.name@) + str_m("value"@, v.value@)
}

fn media_feature_params(v: &MediaFeature) -> (p: Params)
    ensures
        p.members() == media_feature_members(*v),
{
    let mut p = Params::new();
    p.text("name", v.name.as_str());
    p.text("value", v.value.as_str());
    assert(p.members() =~= media_feature_members(*v));
    p
}

/// A device to emulate: its screen in CSS pixels, its pixel ratio (as a
/// JSON number), whether it is a mobile device, and its user agent (empty
/// to keep the browser's own).
#[derive(Debug, Clone)]
pub struct DevicePreset {
    pub name: &'static str,
    pub width: i32,
    pub height: i32,
    pub device_scale_factor: &'static str,
    pub mobile: bool,
    pub user_agent: &'static str,
}

/// An iPhone 15 Pro.
pub fn iphone_15_pro() -> (p: DevicePreset)
    ensures
        p.name@ == "iPhone 15 Pro"@,
        p.width == 393 && p.height == 852 && p.mobile,
        p.device_scale_factor@ == "3.0"@,
        p.user_agent@ == "Mozilla/5.0 (iPhone; CPU iPhone OS 17_0 like Mac OS X) AppleWebKit/605.1.15"@,
{
    DevicePreset {
        name: "iPhone 15 Pro",
        width: 393,
        height: 852,
        device_scale_factor: "3.0",
        mobile: true,
        user_agent: "Mozilla/5.0 (iPhone; CPU iPhone OS 17_0 like Mac OS X) AppleWebKit/605.1.15",
    }
}

/// An iPad Pro.
pub fn ipad_pro() -> (p: DevicePreset)
    ensures
        p.name@ == "iPad Pro"@,
        p.width == 1024 && p.height == 1366 && p.mobile,
        p.device_scale_factor@ == "2.0"@,
        p.user_agent@ == "Mozilla/5.0 (iPad; CPU OS 17_0 like Mac OS X) AppleWebKit/605.1.15"@,
{
    DevicePreset {
        name: "iPad Pro",
        width: 1024,
        height: 1366,
        device_scale_factor: "2.0",
        mobile: true,
        user_agent: "Mozilla/5.0 (iPad; CPU OS 17_0 like Mac OS X) AppleWebKit/605.1.15",
    }
}

/// A Pixel 7.
pub fn pixel_7() -> (p: DevicePreset)
    ensures
        p.name@ == "Pixel 7"@,
        p.width == 412 && p.height == 915 && p.mobile,
        p.device_scale_factor@ == "2.625"@,
        p.user_agent@ == "Mozilla/5.0 (Linux; Android 13; Pixel 7)"@,
{
    DevicePreset {
        name: "Pixel 7",
        width: 412,
        height: 915,
        device_scale_factor: "2.625",
        mobile: true,
        user_agent: "Mozilla/5.0 (Linux; Android 13; Pixel 7)",
    }
}

/// A desktop screen of 1920 by 1080.
pub fn desktop_1080p() -> (p: DevicePreset)
    ensures
        p.name@ == "Desktop 1080p"@,
        p.width == 1920 && p.height == 1080 && !p.mobile,
        p.device_scale_factor@ == "1.0"@,
        p.user_agent@ == ""@,
{
    DevicePreset {
        name: "Desktop 1080p",
        width: 1920,
        height: 1080,
        device_scale_factor: "1.0",
        mobile: false,
        user_agent: "",
    }
}

/// A desktop screen of 2560 by 1440.
pub fn desktop_1440p() -> (p: DevicePreset)
    ensures
        p.name@ == "Desktop 1440p"@,
        p.width == 2560 && p.height == 1440 && !p.mobile,
        p.device_scale_factor@ == "1.0"@,
        p.user_agent@ == ""@,
{
    DevicePreset {
        name: "Desktop 1440p",
        width: 2560,
        height: 1440,
        device_scale_factor: "1.0",
        mobile: false,
        user_agent: "",
    }
}

/// The parameters of `Emulation.setDeviceMetricsOverride`.
pub open spec fn device_metrics_params(
    width: i32,
    height: i32,
    device_scale_factor: Seq<char>,
    mobile: bool,
    screen_orientation: Option<ScreenOrientation>,
    display_feature: Option<DisplayFeature>,
) -> Seq<char> {
    object(raw_m("deviceScaleFactor"@, device_scale_factor) + match display_feature {
        Some(d) => obj_m("displayFeature"@, display_feature_members(d)),
        None => Seq::empty(),
    } + int_m("height"@, height as int) + bool_m("mobile"@, mobile) + match screen_orientation {
        Some(s) => obj_m("screenOrientation"@, screen_orientation_members(s)),
        None => Seq::empty(),
    } + int_m("width"@, width as int))
}

/// The `Emulation.setDeviceMetricsOverride` command: emulate a screen of the
/// given size, pixel ratio (as a JSON number) and kind, turned and folded as
/// given. Each optional parameter is sent only when given.
pub fn set_device_metrics_override(
    width: i32,
    height: i32,
    device_scale_factor: &str,
    mobile: bool,
    screen_orientation: Option<&ScreenOrientation>,
    display_feature: Option<&DisplayFeature>,
) -> (c: Command)
    ensures
        c.method@ == "Emulation.setDeviceMetricsOverride"@,
        c.params@ == device_metrics_params(width, height, device_scale_factor@, mobile,
            match screen_orientation { Some(s) => Some(*s), None => None },
            match display_feature { Some(d) => Some(*d), None => None }),
{
    let mut p = Params::new();
    p.raw("deviceScaleFactor", device_scale_factor);
    let ghost m1 = p.members();
    match display_feature {
        Some(d) => p.nested("displayFeature", display_feature_params(d)),
        None => {},
    }
    let ghost m2 = p.members();
    p.integer("height", height as i64);
    p.flag("mobile", mobile);
    let ghost m3 = p.members();
    match screen_orientation {
        Some(s) => p.nested("screenOrientation", screen_orientation_params(s)),
        None => {},
    }
    let ghost m4 = p.members();
    p.integer("width", width as i64);
    proof {
        let df: Seq<Seq<char>> = match display_feature {
            Some(d) => obj_m("displayFeature"@, display_feature_members(*d)),
            None => Seq::empty(),
        };
        let so: Seq<Seq<char>> = match screen_orientation {
            Some(s) => obj_m("screenOrientation"@, screen_orientation_members(*s)),
            None => Seq::empty(),
        };
        assert(m2 =~= m1 + df);
        assert(m4 =~= m3 + so);
        assert(p.members() =~= raw_m("deviceScaleFactor"@, device_scale_factor@) + df + int_m("height"@, height as int)
            + bool_m("mobile"@, mobile) + so + int_m("width"@, width as int));
    }
    p.command("Emulation.setDeviceMetricsOverride")
}

/// The `Emulation.setEmulatedMedia` command: emulate a media type and media
/// features. Each optional parameter is sent only when given.
pub fn set_emulated_media(media: Option<&str>, features: Option<&Vec<MediaFeature>>) -> (c: Command)
    ensures
        c.method@ == "Emulation.setEmulatedMedia"@,
        c.params@ == object(match features {
            Some(fs) => objs_m("features"@, fs@.map_values(|f: MediaFeature| media_feature_members(f))),
            None => Seq::empty(),
        } + opt_str_m("media"@, media)),
{
    let mut p = Params::new();
    let ghost fm: Seq<Seq<char>> = match features {
        Some(fs) => objs_m("features"@, fs@.map_values(|f: MediaFeature| media_feature_members(f))),
        None => Seq::empty(),
    };
    match features {
        Some(fs) => {
            let mut items: Vec<Params> = Vec::new();
            let mut i: usize = 0;
            while i < fs.len()
                invariant
                    i <= fs@.len(),
                    items@.len() == i,
                    forall|j: int| 0 <= j < i ==> #[trigger] items@[j].members() == media_feature_members(fs@[j]),
                decreases fs@.len() - i,
            {
                items.push(media_feature_params(&fs[i]));
                i = i + 1;
            }
            assert(items@.map_values(|q: Params| q.members()) =~= fs@.map_values(|f: MediaFeature| media_feature_members(f)));
            p.nested_list("features", items);
        },
        None => {},
    }
    assert(p.members() =~= fm);
    p.opt_text("media", media);
    assert(p.members() =~= fm + opt_str_m("media"@, media));
    p.command("Emulation.setEmulatedMedia")
}

/// The commands that emulate a device: its screen; its user agent, unless
/// that is empty; and touch input with five points, for a mobile device.
pub open spec fn device_preset_commands(p: DevicePreset) -> Seq<(Seq<char>, Seq<char>)> {
    seq![("Emulation.setDeviceMetricsOverride"@, device_metrics_params(p.width, p.height, p.device_scale_factor@,
        p.mobile, None, None))]
        + (if p.user_agent@.len() > 0 {
            seq![("Emulation.setUserAgentOverride"@, object(str_m("userAgent"@, p.user_agent@)))]
        } else {
            Seq::empty()
        })
        + (if p.mobile {
            seq![("Emulation.setTouchEmulationEnabled"@, object(bool_m("enabled"@, true) + int_m("maxTouchPoints"@, 5)))]
        } else {
            Seq::empty()
        })
}

/// The method and parameters of each command.
pub open spec fn command_texts(cs: Seq<Command>) -> Seq<(Seq<char>, Seq<char>)> {
    cs.map_values(|c: Command| (c.method@, c.params@))
}

/// The commands, in order, that emulate a device.
pub fn apply_device_preset(preset: &DevicePreset) -> (r: Vec<Command>)
    ensures
        command_texts(r@) == device_preset_commands(*preset),
{
    let mut r: Vec<Command> = Vec::new();
    r.push(set_device_metrics_override(preset.width, preset.height, preset.device_scale_factor, preset.mobile, None, None));
    let ghost first = command_texts(r@);
    proof {
        reveal_strlit("");
    }
    if !crate::text::str_eq(preset.user_agent, "") {
        let c = set_user_agent_override(preset.user_agent, None, None);
        assert(c.params@ == object(str_m("userAgent"@, preset.user_agent@))) by {
            assert(opt_str_m("acceptLanguage"@, None) + opt_str_m("platform"@, None) + str_m("userAgent"@, preset.user_agent@)
                =~= str_m("userAgent"@, preset.user_agent@));
        }
        r.push(c);
    }
    let ghost second = command_texts(r@);
    if preset.mobile {
        let c = set_touch_emulation_enabled(true, Some(5));
        r.push(c);
    }
    proof {
        let ua: Seq<(Seq<char>, Seq<char>)> = if preset.user_agent@.len() > 0 {
            seq![("Emulation.setUserAgentOverride"@, object(str_m("userAgent"@, preset.user_agent@)))]
        } else {
            Seq::empty()
        };
        if preset.user_agent@.len() > 0 {
            assert(preset.user_agent@ != ""@);
        } else {
            assert(preset.user_agent@ =~= ""@);
        }
        assert(second =~= first + ua);
    }
    assert(command_texts(r@) =~= device_preset_commands(*preset));
    r
}

/// The `Emulation.clearDeviceMetricsOverride` command.
pub fn clear_device_metrics_override() -> (c: Command)
    ensures
        c.method@ == "Emulation.clearDeviceMetricsOverride"@,
        c.params@ == object(Seq::empty()),
{
    let p = Params::new();
    p.command("Emulation.clearDeviceMetricsOverride")
}

/// The `Emulation.setGeolocationOverride` command. Numbers with a fraction are
/// given as their JSON text. Each optional parameter is sent only when given.
pub fn set_geolocation_override(
    latitude: Option<&str>,
    longitude: Option<&str>,
    accuracy: Option<&str>,
) -> (c: Command)
    ensures
        c.method@ == "Emulation.setGeolocationOverride"@,
        c.params@ == object(opt_raw_m("accuracy"@, accuracy) + opt_raw_m("latitude"@, latitude)
            + opt_raw_m("longitude"@, longitude)),
{
    let mut p = Params::new();
    p.opt_raw("accuracy", accuracy);
    p.opt_raw("latitude", latitude);
    p.opt_raw("longitude", longitude);
    assert(p.members() =~= opt_raw_m("accuracy"@, accuracy) + opt_raw_m("latitude"@, latitude)
        + opt_raw_m("longitude"@, longitude));
    p.command("Emulation.setGeolocationOverride")
}

/// The `Emulation.clearGeolocationOverride` command.
pub fn clear_geolocation_override() -> (c: Command)
    ensures
        c.method@ == "Emulation.clearGeolocationOverride"@,
        c.params@ == object(Seq::empty()),
{
    let p = Params::new();
    p.command("Emulation.clearGeolocationOverride")
}

/// The `Emulation.setUserAgentOverride` command. Each optional parameter is
/// sent only when given.
pub fn set_user_agent_override(
    user_agent: &str,
    accept_language: Option<&str>,
    platform: Option<&str>,
) -> (c: Command)
    ensures
        c.method@ == "Emulation.setUserAgentOverride"@,
        c.params@ == object(opt_str_m("acceptLanguage"@, accept_language)
            + opt_str_m("platform"@, platform)
            + str_m("userAgent"@, user_agent@)),
{
    let mut p = Params::new();
    p.opt_text("acceptLanguage", accept_language);
    p.opt_text("platform", platform);
    p.text("userAgent", user_agent);
    assert(p.members() =~= opt_str_m("acceptLanguage"@, accept_language)
        + opt_str_m("platform"@, platform) + str_m("userAgent"@, user_agent@));
    p.command("Emulation.setUserAgentOverride")
}

/// The `Emulation.setTimezoneOverride` command.
pub fn set_timezone_override(timezone_id: &str) -> (c: Command)
    ensures
        c.method@ == "Emulation.setTimezoneOverride"@,
        c.params@ == object(str_m("timezoneId"@, timezone_id@)),
{
    let mut p = Params::new();
    p.text("timezoneId", timezone_id);
    assert(p.members() =~= str_m("timezoneId"@, timezone_id@));
    p.command("Emulation.setTimezoneOverride")
}

/// The `Emulation.setLocaleOverride` command. Its optional parameter is sent
/// only when given.
pub fn set_locale_override(locale: Option<&str>) -> (c: Command)
    ensures
        c.method@ == "Emulation.setLocaleOverride"@,
        c.params@ == object(opt_str_m("locale"@, locale)),
{
    let mut p = Params::new();
    p.opt_text("locale", locale);
    assert(p.members() =~= opt_str_m("locale"@, locale));
    p.command("Emulation.setLocaleOverride")
}

/// The `Emulation.setTouchEmulationEnabled` command. Its optional parameter is
/// sent only when given.
pub fn set_touch_emulation_enabled(enabled: bool, max_touch_points: Option<i32>) -> (c: Command)
    ensures
        c.method@ == "Emulation.setTouchEmulationEnabled"@,
        c.params@ == object(bool_m("enabled"@, enabled)
            + opt_i32_m("maxTouchPoints"@, max_touch_points)),
{
    let mut p = Params::new();
    p.flag("enabled", enabled);
    p.opt_i32("maxTouchPoints", max_touch_points);
    assert(p.members() =~= bool_m("enabled"@, enabled)
        + opt_i32_m("maxTouchPoints"@, max_touch_points));
    p.command("Emulation.setTouchEmulationEnabled")
}

/// The `Emulation.setCPUThrottlingRate` command. Numbers with a fraction are
/// given as their JSON text.
pub fn set_cpu_throttling_rate(rate: &str) -> (c: Command)
    ensures
        c.method@ == "Emulation.setCPUThrottlingRate"@,
        c.params@ == object(raw_m("rate"@, rate@)),
{
    let mut p = Params::new();
    p.raw("rate", rate);
    assert(p.members() =~= raw_m("rate"@, rate@));
    p.command("Emulation.setCPUThrottlingRate")
}

/// The `Emulation.setIdleOverride` command.
pub fn set_idle_override(is_user_active: bool, is_screen_unlocked: bool) -> (c: Command)
    ensures
        c.method@ == "Emulation.setIdleOverride"@,
        c.params@ == object(bool_m("isScreenUnlocked"@, is_screen_unlocked)
            + bool_m("isUserActive"@, is_user_active)),
{
    let mut p = Params::new();
    p.flag("isScreenUnlocked", is_screen_unlocked);
    p.flag("isUserActive", is_user_active);
    assert(p.members() =~= bool_m("isScreenUnlocked"@, is_screen_unlocked)
        + bool_m("isUserActive"@, is_user_active));
    p.command("Emulation.setIdleOverride")
}

/// The `Emulation.clearIdleOverride` command.
pub fn clear_idle_override() -> (c: Command)
    ensures
        c.method@ == "Emulation.clearIdleOverride"@,
        c.params@ == object(Seq::empty()),
{
    let p = Params::new();
    p.command("Emulation.clearIdleOverride")
}

/// The `Emulation.setScrollbarsHidden` command.
pub fn set_scrollbars_hidden(hidden: bool) -> (c: Command)
    ensures
        c.method@ == "Emulation.setScrollbarsHidden"@,
        c.params@ == object(bool_m("hidden"@, hidden)),
{
    let mut p = Params::new();
    p.flag("hidden", hidden);
    assert(p.members() =~= bool_m("hidden"@, hidden));
    p.command("Emulation.setScrollbarsHidden")
}

/// The `Emulation.setAutoDarkModeOverride` command. Its optional parameter is
/// sent only when given.
pub fn set_auto_dark_mode_override(enabled: Option<bool>) -> (c: Command)
    ensures
        c.method@ == "Emulation.setAutoDarkModeOverride"@,
        c.params@ == object(opt_bool_m("enabled"@, enabled)),
{
    let mut p = Params::new();
    p.opt_flag("enabled", enabled);
    assert(p.members() =~= opt_bool_m("enabled"@, enabled));
    p.command("Emulation.setAutoDarkModeOverride")
}

/// The `Emulation.setEmulatedVisionDeficiency` command.
pub fn set_emulated_vision_deficiency(type_: &str) -> (c: Command)
    ensures
        c.method@ == "Emulation.setEmulatedVisionDeficiency"@,
        c.params@ == object(str_m("type"@, type_@)),
{
    let mut p = Params::new();
    p.text("type", type_);
    assert(p.members() =~= str_m("type"@, type_@));
    p.command("Emulation.setEmulatedVisionDeficiency")
}

/// The `Emulation.setDefaultBackgroundColorOverride` command. Its optional
/// parameter is sent only when given.
pub fn set_default_background_color_override(color: Option<&str>) -> (c: Command)
    ensures
        c.method@ == "Emulation.setDefaultBackgroundColorOverride"@,
        c.params@ == object(opt_raw_m("color"@, color)),
{
    let mut p = Params::new();
    p.opt_raw("color", color);
    assert(p.members() =~= opt_raw_m("color"@, color));
    p.command("Emulation.setDefaultBackgroundColorOverride")
}

/// The `Emulation.setScriptExecutionDisabled` command.
pub fn set_script_execution_disabled(disabled: bool) -> (c: Command)
    ensures
        c.method@ == "Emulation.setScriptExecutionDisabled"@,
        c.params@ == object(bool_m("value"@, disabled)),
{
    let mut p = Params::new();
    p.flag("value", disabled);
    assert(p.members() =~= bool_m("value"@, disabled));
    p.command("Emulation.setScriptExecutionDisabled")
}

/// The `Emulation.setDocumentCookieDisabled` command.
pub fn set_document_cookie_disabled(disabled: bool) -> (c: Command)
    ensures
        c.method@ == "Emulation.setDocumentCookieDisabled"@,
        c.params@ == object(bool_m("disabled"@, disabled)),
{
    let mut p = Params::new();
    p.flag("disabled", disabled);
    assert(p.members() =~= bool_m("disabled"@, disabled));
    p.command("Emulation.setDocumentCookieDisabled")
}

/// The `Emulation.setFocusEmulationEnabled` command.
pub fn set_focus_emulation_enabled(enabled: bool) -> (c: Command)
    ensures
        c.method@ == "Emulation.setFocusEmulationEnabled"@,
        c.params@ == object(bool_m("enabled"@, enabled)),
{
    let mut p = Params::new();
    p.flag("enabled", enabled);
    assert(p.members() =~= bool_m("enabled"@, enabled));
    p.command("Emulation.setFocusEmulationEnabled")
}

/// The `Emulation.setHardwareConcurrencyOverride` command.
pub fn set_hardware_concurrency_override(hardware_concurrency: i32) -> (c: Command)
    ensures
        c.method@ == "Emulation.setHardwareConcurrencyOverride"@,
        c.params@ == object(int_m("hardwareConcurrency"@, hardware_concurrency as int)),
{
    let mut p = Params::new();
    p.integer("hardwareConcurrency", hardware_concurrency as i64);
    assert(p.members() =~= int_m("hardwareConcurrency"@, hardware_concurrency as int));
    p.command("Emulation.setHardwareConcurrencyOverride")
}

} // verus!
