use neobrowser::cdp::emulation::{
    apply_device_preset, clear_device_metrics_override, clear_geolocation_override, iphone_15_pro,
    set_auto_dark_mode_override, set_cpu_throttling_rate, set_device_metrics_override, set_emulated_media,
    set_emulated_vision_deficiency, set_geolocation_override, set_idle_override, set_locale_override,
    set_scrollbars_hidden, set_timezone_override, set_touch_emulation_enabled, set_user_agent_override,
    MediaFeature,
};
use neobrowser::cdp::Command;

fn params(c: &Command) -> serde_json::Value {
    serde_json::from_str(&c.params).unwrap()
}

#[test]
fn emulation_set_device_metrics() {
    let c = set_device_metrics_override(375, 812, "3.0", true, None, None);
    assert_eq!(c.method, "Emulation.setDeviceMetricsOverride");
    let p = params(&c);
    assert_eq!(p["width"], 375);
    assert_eq!(p["height"], 812);
    assert_eq!(p["deviceScaleFactor"], 3.0);
    assert_eq!(p["mobile"], true);
}

#[test]
fn emulation_clear_device_metrics() {
    let c = clear_device_metrics_override();
    assert_eq!(c.method, "Emulation.clearDeviceMetricsOverride");
    assert_eq!(c.params, "{}");
}

#[test]
fn emulation_set_geolocation() {
    let c = set_geolocation_override(Some("40.4168"), Some("-3.7038"), Some("100.0"));
    assert_eq!(c.method, "Emulation.setGeolocationOverride");
    let p = params(&c);
    assert_eq!(p["latitude"], 40.4168);
    assert_eq!(p["longitude"], -3.7038);
    assert_eq!(p["accuracy"], 100.0);
}

#[test]
fn emulation_clear_geolocation() {
    let c = clear_geolocation_override();
    assert_eq!(c.method, "Emulation.clearGeolocationOverride");
    assert_eq!(c.params, "{}");
}

#[test]
fn emulation_set_user_agent() {
    let c = set_user_agent_override("CustomBot/1.0", Some("en-US"), Some("Linux"));
    assert_eq!(c.method, "Emulation.setUserAgentOverride");
    let p = params(&c);
    assert_eq!(p["userAgent"], "CustomBot/1.0");
    assert_eq!(p["acceptLanguage"], "en-US");
    assert_eq!(p["platform"], "Linux");
}

#[test]
fn emulation_set_emulated_media_dark() {
    let fs = vec![MediaFeature { name: "prefers-color-scheme".to_string(), value: "dark".to_string() }];
    let c = set_emulated_media(None, Some(&fs));
    assert_eq!(c.method, "Emulation.setEmulatedMedia");
    let p = params(&c);
    assert_eq!(p["features"][0]["name"], "prefers-color-scheme");
    assert_eq!(p["features"][0]["value"], "dark");
}

#[test]
fn emulation_set_timezone() {
    let p = params(&set_timezone_override("Europe/Madrid"));
    assert_eq!(p["timezoneId"], "Europe/Madrid");
}

#[test]
fn emulation_set_locale() {
    let c = set_locale_override(Some("es-ES"));
    assert_eq!(c.method, "Emulation.setLocaleOverride");
    assert_eq!(params(&c)["locale"], "es-ES");
}

#[test]
fn emulation_set_touch_emulation() {
    let p = params(&set_touch_emulation_enabled(true, Some(5)));
    assert_eq!(p["enabled"], true);
    assert_eq!(p["maxTouchPoints"], 5);
}

#[test]
fn emulation_set_cpu_throttling() {
    let c = set_cpu_throttling_rate("4.0");
    assert_eq!(c.method, "Emulation.setCPUThrottlingRate");
    assert_eq!(params(&c)["rate"], 4.0);
}

#[test]
fn emulation_set_idle_override() {
    let p = params(&set_idle_override(true, true));
    assert_eq!(p["isUserActive"], true);
    assert_eq!(p["isScreenUnlocked"], true);
}

#[test]
fn emulation_set_vision_deficiency() {
    let c = set_emulated_vision_deficiency("deuteranopia");
    assert_eq!(c.method, "Emulation.setEmulatedVisionDeficiency");
    assert_eq!(params(&c)["type"], "deuteranopia");
}

#[test]
fn emulation_apply_device_preset_iphone() {
    let cs = apply_device_preset(&iphone_15_pro());
    assert_eq!(cs.len(), 3);
    assert_eq!(cs[0].method, "Emulation.setDeviceMetricsOverride");
    let m = params(&cs[0]);
    assert_eq!(m["width"], 393);
    assert_eq!(m["height"], 852);
    assert_eq!(m["deviceScaleFactor"], 3.0);
    assert_eq!(m["mobile"], true);
    assert_eq!(cs[1].method, "Emulation.setUserAgentOverride");
    assert!(params(&cs[1])["userAgent"].as_str().unwrap().contains("iPhone"));
    assert_eq!(cs[2].method, "Emulation.setTouchEmulationEnabled");
    let t = params(&cs[2]);
    assert_eq!(t["enabled"], true);
    assert_eq!(t["maxTouchPoints"], 5);
}

#[test]
fn emulation_scrollbars_hidden() {
    let c = set_scrollbars_hidden(true);
    assert_eq!(c.method, "Emulation.setScrollbarsHidden");
    assert_eq!(params(&c)["hidden"], true);
}

#[test]
fn emulation_set_auto_dark_mode() {
    let c = set_auto_dark_mode_override(Some(true));
    assert_eq!(c.method, "Emulation.setAutoDarkModeOverride");
    assert_eq!(params(&c)["enabled"], true);
}
