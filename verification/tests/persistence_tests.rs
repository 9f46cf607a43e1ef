use cosmic_bing_wallpaper::config::default_fetch_on_startup;
use cosmic_bing_wallpaper::config::expand_tilde;
use cosmic_bing_wallpaper::config::markets;
use cosmic_bing_wallpaper::config::Config;
use cosmic_bing_wallpaper::timer::TimerState;
use cosmic_bing_wallpaper::timer_doc::emit_timer_doc;
use cosmic_bing_wallpaper::timer_doc::parse_timer_doc;
use cosmic_bing_wallpaper::timer_doc::timer_state_from_doc;

#[test]
fn emitted_document_matches_the_common_json_layout() {
    // The canonical text must be exactly what a pretty JSON writer
    // produces for the same record, so files written by either read
    // back the same.
    let st = TimerState { enabled: true, last_fetch: None };
    let doc = emit_timer_doc(&st);

    let mut m = serde_json::Map::new();
    m.insert(String::from("enabled"), serde_json::Value::Bool(true));
    m.insert(String::from("last_fetch"), serde_json::Value::Null);
    let expected = serde_json::to_string_pretty(&serde_json::Value::Object(m)).unwrap();
    assert_eq!(doc, expected);

    let st = TimerState {
        enabled: false,
        last_fetch: Some(String::from("2026-02-05T08:03:00+01:00")),
    };
    let doc = emit_timer_doc(&st);
    let mut m = serde_json::Map::new();
    m.insert(String::from("enabled"), serde_json::Value::Bool(false));
    m.insert(
        String::from("last_fetch"),
        serde_json::Value::String(String::from("2026-02-05T08:03:00+01:00")),
    );
    let expected = serde_json::to_string_pretty(&serde_json::Value::Object(m)).unwrap();
    assert_eq!(doc, expected);
}

#[test]
fn direct_file_fallback_round_trips_the_enabled_flag() {
    // A client that cannot reach the owning process writes the record
    // itself; the owning process started later must read it back as if
    // it had been set over IPC.
    let mut st = TimerState::default();
    st.set_enabled(true);
    let written = emit_timer_doc(&st);

    let reread = timer_state_from_doc(&written);
    assert!(reread.enabled);
    assert!(reread.last_fetch.is_none());
}

#[test]
fn document_round_trips_with_a_timestamp() {
    let mut st = TimerState { enabled: true, last_fetch: None };
    st.set_last_fetch(String::from("2026-02-05T08:03:00.123+01:00"));
    let doc = emit_timer_doc(&st);
    let back = parse_timer_doc(&doc).expect("canonical text must parse");
    assert!(back.enabled);
    assert_eq!(
        back.last_fetch.as_deref(),
        Some("2026-02-05T08:03:00.123+01:00")
    );
}

#[test]
fn damaged_documents_fall_back_to_the_default_record() {
    assert!(parse_timer_doc("").is_none());
    assert!(parse_timer_doc("{}").is_none());
    assert!(parse_timer_doc("{\n  \"enabled\": maybe,\n  \"last_fetch\": null\n}").is_none());

    // Only the canonical layout that save writes is accepted; a
    // reformatted document counts as damaged and loads as default.
    assert!(parse_timer_doc("{\"enabled\":true,\"last_fetch\":null}").is_none());

    let st = timer_state_from_doc("garbage");
    assert!(!st.enabled);
    assert!(st.last_fetch.is_none());

    let st = timer_state_from_doc(&emit_timer_doc(&TimerState {
        enabled: false,
        last_fetch: None,
    }));
    assert!(!st.enabled);
    assert!(st.last_fetch.is_none());
}

#[test]
fn config_defaults() {
    let c = Config::default();
    assert_eq!(c.wallpaper_dir, "~/Pictures/BingWallpapers");
    assert_eq!(c.market, "en-US");
    assert!(!c.auto_update);
    assert_eq!(c.keep_days, 30);
    assert!(c.fetch_on_startup);
    assert!(default_fetch_on_startup());
}

#[test]
fn tilde_expansion() {
    assert_eq!(
        expand_tilde("~/Pictures/BingWallpapers", "/home/u"),
        "/home/u/Pictures/BingWallpapers"
    );
    assert_eq!(expand_tilde("~", "/home/u"), "/home/u");
    assert_eq!(expand_tilde("/absolute/path", "/home/u"), "/absolute/path");
    assert_eq!(expand_tilde("relative/~", "/home/u"), "relative/~");
}

#[test]
fn market_table_is_complete() {
    let ms = markets();
    assert_eq!(ms.len(), 21);
    assert_eq!(ms[0].code, "en-AU");
    assert_eq!(ms[0].name, "Australia");
    assert_eq!(ms[7].code, "de-DE");
    assert_eq!(ms[7].name, "Germany");
    assert_eq!(ms[20].code, "en-US");
    assert_eq!(ms[20].name, "United States");
}
