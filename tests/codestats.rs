use codestats::config::Config;
use codestats::events::CodeStatsEvent;
use codestats::language::{resolve_language, Document, LanguageConfiguration};
use codestats::pulse::{build_pulse, pulse_url};
use codestats::scheduler::{typeablecmd_send_info, CodeStatsHandler, FlushOutcome, Step};
use codestats::text::decimal_string;
use codestats::xp::{
    add_xp, count_total_xp, info_text, snapshot_and_clear, xp_empty, xp_for, XpStore,
};

const T0: i64 = 1_700_000_000_000;

fn keyed() -> Config {
    Config { server: "https://codestats.net/".to_string(), key: Some("SECRET-REDACTED".to_string()) }
}

fn pairs(xps: &XpStore) -> Vec<(String, u32)> {
    xps.entries()
}

#[test]
fn increments_are_summed_per_language() {
    let mut xps = XpStore::new();
    add_xp(&mut xps, "Rust".to_string(), 1);
    add_xp(&mut xps, "Go".to_string(), 2);
    add_xp(&mut xps, "Rust".to_string(), 4);
    assert_eq!(pairs(&xps), vec![("Rust".to_string(), 5), ("Go".to_string(), 2)]);
    assert_eq!(count_total_xp(&xps), 7);
}

#[test]
fn snapshot_takes_everything_and_clears() {
    let mut xps = XpStore::new();
    for _ in 0..3 {
        add_xp(&mut xps, "Rust".to_string(), 1);
    }
    add_xp(&mut xps, "Go".to_string(), 1);
    let snap = snapshot_and_clear(&mut xps);
    assert_eq!(pairs(&snap), vec![("Rust".to_string(), 3), ("Go".to_string(), 1)]);
    assert!(pairs(&xps).is_empty());
    assert!(xp_empty(&xps));
    add_xp(&mut xps, "Go".to_string(), 2);
    assert_eq!(pairs(&xps), vec![("Go".to_string(), 2)]);
}

#[test]
fn empty_means_no_nonzero_counter() {
    let mut xps = XpStore::new();
    assert!(xp_empty(&xps));
    add_xp(&mut xps, "Rust".to_string(), 0);
    assert!(xp_empty(&xps));
    add_xp(&mut xps, "Go".to_string(), 1);
    assert!(!xp_empty(&xps));
    assert_eq!(count_total_xp(&xps), 1);
}

#[test]
fn counter_reaches_its_largest_value() {
    let mut xps = XpStore::new();
    add_xp(&mut xps, "Rust".to_string(), u32::MAX - 1);
    add_xp(&mut xps, "Rust".to_string(), 1);
    assert_eq!(count_total_xp(&xps), u32::MAX);
}

#[test]
fn language_is_resolved_by_the_three_rules() {
    let mapped = Document {
        language: Some(LanguageConfiguration {
            language_id: "rust".to_string(),
            codestats_language: Some("Rust".to_string()),
        }),
    };
    assert_eq!(resolve_language(&mapped), Some("Rust".to_string()));
    let unmapped = Document {
        language: Some(LanguageConfiguration {
            language_id: "nix".to_string(),
            codestats_language: None,
        }),
    };
    assert_eq!(resolve_language(&unmapped), None);
    let plain = Document { language: None };
    assert_eq!(resolve_language(&plain), Some("Plain text".to_string()));
}

#[test]
fn default_config_has_server_and_no_key() {
    let c = Config::default();
    assert_eq!(c.server, "https://codestats.net/");
    assert!(c.key.is_none());
}

#[test]
fn pulse_url_appends_the_api_path() {
    assert_eq!(pulse_url("https://codestats.net/"), "https://codestats.net/api/my/pulses");
}

#[test]
fn decimal_text() {
    assert_eq!(decimal_string(0), "0");
    assert_eq!(decimal_string(7), "7");
    assert_eq!(decimal_string(1005), "1005");
    assert_eq!(decimal_string(u32::MAX), "4294967295");
}

#[test]
fn payload_round_trip() {
    let mut xps = XpStore::new();
    add_xp(&mut xps, "Rust".to_string(), 3);
    add_xp(&mut xps, "Go".to_string(), 1);
    let p = build_pulse(T0, &xps);
    assert_eq!(p.xps.len(), 2);
    assert_eq!((p.xps[0].language.as_str(), p.xps[0].xp), ("Rust", 3));
    assert_eq!((p.xps[1].language.as_str(), p.xps[1].xp), ("Go", 1));
    assert!(chrono::DateTime::parse_from_rfc3339(&p.coded_at).is_ok());
    let body = p.to_json();
    let v: serde_json::Value = serde_json::from_str(&body).unwrap();
    assert_eq!(v["coded_at"].as_str(), Some(p.coded_at.as_str()));
    let list = v["xps"].as_array().unwrap();
    assert_eq!(list.len(), 2);
    assert_eq!(list[0]["language"].as_str(), Some("Rust"));
    assert_eq!(list[0]["xp"].as_u64(), Some(3));
    assert_eq!(list[1]["language"].as_str(), Some("Go"));
    assert_eq!(list[1]["xp"].as_u64(), Some(1));
}

#[test]
fn payload_json_is_compact_and_escaped() {
    let mut xps = XpStore::new();
    add_xp(&mut xps, "C\"s".to_string(), 12);
    let p = build_pulse(T0, &xps);
    assert_eq!(p.coded_at, "2023-11-14T22:13:20+00:00");
    assert_eq!(
        p.to_json(),
        "{\"coded_at\":\"2023-11-14T22:13:20+00:00\",\"xps\":[{\"language\":\"C\\\"s\",\"xp\":12}]}"
    );
}

#[test]
fn update_then_timer_sends_after_quiet_window() {
    let config = keyed();
    let mut xps = XpStore::new();
    let mut h = CodeStatsHandler::new(T0);
    add_xp(&mut xps, "Rust".to_string(), 1);
    let step = h.handle_event(CodeStatsEvent::Update, T0 + 2_000, &config, &mut xps);
    assert!(matches!(step, Step::Scheduled(d) if d == T0 + 12_000));
    assert!(h.on_timer(&config, T0 + 11_999, &mut xps).is_none());
    match h.on_timer(&config, T0 + 12_000, &mut xps) {
        Some(FlushOutcome::Send(req)) => {
            assert_eq!(req.url, "https://codestats.net/api/my/pulses");
            assert_eq!(req.key, "SECRET-REDACTED");
            assert_eq!(req.payload.coded_at, "2023-11-14T22:13:32+00:00");
            assert_eq!(req.payload.xps.len(), 1);
            assert_eq!(req.payload.xps[0].language, "Rust");
            assert_eq!(req.payload.xps[0].xp, 1);
        }
        other => panic!("expected a send, got {:?}", other),
    }
    assert_eq!(h.last_send(), T0 + 12_000);
    assert!(h.trigger().is_none());
    assert!(h.deadline().is_none());
    assert!(pairs(&xps).is_empty());
}

#[test]
fn rate_limited_flush_drops_the_snapshot() {
    let config = keyed();
    let mut xps = XpStore::new();
    let mut h = CodeStatsHandler::new(T0 + 5_000);
    add_xp(&mut xps, "Go".to_string(), 1);
    let step = h.handle_event(CodeStatsEvent::Update, T0 + 1_000, &config, &mut xps);
    assert!(matches!(step, Step::Scheduled(d) if d == T0 + 11_000));
    let out = h.on_timer(&config, T0 + 11_000, &mut xps);
    assert!(matches!(out, Some(FlushOutcome::RateLimited)));
    assert!(pairs(&xps).is_empty());
    assert_eq!(h.last_send(), T0 + 5_000);
}

#[test]
fn burst_of_updates_keeps_one_deadline() {
    let config = keyed();
    let mut xps = XpStore::new();
    let mut h = CodeStatsHandler::new(T0);
    for k in 0..5i64 {
        add_xp(&mut xps, "Rust".to_string(), 1);
        h.handle_event(CodeStatsEvent::Update, T0 + 20_000 + k * 1_000, &config, &mut xps);
    }
    assert_eq!(h.deadline(), Some(T0 + 34_000));
    assert!(h.on_timer(&config, T0 + 33_999, &mut xps).is_none());
    assert_eq!(count_total_xp(&xps), 5);
    let out = h.on_timer(&config, T0 + 34_000, &mut xps);
    assert!(matches!(out, Some(FlushOutcome::Send(ref r)) if r.payload.xps[0].xp == 5));
}

#[test]
fn force_send_ignores_the_rate_limit() {
    let config = keyed();
    let mut xps = XpStore::new();
    let mut h = CodeStatsHandler::new(T0);
    add_xp(&mut xps, "Rust".to_string(), 2);
    let step = h.handle_event(CodeStatsEvent::ForceSend, T0 + 1, &config, &mut xps);
    assert!(matches!(step, Step::Flushed(FlushOutcome::Send(_))));
    assert_eq!(h.last_send(), T0 + 1);
    assert!(h.deadline().is_none());
}

#[test]
fn send_now_command_asks_for_a_forced_flush() {
    assert_eq!(typeablecmd_send_info(), CodeStatsEvent::ForceSend);
}

#[test]
fn xp_for_reads_one_counter() {
    let mut xps = XpStore::new();
    add_xp(&mut xps, "Rust".to_string(), 3);
    add_xp(&mut xps, "Go".to_string(), 1);
    add_xp(&mut xps, "Rust".to_string(), 2);
    assert_eq!(xp_for(&xps, &"Rust".to_string()), 5);
    assert_eq!(xp_for(&xps, &"Go".to_string()), 1);
    assert_eq!(xp_for(&xps, &"Zig".to_string()), 0);
}

#[test]
fn payload_json_escapes_control_characters() {
    let mut xps = XpStore::new();
    add_xp(&mut xps, "a\\b\t\u{1}\u{1f}\u{8}\u{c}\r\n\u{e9}".to_string(), 1);
    let p = build_pulse(T0, &xps);
    assert_eq!(
        p.to_json(),
        "{\"coded_at\":\"2023-11-14T22:13:20+00:00\",\"xps\":[{\"language\":\"a\\\\b\\t\\u0001\\u001f\\b\\f\\r\\n\u{e9}\",\"xp\":1}]}"
    );
}

#[test]
fn cancel_keeps_counters_and_never_sends() {
    let config = keyed();
    let mut xps = XpStore::new();
    let mut h = CodeStatsHandler::new(T0);
    add_xp(&mut xps, "Rust".to_string(), 1);
    h.handle_event(CodeStatsEvent::Update, T0 + 20_000, &config, &mut xps);
    assert!(matches!(h.handle_event(CodeStatsEvent::Cancel, T0 + 21_000, &config, &mut xps), Step::Cancelled));
    assert!(h.on_timer(&config, T0 + 100_000, &mut xps).is_none());
    assert_eq!(pairs(&xps), vec![("Rust".to_string(), 1)]);
    assert!(matches!(h.finish_debounce(&config, T0 + 100_000, &mut xps), FlushOutcome::NoTriggerSet));
}

#[test]
fn without_key_nothing_is_sent_and_counters_grow() {
    let config = Config::default();
    let mut xps = XpStore::new();
    let mut h = CodeStatsHandler::new(T0);
    for k in 1..=4i64 {
        add_xp(&mut xps, "Rust".to_string(), 1);
        h.handle_event(CodeStatsEvent::Update, T0 + k * 20_000, &config, &mut xps);
        let out = h.on_timer(&config, T0 + k * 20_000 + 10_000, &mut xps);
        assert!(matches!(out, Some(FlushOutcome::ConfigurationMissing)));
    }
    assert_eq!(count_total_xp(&xps), 4);
    let step = h.handle_event(CodeStatsEvent::ForceSend, T0 + 200_000, &config, &mut xps);
    assert!(matches!(step, Step::Flushed(FlushOutcome::ConfigurationMissing)));
    assert_eq!(count_total_xp(&xps), 4);
}

#[test]
fn empty_aggregate_sends_nothing() {
    let config = keyed();
    let mut xps = XpStore::new();
    let mut h = CodeStatsHandler::new(T0);
    add_xp(&mut xps, "Rust".to_string(), 0);
    h.handle_event(CodeStatsEvent::Update, T0 + 20_000, &config, &mut xps);
    let out = h.on_timer(&config, T0 + 30_000, &mut xps);
    assert!(matches!(out, Some(FlushOutcome::EmptyAggregate)));
    assert!(pairs(&xps).is_empty());
    assert_eq!(h.last_send(), T0);
}

#[test]
fn should_send_after_a_full_window() {
    let h = CodeStatsHandler::new(T0);
    assert!(!h.should_send(T0 + 9_999));
    assert!(h.should_send(T0 + 10_000));
    assert!(h.should_send(T0 + 12_000));
}

#[test]
fn info_text_lists_counters_without_clearing() {
    let mut xps = XpStore::new();
    add_xp(&mut xps, "Rust".to_string(), 3);
    add_xp(&mut xps, "Go".to_string(), 10);
    assert_eq!(
        info_text(&xps),
        "C::S info:\nLang: Rust, count: 3\nLang: Go, count: 10\nC::S info end\n"
    );
    assert_eq!(count_total_xp(&xps), 13);
}
