use claudegauge::config::Config;
use claudegauge::usage::{
    ccusage_output, fetch_state, map_state, seconds_until, Block, CcOut, Percent, TokenCounts,
};

/// Reads `ccusage blocks --json` text the way the widget does, keeping the
/// burn rate of each block beside the blocks.
fn parse(raw: &str) -> (CcOut, Vec<f64>) {
    let v: serde_json::Value = serde_json::from_str(raw).unwrap();
    let mut blocks = Vec::new();
    let mut burns = Vec::new();
    if let Some(arr) = v.get("blocks").and_then(|b| b.as_array()) {
        for b in arr {
            let flag = |k: &str| b.get(k).and_then(|x| x.as_bool()).unwrap_or(false);
            let counts = b.get("tokenCounts").map(|tc| {
                let n = |k: &str| tc.get(k).and_then(|x| x.as_u64()).unwrap_or(0);
                TokenCounts {
                    input_tokens: n("inputTokens"),
                    output_tokens: n("outputTokens"),
                    cache_creation_input_tokens: n("cacheCreationInputTokens"),
                    cache_read_input_tokens: n("cacheReadInputTokens"),
                }
            });
            blocks.push(Block {
                is_active: flag("isActive"),
                is_gap: flag("isGap"),
                end_time: b.get("endTime").and_then(|x| x.as_str()).map(|s| s.to_string()),
                total_tokens: b.get("totalTokens").and_then(|x| x.as_u64()).unwrap_or(0),
                token_counts: counts,
            });
            burns.push(
                b.get("burnRate")
                    .and_then(|r| r.get("tokensPerMinute"))
                    .and_then(|x| x.as_f64())
                    .unwrap_or(0.0),
            );
        }
    }
    (CcOut { blocks }, burns)
}

fn burn_rate(s: &claudegauge::usage::UsageState, burns: &[f64]) -> f64 {
    s.active_block.map(|i| burns[i]).unwrap_or(0.0)
}

fn percent_value(p: Percent) -> f64 {
    (p.used as f64 / p.limit as f64) * 100.0
}

fn now_rfc3339() -> String {
    chrono::Utc::now().to_rfc3339()
}

const SAMPLE: &str = r#"{
  "blocks": [
    {
      "isActive": false, "isGap": false,
      "endTime": "2026-07-12T05:00:00.000Z",
      "totalTokens": 180000
    },
    {
      "isActive": true, "isGap": false,
      "endTime": "2026-07-12T15:00:00.000Z",
      "tokenCounts": {
        "inputTokens": 40000, "outputTokens": 5000,
        "cacheCreationInputTokens": 4000, "cacheReadInputTokens": 1000
      },
      "burnRate": { "tokensPerMinute": 142.5 }
    }
  ]
}"#;

#[test]
fn no_limit_means_null_percent_but_exact_used() {
    let cfg = Config::default(); // limit = None
    let (out, burns) = parse(SAMPLE);
    let s = map_state(&out, &cfg, "2026-07-12T11:00:00.000Z".into());

    assert!(s.is_active);
    assert_eq!(s.used_tokens, 50000); // summed from tokenCounts, exact
    assert_eq!(s.limit, None);
    assert_eq!(s.percent, None); // never guessed
    assert!((burn_rate(&s, &burns) - 142.5).abs() < 0.001);
    assert_eq!(s.reset_in_seconds, 4 * 3600); // 11:00 -> 15:00
    assert!(s.error.is_none());
}

#[test]
fn limit_set_produces_percent() {
    let mut cfg = Config::default();
    cfg.limit = Some(100000);
    let (out, _) = parse(SAMPLE);
    let s = map_state(&out, &cfg, "2026-07-12T14:59:00.000Z".into());
    assert_eq!(s.limit, Some(100000));
    assert!((percent_value(s.percent.unwrap()) - 50.0).abs() < 0.001);
    assert_eq!(s.reset_in_seconds, 60);
}

#[test]
fn zero_limit_is_treated_as_unset() {
    let mut cfg = Config::default();
    cfg.limit = Some(0);
    let (out, _) = parse(SAMPLE);
    let s = map_state(&out, &cfg, "2026-07-12T11:00:00.000Z".into());
    assert_eq!(s.limit, None);
    assert_eq!(s.percent, None);
}

#[test]
fn no_active_block_reports_idle() {
    let raw = r#"{ "blocks": [
      { "isActive": false, "isGap": false, "totalTokens": 120000,
        "endTime": "2026-07-12T05:00:00.000Z" }
    ] }"#;
    let mut cfg = Config::default();
    cfg.limit = Some(200000);
    let (out, _) = parse(raw);
    let s = map_state(&out, &cfg, now_rfc3339());
    assert!(!s.is_active);
    assert_eq!(s.used_tokens, 0);
    assert_eq!(s.percent, None); // idle -> no percent
    assert_eq!(s.limit, Some(200000)); // limit still surfaced
}

#[test]
fn countdown_never_negative() {
    assert_eq!(
        seconds_until("2026-07-12T05:00:00.000Z", "2026-07-12T09:00:00.000Z"),
        0
    );
}

#[test]
fn total_tokens_win_over_components() {
    let b = Block {
        is_active: true,
        is_gap: false,
        end_time: None,
        total_tokens: 7,
        token_counts: Some(TokenCounts {
            input_tokens: 1,
            output_tokens: 2,
            cache_creation_input_tokens: 3,
            cache_read_input_tokens: 4,
        }),
    };
    assert_eq!(b.used(), 7);
    let none = Block { total_tokens: 0, token_counts: None, ..b.clone() };
    assert_eq!(none.used(), 0);
    let summed = Block { total_tokens: 0, ..b.clone() };
    assert_eq!(summed.used(), 10);
}

#[test]
fn overflowing_components_wrap_instead_of_panicking() {
    let b = Block {
        is_active: true,
        is_gap: false,
        end_time: None,
        total_tokens: 0,
        token_counts: Some(TokenCounts {
            input_tokens: u64::MAX,
            output_tokens: 3,
            cache_creation_input_tokens: 0,
            cache_read_input_tokens: 0,
        }),
    };
    assert_eq!(b.used(), 2);
    let out = CcOut { blocks: vec![b] };
    let s = map_state(&out, &Config::default(), now_rfc3339());
    assert!(s.is_active);
    assert_eq!(s.used_tokens, 2);
}

#[test]
fn gap_blocks_are_skipped() {
    let raw = r#"{ "blocks": [
      { "isActive": true, "isGap": true, "totalTokens": 999 },
      { "isActive": true, "isGap": false, "totalTokens": 12, "endTime": "2026-07-12T15:00:00Z" },
      { "isActive": true, "isGap": false, "totalTokens": 34 }
    ] }"#;
    let (out, _) = parse(raw);
    let mut cfg = Config::default();
    cfg.limit = Some(48);
    let s = map_state(&out, &cfg, "2026-07-12T14:00:00Z".into());
    assert!(s.is_active);
    assert_eq!(s.active_block, Some(1));
    assert_eq!(s.used_tokens, 12);
    assert_eq!(s.percent, Some(Percent { used: 12, limit: 48 }));
    assert!((percent_value(s.percent.unwrap()) - 25.0).abs() < 1e-9);
    assert_eq!(s.reset_in_seconds, 3600);
}

#[test]
fn missing_end_time_gives_no_countdown() {
    let raw = r#"{ "blocks": [ { "isActive": true, "totalTokens": 5 } ] }"#;
    let (out, _) = parse(raw);
    let s = map_state(&out, &Config::default(), "2026-07-12T14:00:00Z".into());
    assert!(s.is_active);
    assert_eq!(s.reset_in_seconds, 0);
}

#[test]
fn empty_output_is_idle() {
    let (out, burns) = parse("{}");
    let s = map_state(&out, &Config::default(), now_rfc3339());
    assert!(!s.is_active);
    assert_eq!(s.active_block, None);
    assert_eq!(burn_rate(&s, &burns), 0.0);
    assert_eq!(s.limit, None);
}

#[test]
fn seconds_until_reads_offsets_and_refuses_garbage() {
    assert_eq!(seconds_until("2026-07-12T15:00:00+02:00", "2026-07-12T12:00:00Z"), 3600);
    assert_eq!(seconds_until("2026-07-12T15:00:30Z", "2026-07-12T15:00:00Z"), 30);
    assert_eq!(seconds_until("not a time", "2026-07-12T15:00:00Z"), 0);
    assert_eq!(seconds_until("2026-07-12T15:00:00Z", ""), 0);
    assert_eq!(seconds_until("2026-07-13T15:00:00Z", "2026-07-12T15:00:00Z"), 86400);
}

#[test]
fn failed_fetch_keeps_configured_limit() {
    let mut cfg = Config::default();
    cfg.limit = Some(0);
    let s = fetch_state(&cfg, Err("parse error: oops".to_string()), now_rfc3339());
    assert_eq!(s.error.as_deref(), Some("parse error: oops"));
    assert_eq!(s.limit, Some(0));
    assert_eq!(s.percent, None);
    assert!(!s.is_active);
    assert_eq!(s.used_tokens, 0);
}

#[test]
fn successful_fetch_maps_output() {
    let mut cfg = Config::default();
    cfg.limit = Some(100000);
    let (out, _) = parse(SAMPLE);
    let s = fetch_state(&cfg, Ok(out), "2026-07-12T14:59:00.000Z".into());
    assert_eq!(s.used_tokens, 50000);
    assert_eq!(s.percent, Some(Percent { used: 50000, limit: 100000 }));
    assert!(s.error.is_none());
}

#[test]
fn ccusage_output_picks_stream() {
    assert_eq!(ccusage_output(true, b"{}", b"warn"), Ok("{}".to_string()));
    assert_eq!(
        ccusage_output(false, b"{}", b"npx: not found\r\nmore"),
        Err("npx: not found".to_string())
    );
    assert_eq!(ccusage_output(false, b"", b""), Err("ccusage failed".to_string()));
    assert_eq!(ccusage_output(false, b"", b"\nsecond"), Err("".to_string()));
    assert_eq!(
        ccusage_output(false, b"", b"bad \xff byte"),
        Err("bad \u{fffd} byte".to_string())
    );
    assert_eq!(ccusage_output(true, b"caf\xc3\xa9", b""), Ok("caf\u{e9}".to_string()));
}
