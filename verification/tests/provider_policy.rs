use statusengine::classify_output;
use statusengine::ProviderOutcome;
use statusengine::ProviderStep;
use statusengine::StatusEngine;
use statusengine::StatusEngineConfig;

fn command_engine() -> StatusEngine {
    StatusEngine::new(StatusEngineConfig {
        command_timeout_ms: 300,
        command: Some("/bin/echo".to_string()),
        enabled: true,
        provider: "command".to_string(),
    })
}

#[test]
fn test_command_throttling() {
    let config = StatusEngineConfig {
        enabled: true,
        provider: "command".to_string(),
        command: Some("/bin/echo".to_string()),
        command_timeout_ms: 100,
    };

    let mut engine = StatusEngine::new(config);
    let now: u64 = 1000;

    // The first evaluation invokes the provider; /bin/echo with our payload
    // on stdin prints a blank first line, an empty outcome.
    assert_eq!(engine.plan_provider(now), ProviderStep::Invoke);
    let output1 = engine.apply_outcome(now, ProviderOutcome::Empty);

    // An immediate second evaluation is throttled and returns the cache.
    let output2 = match engine.plan_provider(now) {
        ProviderStep::Skip(cached) => cached,
        ProviderStep::Invoke => panic!("second call within the cooldown must not invoke"),
    };

    assert_eq!(output1, output2);
}

#[test]
fn test_builtin_provider_is_skipped_with_no_line() {
    let mut engine = StatusEngine::new(StatusEngineConfig {
        command_timeout_ms: 300,
        command: Some("/bin/echo".to_string()),
        enabled: true,
        provider: "builtin".to_string(),
    });
    assert_eq!(engine.plan_provider(0), ProviderStep::Skip(None));
}

#[test]
fn test_missing_command_disables_the_provider() {
    let mut engine = StatusEngine::new(StatusEngineConfig {
        command_timeout_ms: 300,
        command: None,
        enabled: true,
        provider: "command".to_string(),
    });
    assert_eq!(engine.plan_provider(0), ProviderStep::Skip(None));
}

#[test]
fn test_invalid_provider_falls_back_to_builtin() {
    let mut engine = StatusEngine::new(StatusEngineConfig {
        command_timeout_ms: 300,
        command: Some("/bin/echo".to_string()),
        enabled: true,
        provider: "bogus".to_string(),
    });
    assert_eq!(engine.plan_provider(0), ProviderStep::Skip(None));
}

#[test]
fn test_three_errors_trigger_backoff() {
    let mut engine = command_engine();

    assert_eq!(engine.plan_provider(0), ProviderStep::Invoke);
    assert_eq!(engine.apply_outcome(0, ProviderOutcome::Error), None);
    assert_eq!(engine.plan_provider(400), ProviderStep::Invoke);
    assert_eq!(engine.apply_outcome(400, ProviderOutcome::Error), None);
    assert_eq!(engine.plan_provider(800), ProviderStep::Invoke);
    assert_eq!(engine.apply_outcome(800, ProviderOutcome::Error), None);

    // The third consecutive error sets a deadline 1000 ms out: calls before
    // it return the cached output without invoking the provider.
    assert_eq!(engine.plan_provider(900), ProviderStep::Skip(None));
    assert_eq!(engine.plan_provider(1799), ProviderStep::Skip(None));

    // Past the deadline the backoff is cleared; the last run was 800, so
    // 1900 is also past the cooldown, and the provider runs again.
    assert_eq!(engine.plan_provider(1900), ProviderStep::Invoke);
}

#[test]
fn test_backoff_window_doubles_up_to_five_seconds() {
    let mut engine = command_engine();
    // Three errors: backoff until 800 + 1000.
    for t in [0u64, 400, 800] {
        assert_eq!(engine.plan_provider(t), ProviderStep::Invoke);
        engine.apply_outcome(t, ProviderOutcome::Error);
    }
    // A fourth error at 2000 (past deadline and cooldown): window 2000 ms.
    assert_eq!(engine.plan_provider(2000), ProviderStep::Invoke);
    engine.apply_outcome(2000, ProviderOutcome::Error);
    assert_eq!(engine.plan_provider(3999), ProviderStep::Skip(None));
    // A fifth error at 4100: window 4000 ms, until 8100.
    assert_eq!(engine.plan_provider(4100), ProviderStep::Invoke);
    engine.apply_outcome(4100, ProviderOutcome::Error);
    assert_eq!(engine.plan_provider(8099), ProviderStep::Skip(None));
    // A sixth error at 8200: the window is capped at 5000 ms, until 13200.
    assert_eq!(engine.plan_provider(8200), ProviderStep::Invoke);
    engine.apply_outcome(8200, ProviderOutcome::Error);
    assert_eq!(engine.plan_provider(13199), ProviderStep::Skip(None));
    assert_eq!(engine.plan_provider(13300), ProviderStep::Invoke);
}

#[test]
fn test_empty_after_success_keeps_cache_and_resets_failures() {
    let mut engine = command_engine();

    assert_eq!(engine.plan_provider(0), ProviderStep::Invoke);
    let r1 = engine.apply_outcome(0, ProviderOutcome::Success("x".to_string()));
    assert_eq!(r1, Some("x".to_string()));

    // Two errors, then an empty outcome: the counter resets, so two further
    // errors still do not reach the backoff threshold.
    engine.apply_outcome(400, ProviderOutcome::Error);
    engine.apply_outcome(800, ProviderOutcome::Error);
    let r2 = engine.apply_outcome(1200, ProviderOutcome::Empty);
    assert_eq!(r2, Some("x".to_string()));

    engine.apply_outcome(1600, ProviderOutcome::Error);
    engine.apply_outcome(2000, ProviderOutcome::Error);
    // No backoff: past the cooldown the provider is invoked again.
    assert_eq!(engine.plan_provider(2400), ProviderStep::Invoke);
}

#[test]
fn test_error_keeps_last_good_output() {
    let mut engine = command_engine();
    engine.apply_outcome(0, ProviderOutcome::Success("good".to_string()));
    let shown = engine.apply_outcome(400, ProviderOutcome::Error);
    assert_eq!(shown, Some("good".to_string()));
}

#[test]
fn test_calls_within_cooldown_return_identical_output() {
    let mut engine = command_engine();
    engine.apply_outcome(1000, ProviderOutcome::Success("cached".to_string()));

    let first = engine.plan_provider(1010);
    let second = engine.plan_provider(1020);
    assert_eq!(first, ProviderStep::Skip(Some("cached".to_string())));
    assert_eq!(second, first);
}

#[test]
fn test_success_replaces_cache() {
    let mut engine = command_engine();
    engine.apply_outcome(0, ProviderOutcome::Success("one".to_string()));
    let shown = engine.apply_outcome(400, ProviderOutcome::Success("two".to_string()));
    assert_eq!(shown, Some("two".to_string()));
    assert_eq!(engine.plan_provider(410), ProviderStep::Skip(Some("two".to_string())));
}

#[test]
fn test_classify_takes_first_line_trimmed() {
    assert_eq!(
        classify_output(true, "  hello world  \nsecond line"),
        ProviderOutcome::Success("hello world".to_string())
    );
    assert_eq!(
        classify_output(true, "line\r\nrest"),
        ProviderOutcome::Success("line".to_string())
    );
    assert_eq!(classify_output(true, "plain"), ProviderOutcome::Success("plain".to_string()));
}

#[test]
fn test_classify_trims_unicode_whitespace() {
    assert_eq!(
        classify_output(true, "\u{a0}x\u{a0}\n"),
        ProviderOutcome::Success("x".to_string())
    );
}

#[test]
fn test_classify_error_exit_shows_nothing() {
    assert_eq!(classify_output(false, "content"), ProviderOutcome::Empty);
}

#[test]
fn test_classify_blank_output_shows_nothing() {
    assert_eq!(classify_output(true, ""), ProviderOutcome::Empty);
    assert_eq!(classify_output(true, "\n"), ProviderOutcome::Empty);
    assert_eq!(classify_output(true, " \t\r\nmore"), ProviderOutcome::Empty);
}

#[test]
fn test_jitter_extends_the_cooldown() {
    let mut engine = command_engine();
    engine.apply_outcome(1050, ProviderOutcome::Empty);
    // At 1399 the elapsed 349 exceeds the base cooldown of 300 but not the
    // jittered one of 300 + (1399 % 100) = 399.
    assert_eq!(engine.plan_provider(1399), ProviderStep::Skip(None));
    // At 1450 the jittered cooldown is 350 and the elapsed 400 passes it.
    assert_eq!(engine.plan_provider(1450), ProviderStep::Invoke);
}
