use grok_desktop::usage::{stale_usage_detail, usage_refresh_step, UsageRefreshStep};

#[test]
fn a_refresh_uses_only_a_newly_published_snapshot() {
    assert!(matches!(usage_refresh_step(Some("old"), true, Some("new"), false, false), UsageRefreshStep::Fresh));
    assert!(matches!(usage_refresh_step(None, true, Some("new"), true, true), UsageRefreshStep::Fresh));
    assert!(matches!(usage_refresh_step(Some("old"), true, Some("old"), false, false), UsageRefreshStep::Wait));
    assert!(matches!(usage_refresh_step(Some("old"), false, Some("new"), false, false), UsageRefreshStep::Wait));
    assert!(matches!(usage_refresh_step(Some("old"), true, Some("old"), true, false), UsageRefreshStep::Stale));
    assert!(matches!(usage_refresh_step(None, false, None, false, true), UsageRefreshStep::Stale));
    assert_eq!(stale_usage_detail(), "Grok did not publish a fresh billing snapshot during startup.");
}
