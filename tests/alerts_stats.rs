use monitor_core::alert::{
    alert_sinks, fmt_docker_container_state, fmt_level, fmt_region, fmt_tenths, slack_message, Alert,
    AlertData, AlertSink, Alerter, AlerterConfig, SlackBlock,
};
use monitor_core::entities::{DockerContainerState, SeverityLevel};
use monitor_core::stats::{
    historical_stats_timestamps, next_page, percent_tenths, severity, stats_page_timestamps, stats_timestamps,
    STATS_PER_PAGE,
};
use monitor_core::api::historical_stats_response;

fn rank(s: SeverityLevel) -> u8 {
    match s {
        SeverityLevel::Normal => 0,
        SeverityLevel::Warning => 1,
        SeverityLevel::Critical => 2,
    }
}

#[test]
fn severity_steps_at_thresholds() {
    assert_eq!(severity(749, 750, 900), SeverityLevel::Normal);
    assert_eq!(severity(750, 750, 900), SeverityLevel::Warning);
    assert_eq!(severity(899, 750, 900), SeverityLevel::Warning);
    assert_eq!(severity(900, 750, 900), SeverityLevel::Critical);
    assert_eq!(severity(1000, 750, 900), SeverityLevel::Critical);
}

#[test]
fn severity_is_monotone() {
    let mut last = 0;
    for v in 0..=1000u64 {
        let r = rank(severity(v, 750, 900));
        assert!(r >= last);
        last = r;
    }
}

#[test]
fn paged_stats_boundaries() {
    assert_eq!(next_page(3, STATS_PER_PAGE), Some(4));
    assert_eq!(next_page(3, STATS_PER_PAGE - 1), None);
    assert_eq!(next_page(0, 0), None);
    let full = historical_stats_response(vec![0u8; 500], 7);
    assert_eq!(full.next_page, Some(8));
    let partial = historical_stats_response(vec![0u8; 12], 7);
    assert_eq!(partial.next_page, None);
    assert_eq!(partial.stats.len(), 12);
}

#[test]
fn stats_timestamps_descend_from_floor() {
    let ts = stats_timestamps(1_000_500, 1000, 0);
    assert_eq!(ts.len(), 500);
    assert_eq!(ts[0], 1_000_000);
    assert_eq!(ts[1], 999_000);
    assert_eq!(ts[499], 501_000);
    let ts = stats_timestamps(1_000_500, 1000, 1);
    assert_eq!(ts[0], 500_000);
}

#[test]
fn timelength_sets_the_gap() {
    let ts = historical_stats_timestamps(3_600_000_123, async_timing_util::Timelength::OneMinute, 0).unwrap();
    assert_eq!(ts.len(), 500);
    assert_eq!(ts[0], 3_600_000_000);
    assert_eq!(ts[0] - ts[1], 60_000);
    assert!(historical_stats_timestamps(0, async_timing_util::Timelength::OneMinute, 0).is_some());
}

#[test]
fn formatting_helpers() {
    assert_eq!(fmt_region(&Some("us-east".to_string())), " (us-east)");
    assert_eq!(fmt_region(&None), "");
    assert_eq!(fmt_level(SeverityLevel::Critical), "CRITICAL 🚨");
    assert_eq!(fmt_level(SeverityLevel::Warning), "WARNING 🚨");
    assert_eq!(fmt_level(SeverityLevel::Normal), "OK ✅");
    assert_eq!(fmt_docker_container_state(&DockerContainerState::Running), "Running ▶️");
    assert_eq!(fmt_docker_container_state(&DockerContainerState::NotDeployed), "Not Deployed");
    assert_eq!(fmt_docker_container_state(&DockerContainerState::Paused), "paused");
    assert_eq!(fmt_tenths(853), "85.3");
    assert_eq!(fmt_tenths(5), "0.5");
    assert_eq!(percent_tenths(40, 80), 500);
    assert_eq!(percent_tenths(1, 3), 333);
    assert_eq!(percent_tenths(5, 0), 0);
}

fn texts(blocks: &[SlackBlock]) -> Vec<(bool, String)> {
    blocks
        .iter()
        .map(|b| match b {
            SlackBlock::Header(t) => (true, t.clone()),
            SlackBlock::Section(t) => (false, t.clone()),
        })
        .collect()
}

#[test]
fn slack_cpu_message() {
    let alert = Alert {
        level: SeverityLevel::Critical,
        data: AlertData::ServerCpu {
            id: "s1".to_string(),
            name: "srv".to_string(),
            region: Some("us".to_string()),
            percentage: 853,
        },
    };
    let (text, blocks) = slack_message(&alert).unwrap();
    assert_eq!(text, "CRITICAL 🚨 | *srv* (us) cpu usage at *85.3%* 📈 🚨");
    assert_eq!(
        texts(&blocks),
        vec![
            (true, "CRITICAL 🚨 🚨".to_string()),
            (false, "*srv* (us) cpu usage at *85.3%* 📈 🚨".to_string())
        ]
    );
}

#[test]
fn slack_memory_message() {
    let alert = Alert {
        level: SeverityLevel::Warning,
        data: AlertData::ServerMem {
            id: "s1".to_string(),
            name: "srv".to_string(),
            region: None,
            used_gb: 40,
            total_gb: 80,
        },
    };
    let (text, blocks) = slack_message(&alert).unwrap();
    assert_eq!(text, "WARNING 🚨 | *srv* memory usage at *50.0%* 💾 🚨");
    assert_eq!(texts(&blocks)[2], (false, "using *4.0 GiB* / *8.0 GiB*".to_string()));
}

#[test]
fn slack_reachability_messages() {
    let data = || AlertData::ServerUnreachable { id: "s1".to_string(), name: "srv".to_string(), region: None };
    let (text, _) = slack_message(&Alert { level: SeverityLevel::Normal, data: data() }).unwrap();
    assert_eq!(text, "OK ✅ | *srv* is now *reachable*");
    let (text, _) = slack_message(&Alert { level: SeverityLevel::Critical, data: data() }).unwrap();
    assert_eq!(text, "CRITICAL 🚨 | *srv* is *unreachable* ❌");
}

#[test]
fn slack_container_and_empty_messages() {
    let alert = Alert {
        level: SeverityLevel::Warning,
        data: AlertData::ContainerStateChange {
            id: "d1".to_string(),
            name: "app".to_string(),
            server_name: "srv".to_string(),
            from: DockerContainerState::Running,
            to: DockerContainerState::Exited,
        },
    };
    let (text, blocks) = slack_message(&alert).unwrap();
    assert_eq!(text, "📦 container *app* is now Exited 🛑");
    assert_eq!(texts(&blocks)[1], (false, "server: srv\nprevious: running".to_string()));
    assert!(slack_message(&Alert { level: SeverityLevel::Normal, data: AlertData::Empty }).is_none());
}

#[test]
fn disabled_alerters_are_skipped() {
    let alerters = vec![
        Alerter { id: "a".to_string(), config: AlerterConfig::Slack { url: "https://s".to_string(), enabled: true } },
        Alerter { id: "b".to_string(), config: AlerterConfig::Custom { url: "https://c".to_string(), enabled: false } },
        Alerter { id: "c".to_string(), config: AlerterConfig::Custom { url: "https://d".to_string(), enabled: true } },
    ];
    let sinks = alert_sinks(&alerters);
    assert_eq!(sinks.len(), 2);
    assert!(matches!(&sinks[0], AlertSink::Slack(u) if u == "https://s"));
    assert!(matches!(&sinks[1], AlertSink::Custom(u) if u == "https://d"));
}

#[test]
fn paging_out_of_range_and_exact_pages() {
    assert!(historical_stats_timestamps(1_000, async_timing_util::Timelength::ThirtyDays, u32::MAX - 1).is_none());
    assert!(stats_page_timestamps(0, i64::MAX / 2, 3).is_none());
    let v = stats_page_timestamps(10_500, 1_000, 0).unwrap();
    assert_eq!(v[0], 10_000);
    assert_eq!(v[499], 10_000 - 499 * 1_000);
}
