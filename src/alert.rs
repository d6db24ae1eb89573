use vstd::prelude::*;

use crate::entities::{DockerContainerState, SeverityLevel};
use crate::stats::{percent_tenths, spec_percent_tenths};

verus! {

/// What an alert reports. Usage figures are in tenths (of a percent, or of
/// a GiB).
pub enum AlertData {
    ServerUnreachable { id: String, name: String, region: Option<String> },
    ServerCpu { id: String, name: String, region: Option<String>, percentage: u64 },
    ServerMem { id: String, name: String, region: Option<String>, used_gb: u64, total_gb: u64 },
    ServerDisk {
        id: String,
        name: String,
        region: Option<String>,
        path: String,
        used_gb: u64,
        total_gb: u64,
    },
    ContainerStateChange {
        id: String,
        name: String,
        server_name: String,
        from: DockerContainerState,
        to: DockerContainerState,
    },
    AwsBuilderTerminationFailed { instance_id: String },
    Empty,
}

pub struct Alert {
    pub level: SeverityLevel,
    pub data: AlertData,
}

/// One block of a Slack message.
pub enum SlackBlock {
    Header(String),
    Section(String),
}

impl SlackBlock {
    /// The block as `(is_header, text)`.
    pub open spec fn spec_view(self) -> (bool, Seq<char>) {
        match self {
            SlackBlock::Header(t) => (true, t@),
            SlackBlock::Section(t) => (false, t@),
        }
    }
}

pub open spec fn blocks_view(blocks: Seq<SlackBlock>) -> Seq<(bool, Seq<char>)> {
    blocks.map_values(|b: SlackBlock| b.spec_view())
}

/// An alerter's destination.
pub enum AlerterConfig {
    Slack { url: String, enabled: bool },
    Custom { url: String, enabled: bool },
}

pub struct Alerter {
    pub id: String,
    pub config: AlerterConfig,
}

/// Where one alert goes: a Slack webhook or a custom endpoint.
pub enum AlertSink {
    Slack(String),
    Custom(String),
}

pub open spec fn region_text(region: Option<String>) -> Seq<char> {
    match region {
        Some(r) => " ("@ + r@ + ")"@,
        None => Seq::empty(),
    }
}

/// ` (<region>)`, or nothing without a region.
pub fn fmt_region(region: &Option<String>) -> (r: String)
    ensures
        r@ == region_text(*region),
{
    match region {
        Some(region) => {
            let mut s = " (".to_owned();
            s.append(region.as_str());
            s.append(")");
            s
        },
        None => String::new(),
    }
}

pub open spec fn state_name(state: DockerContainerState) -> Seq<char> {
    match state {
        DockerContainerState::Unknown => "unknown"@,
        DockerContainerState::NotDeployed => "not_deployed"@,
        DockerContainerState::Created => "created"@,
        DockerContainerState::Restarting => "restarting"@,
        DockerContainerState::Running => "running"@,
        DockerContainerState::Removing => "removing"@,
        DockerContainerState::Paused => "paused"@,
        DockerContainerState::Exited => "exited"@,
        DockerContainerState::Dead => "dead"@,
    }
}

/// The plain name of a container state.
pub fn container_state_name(state: &DockerContainerState) -> (r: &'static str)
    ensures
        r@ == state_name(*state),
{
    match state {
        DockerContainerState::Unknown => "unknown",
        DockerContainerState::NotDeployed => "not_deployed",
        DockerContainerState::Created => "created",
        DockerContainerState::Restarting => "restarting",
        DockerContainerState::Running => "running",
        DockerContainerState::Removing => "removing",
        DockerContainerState::Paused => "paused",
        DockerContainerState::Exited => "exited",
        DockerContainerState::Dead => "dead",
    }
}

pub open spec fn state_text(state: DockerContainerState) -> Seq<char> {
    match state {
        DockerContainerState::Running => "Running ▶️"@,
        DockerContainerState::Exited => "Exited 🛑"@,
        DockerContainerState::Restarting => "Restarting 🔄"@,
        DockerContainerState::NotDeployed => "Not Deployed"@,
        _ => state_name(state),
    }
}

/// A container state as alerts show it.
pub fn fmt_docker_container_state(state: &DockerContainerState) -> (r: String)
    ensures
        r@ == state_text(*state),
{
    match state {
        DockerContainerState::Running => "Running ▶️".to_owned(),
        DockerContainerState::Exited => "Exited 🛑".to_owned(),
        DockerContainerState::Restarting => "Restarting 🔄".to_owned(),
        DockerContainerState::NotDeployed => "Not Deployed".to_owned(),
        _ => container_state_name(state).to_owned(),
    }
}

pub open spec fn level_text(level: SeverityLevel) -> Seq<char> {
    match level {
        SeverityLevel::Critical => "CRITICAL 🚨"@,
        SeverityLevel::Warning => "WARNING 🚨"@,
        SeverityLevel::Normal => "OK ✅"@,
    }
}

/// A severity as alerts show it.
pub fn fmt_level(level: SeverityLevel) -> (r: &'static str)
    ensures
        r@ == level_text(level),
{
    match level {
        SeverityLevel::Critical => "CRITICAL 🚨",
        SeverityLevel::Warning => "WARNING 🚨",
        SeverityLevel::Normal => "OK ✅",
    }
}

pub open spec fn digit_char(d: nat) -> char {
    if d == 0 {
        '0'
    } else if d == 1 {
        '1'
    } else if d == 2 {
        '2'
    } else if d == 3 {
        '3'
    } else if d == 4 {
        '4'
    } else if d == 5 {
        '5'
    } else if d == 6 {
        '6'
    } else if d == 7 {
        '7'
    } else if d == 8 {
        '8'
    } else {
        '9'
    }
}

/// The decimal digits of `n`.
pub open spec fn decimal(n: nat) -> Seq<char>
    decreases n,
{
    if n < 10 {
        seq![digit_char(n)]
    } else {
        decimal(n / 10).push(digit_char(n % 10))
    }
}

/// `n` tenths written with one decimal: `<n / 10>.<n % 10>`.
pub open spec fn tenths_text(n: nat) -> Seq<char> {
    decimal(n / 10).push('.').push(digit_char(n % 10))
}

fn digit_str(d: u128) -> (r: &'static str)
    requires
        d < 10,
    ensures
        r@ == seq![digit_char(d as nat)],
{
    proof {
        reveal_strlit("0");
        reveal_strlit("1");
        reveal_strlit("2");
        reveal_strlit("3");
        reveal_strlit("4");
        reveal_strlit("5");
        reveal_strlit("6");
        reveal_strlit("7");
        reveal_strlit("8");
        reveal_strlit("9");
    }
    let r = if d == 0 {
        "0"
    } else if d == 1 {
        "1"
    } else if d == 2 {
        "2"
    } else if d == 3 {
        "3"
    } else if d == 4 {
        "4"
    } else if d == 5 {
        "5"
    } else if d == 6 {
        "6"
    } else if d == 7 {
        "7"
    } else if d == 8 {
        "8"
    } else {
        "9"
    };
    assert(r@ =~= seq![digit_char(d as nat)]);
    r
}

/// The decimal digits of `n`.
pub fn fmt_decimal(n: u128) -> (r: String)
    ensures
        r@ == decimal(n as nat),
    decreases n,
{
    if n < 10 {
        digit_str(n).to_owned()
    } else {
        let mut s = fmt_decimal(n / 10);
        s.append(digit_str(n % 10));
        assert(s@ =~= decimal(n as nat));
        s
    }
}

/// `n` tenths with one decimal, as `<n / 10>.<n % 10>`.
pub fn fmt_tenths(n: u128) -> (r: String)
    ensures
        r@ == tenths_text(n as nat),
{
    let mut s = fmt_decimal(n / 10);
    proof {
        reveal_strlit(".");
    }
    s.append(".");
    s.append(digit_str(n % 10));
    assert(s@ =~= tenths_text(n as nat));
    s
}

/// `*<name>*` followed by the region.
pub open spec fn headline(name: Seq<char>, region: Option<String>) -> Seq<char> {
    "*"@ + name + "*"@ + region_text(region)
}

/// `using *<used> GiB* / *<total> GiB*`.
pub open spec fn usage_text(used: u64, total: u64) -> Seq<char> {
    "using *"@ + tenths_text(used as nat) + " GiB* / *"@ + tenths_text(total as nat) + " GiB*"@
}

/// The Slack message for `a`: its text and its blocks as
/// `(is_header, text)`; none for an alert without data.
pub open spec fn slack_message_spec(a: Alert) -> Option<(Seq<char>, Seq<(bool, Seq<char>)>)> {
    let level = level_text(a.level);
    match a.data {
        AlertData::ServerUnreachable { name, region, .. } => if a.level == SeverityLevel::Normal {
            let line = headline(name@, region) + " is now *reachable*"@;
            Some((level + " | "@ + line, seq![(true, level), (false, line)]))
        } else {
            let line = headline(name@, region) + " is *unreachable* ❌"@;
            Some((level + " | "@ + line, seq![(true, level), (false, line)]))
        },
        AlertData::ServerCpu { name, region, percentage, .. } => {
            let line = headline(name@, region) + " cpu usage at *"@ + tenths_text(percentage as nat)
                + "%* 📈 🚨"@;
            Some((level + " | "@ + line, seq![(true, level + " 🚨"@), (false, line)]))
        },
        AlertData::ServerMem { name, region, used_gb, total_gb, .. } => {
            let pct = tenths_text(spec_percent_tenths(used_gb, total_gb) as nat);
            let line = headline(name@, region) + " memory usage at *"@ + pct + "%* 💾 🚨"@;
            Some(
                (
                    level + " | "@ + line,
                    seq![(true, level), (false, line), (false, usage_text(used_gb, total_gb))],
                ),
            )
        },
        AlertData::ServerDisk { name, region, path, used_gb, total_gb, .. } => {
            let pct = tenths_text(spec_percent_tenths(used_gb, total_gb) as nat);
            let head = headline(name@, region) + " disk usage at *"@ + pct;
            Some(
                (
                    level + " | "@ + head + "%* | mount point: *\""@ + path@ + "\"* 💿 🚨"@,
                    seq![
                        (true, level),
                        (false, head + "%* 💿 🚨"@),
                        (false, "mount point: \""@ + path@ + "\" | "@ + usage_text(used_gb, total_gb)),
                    ],
                ),
            )
        },
        AlertData::ContainerStateChange { name, server_name, from, to, .. } => {
            let text = "📦 container *"@ + name@ + "* is now "@ + state_text(to);
            Some(
                (
                    text,
                    seq![(true, text), (false, "server: "@ + server_name@ + "\nprevious: "@ + state_name(from))],
                ),
            )
        },
        AlertData::AwsBuilderTerminationFailed { instance_id } => {
            let text = level + " | Failed to terminated AWS builder instance"@;
            Some((text, seq![(true, text), (false, "instance id: "@ + instance_id@)]))
        },
        AlertData::Empty => None,
    }
}

fn fmt_headline(name: &String, region: &Option<String>) -> (r: String)
    ensures
        r@ == headline(name@, *region),
{
    let mut s = "*".to_owned();
    s.append(name.as_str());
    s.append("*");
    let reg = fmt_region(region);
    s.append(reg.as_str());
    s
}

fn fmt_usage(used: u64, total: u64) -> (r: String)
    ensures
        r@ == usage_text(used, total),
{
    let mut s = "using *".to_owned();
    s.append(fmt_tenths(used as u128).as_str());
    s.append(" GiB* / *");
    s.append(fmt_tenths(total as u128).as_str());
    s.append(" GiB*");
    s
}

fn text_of(level: &str, line: &String) -> (r: String)
    ensures
        r@ == level@ + " | "@ + line@,
{
    let mut s = level.to_owned();
    s.append(" | ");
    s.append(line.as_str());
    s
}

/// The Slack message for `alert`: its text and its blocks, or `None` for an
/// alert without data, which is not sent.
pub fn slack_message(alert: &Alert) -> (r: Option<(String, Vec<SlackBlock>)>)
    ensures
        match slack_message_spec(*alert) {
            None => r is None,
            Some((text, blocks)) => r matches Some((t, b)) && t@ == text && blocks_view(b@) == blocks,
        },
{
    let level = fmt_level(alert.level);
    match &alert.data {
        AlertData::ServerUnreachable { name, region, .. } => {
            let mut line = fmt_headline(name, region);
            if alert.level == SeverityLevel::Normal {
                line.append(" is now *reachable*");
            } else {
                line.append(" is *unreachable* ❌");
            }
            let text = text_of(level, &line);
            let blocks = vec![SlackBlock::Header(level.to_owned()), SlackBlock::Section(line)];
            assert(blocks_view(blocks@) =~= slack_message_spec(*alert).unwrap().1);
            Some((text, blocks))
        },
        AlertData::ServerCpu { name, region, percentage, .. } => {
            let mut line = fmt_headline(name, region);
            line.append(" cpu usage at *");
            line.append(fmt_tenths(*percentage as u128).as_str());
            line.append("%* 📈 🚨");
            let text = text_of(level, &line);
            let mut header = level.to_owned();
            header.append(" 🚨");
            let blocks = vec![SlackBlock::Header(header), SlackBlock::Section(line)];
            assert(blocks_view(blocks@) =~= slack_message_spec(*alert).unwrap().1);
            Some((text, blocks))
        },
        AlertData::ServerMem { name, region, used_gb, total_gb, .. } => {
            let mut line = fmt_headline(name, region);
            line.append(" memory usage at *");
            line.append(fmt_tenths(percent_tenths(*used_gb, *total_gb)).as_str());
            line.append("%* 💾 🚨");
            let text = text_of(level, &line);
            let blocks = vec![
                SlackBlock::Header(level.to_owned()),
                SlackBlock::Section(line),
                SlackBlock::Section(fmt_usage(*used_gb, *total_gb)),
            ];
            assert(blocks_view(blocks@) =~= slack_message_spec(*alert).unwrap().1);
            Some((text, blocks))
        },
        AlertData::ServerDisk { name, region, path, used_gb, total_gb, .. } => {
            let mut head = fmt_headline(name, region);
            head.append(" disk usage at *");
            head.append(fmt_tenths(percent_tenths(*used_gb, *total_gb)).as_str());
            let mut text = text_of(level, &head);
            text.append("%* | mount point: *\"");
            text.append(path.as_str());
            text.append("\"* 💿 🚨");
            let mut line = head;
            line.append("%* 💿 🚨");
            let mut mount = "mount point: \"".to_owned();
            mount.append(path.as_str());
            mount.append("\" | ");
            mount.append(fmt_usage(*used_gb, *total_gb).as_str());
            let blocks = vec![
                SlackBlock::Header(level.to_owned()),
                SlackBlock::Section(line),
                SlackBlock::Section(mount),
            ];
            assert(blocks_view(blocks@) =~= slack_message_spec(*alert).unwrap().1);
            Some((text, blocks))
        },
        AlertData::ContainerStateChange { name, server_name, from, to, .. } => {
            let mut text = "📦 container *".to_owned();
            text.append(name.as_str());
            text.append("* is now ");
            text.append(fmt_docker_container_state(to).as_str());
            let mut section = "server: ".to_owned();
            section.append(server_name.as_str());
            section.append("\nprevious: ");
            section.append(container_state_name(from));
            let blocks = vec![SlackBlock::Header(text.clone()), SlackBlock::Section(section)];
            assert(blocks_view(blocks@) =~= slack_message_spec(*alert).unwrap().1);
            Some((text, blocks))
        },
        AlertData::AwsBuilderTerminationFailed { instance_id } => {
            let mut text = level.to_owned();
            text.append(" | Failed to terminated AWS builder instance");
            let mut section = "instance id: ".to_owned();
            section.append(instance_id.as_str());
            let blocks = vec![SlackBlock::Header(text.clone()), SlackBlock::Section(section)];
            assert(blocks_view(blocks@) =~= slack_message_spec(*alert).unwrap().1);
            Some((text, blocks))
        },
        AlertData::Empty => None,
    }
}

/// The enabled alerters of `alerters`, in order, as the sinks an alert is
/// sent to.
pub open spec fn enabled_sinks(alerters: Seq<Alerter>) -> Seq<(bool, Seq<char>)>
    decreases alerters.len(),
{
    if alerters.len() == 0 {
        Seq::empty()
    } else {
        let rest = enabled_sinks(alerters.drop_last());
        match alerters.last().config {
            AlerterConfig::Slack { url, enabled } => if enabled {
                rest.push((true, url@))
            } else {
                rest
            },
            AlerterConfig::Custom { url, enabled } => if enabled {
                rest.push((false, url@))
            } else {
                rest
            },
        }
    }
}

impl AlertSink {
    /// The sink as `(is_slack, url)`.
    pub open spec fn spec_view(self) -> (bool, Seq<char>) {
        match self {
            AlertSink::Slack(u) => (true, u@),
            AlertSink::Custom(u) => (false, u@),
        }
    }
}

/// Where alerts go: every enabled alerter, in order; disabled ones are
/// skipped.
pub fn alert_sinks(alerters: &Vec<Alerter>) -> (r: Vec<AlertSink>)
    ensures
        r@.map_values(|s: AlertSink| s.spec_view()) == enabled_sinks(alerters@),
{
    let mut out: Vec<AlertSink> = Vec::new();
    let mut i: usize = 0;
    while i < alerters.len()
        invariant
            i <= alerters@.len(),
            out@.map_values(|s: AlertSink| s.spec_view()) == enabled_sinks(alerters@.subrange(0, i as int)),
        decreases alerters@.len() - i,
    {
        assert(alerters@.subrange(0, i + 1).drop_last() =~= alerters@.subrange(0, i as int));
        let ghost before = out@;
        match &alerters[i].config {
            AlerterConfig::Slack { url, enabled } => {
                if *enabled {
                    out.push(AlertSink::Slack(url.clone()));
                }
            },
            AlerterConfig::Custom { url, enabled } => {
                if *enabled {
                    out.push(AlertSink::Custom(url.clone()));
                }
            },
        }
        assert(out@.map_values(|s: AlertSink| s.spec_view()) =~= enabled_sinks(alerters@.subrange(0, i + 1)));
        i = i + 1;
    }
    assert(alerters@.subrange(0, alerters@.len() as int) =~= alerters@);
    out
}

} // verus!
