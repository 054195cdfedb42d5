//! Alerts and the rules that raise them.

use vstd::prelude::*;
use vstd::string::*;
use crate::clock::{utc_now, Timestamp};
use crate::container_monitor::{ContainerStatus, ContainerStatusView};
use crate::resource_monitor::ResourceMetrics;
use crate::text::{
    occurs_in, percent, percent_text, share_exceeds, share_in_tenths, share_is_above, share_tenths,
};

verus! {

/// How urgent an alert is. The variants are listed from least to most severe.
#[derive(Debug, Clone, Copy, PartialEq, Eq, Structural)]
pub enum AlertSeverity {
    Info,
    Warning,
    Critical,
}

impl AlertSeverity {
    /// Position in the order `Info < Warning < Critical`.
    pub open spec fn rank(self) -> nat {
        match self {
            AlertSeverity::Info => 0,
            AlertSeverity::Warning => 1,
            AlertSeverity::Critical => 2,
        }
    }

    /// The name of the severity.
    pub open spec fn name(self) -> Seq<char> {
        match self {
            AlertSeverity::Info => "Info"@,
            AlertSeverity::Warning => "Warning"@,
            AlertSeverity::Critical => "Critical"@,
        }
    }

    pub fn level(self) -> (r: u8)
        ensures
            r == self.rank(),
    {
        match self {
            AlertSeverity::Info => 0,
            AlertSeverity::Warning => 1,
            AlertSeverity::Critical => 2,
        }
    }

    /// Whether `self` is at least as severe as `other`.
    pub fn at_least(self, other: AlertSeverity) -> (r: bool)
        ensures
            r == (self.rank() >= other.rank()),
    {
        self.level() >= other.level()
    }

    pub fn label(self) -> (r: &'static str)
        ensures
            r@ == self.name(),
    {
        match self {
            AlertSeverity::Info => "Info",
            AlertSeverity::Warning => "Warning",
            AlertSeverity::Critical => "Critical",
        }
    }
}

/// One event worth telling somebody about.
#[derive(Debug)]
pub struct Alert {
    /// When the rule was evaluated.
    pub timestamp: Timestamp,
    pub severity: AlertSeverity,
    /// Where the alert comes from, such as `CPU` or `Container`.
    pub source: String,
    pub message: String,
    pub details: String,
}

/// What an `Alert` holds, with its texts as character sequences.
pub struct AlertView {
    pub timestamp: Timestamp,
    pub severity: AlertSeverity,
    pub source: Seq<char>,
    pub message: Seq<char>,
    pub details: Seq<char>,
}

impl View for Alert {
    type V = AlertView;

    open spec fn view(&self) -> AlertView {
        AlertView {
            timestamp: self.timestamp,
            severity: self.severity,
            source: self.source@,
            message: self.message@,
            details: self.details@,
        }
    }
}

impl Clone for Alert {
    fn clone(&self) -> (copy: Self)
        ensures
            copy@ == self@,
    {
        Alert {
            timestamp: self.timestamp,
            severity: self.severity,
            source: self.source.clone(),
            message: self.message.clone(),
            details: self.details.clone(),
        }
    }
}

#[derive(Debug)]
pub enum AlertError {
    EvaluationError(String),
}

impl AlertError {
    /// The cause that the error carries.
    pub open spec fn reason(&self) -> Seq<char> {
        match self {
            AlertError::EvaluationError(reason) => reason@,
        }
    }

    /// The error as one line of text.
    pub open spec fn description(&self) -> Seq<char> {
        "Failed to evaluate alert condition: "@ + self.reason()
    }

    /// Writes the error as one line of text.
    pub fn describe(&self) -> (r: String)
        ensures
            r@ == self.description(),
    {
        match self {
            AlertError::EvaluationError(reason) => {
                String::from_str("Failed to evaluate alert condition: ").concat(reason.as_str())
            },
        }
    }
}

/// What an evaluation came to: no alert, one alert, or the reason why the
/// rule could not be evaluated.
pub type Verdict = Result<Option<AlertView>, Seq<char>>;

/// The verdict that an evaluation result stands for.
pub open spec fn verdict_of(result: Result<Option<Alert>, AlertError>) -> Verdict {
    match result {
        Ok(Some(alert)) => Ok(Some(alert@)),
        Ok(None) => Ok(None),
        Err(error) => Err(error.reason()),
    }
}

/// A rule looks at one snapshot and raises at most one alert. A condition
/// that is not met is no error: an error says that the rule could not make
/// its comparisons at all.
pub trait AlertRule {
    /// What the rule comes to when it is evaluated at the instant `now`.
    spec fn verdict(&self, now: Timestamp) -> Verdict;

    /// Evaluates the rule; an alert carries `now` as its timestamp.
    fn evaluate(&self, now: Timestamp) -> (result: Result<Option<Alert>, AlertError>)
        ensures
            verdict_of(result) == self.verdict(now),
    ;
}

/// Evaluates a rule at the instant that the system clock shows, which is
/// an instant with a written form.
pub fn evaluate_now<R: AlertRule>(rule: &R) -> (result: Result<Option<Alert>, AlertError>)
    ensures
        exists|now: Timestamp| now.writable() && verdict_of(result) == #[trigger] rule.verdict(now),
{
    let now = utc_now();
    let result = rule.evaluate(now);
    assert(now.writable() && verdict_of(result) == rule.verdict(now));
    result
}

/// Limits on resource usage, each in tenths of a percent.
#[derive(Debug, Clone, Copy, PartialEq, Eq, Structural)]
pub struct ResourceThreshold {
    pub cpu_threshold: u32,
    pub memory_threshold: u32,
    pub disk_threshold: u32,
}

impl ResourceThreshold {
    /// Whether each limit lies between 0% and 100%.
    pub open spec fn well_formed(&self) -> bool {
        self.cpu_threshold <= 1000 && self.memory_threshold <= 1000 && self.disk_threshold <= 1000
    }

    /// Limits from tenths of a percent, where each lies between 0% and 100%.
    pub fn new(cpu_threshold: u32, memory_threshold: u32, disk_threshold: u32) -> (r: Option<
        ResourceThreshold,
    >)
        ensures
            r == if cpu_threshold <= 1000 && memory_threshold <= 1000 && disk_threshold <= 1000 {
                Some(ResourceThreshold { cpu_threshold, memory_threshold, disk_threshold })
            } else {
                None
            },
            r matches Some(threshold) ==> threshold.well_formed(),
    {
        if cpu_threshold <= 1000 && memory_threshold <= 1000 && disk_threshold <= 1000 {
            Some(ResourceThreshold { cpu_threshold, memory_threshold, disk_threshold })
        } else {
            None
        }
    }
}

/// Compares one resource snapshot against the limits.
#[derive(Debug)]
pub struct ResourceAlertRule {
    pub threshold: ResourceThreshold,
    pub metrics: ResourceMetrics,
}

/// Raises an alert for a container that is not running.
#[derive(Debug)]
pub struct ContainerAlertRule {
    pub container: ContainerStatus,
}

/// Whether the CPU load is above its limit.
pub open spec fn cpu_exceeds(threshold: ResourceThreshold, metrics: ResourceMetrics) -> bool {
    metrics.cpu_usage > threshold.cpu_threshold
}

/// Whether the share of memory in use is above its limit. With no memory
/// reported at all the comparison is skipped.
pub open spec fn memory_exceeds(threshold: ResourceThreshold, metrics: ResourceMetrics) -> bool {
    share_exceeds(
        metrics.memory_used as nat,
        metrics.memory_total as nat,
        threshold.memory_threshold as nat,
    )
}

/// Whether the share of disk space in use is above its limit. With no disk
/// space reported at all the comparison is skipped.
pub open spec fn disk_exceeds(threshold: ResourceThreshold, metrics: ResourceMetrics) -> bool {
    share_exceeds(
        metrics.disk_used as nat,
        metrics.disk_total as nat,
        threshold.disk_threshold as nat,
    )
}

/// The warning for one resource: the message gives the usage after
/// `headline`, the details give the limit.
pub open spec fn usage_alert(
    now: Timestamp,
    source: Seq<char>,
    headline: Seq<char>,
    usage_tenths: nat,
    limit_tenths: nat,
) -> AlertView {
    AlertView {
        timestamp: now,
        severity: AlertSeverity::Warning,
        source,
        message: headline + percent(usage_tenths),
        details: "Threshold: "@ + percent(limit_tenths),
    }
}

/// The alert that a snapshot raises against the limits: for the first
/// resource above its limit, taking CPU before memory before disk, and none
/// where no resource is above its limit.
pub open spec fn threshold_alert(
    threshold: ResourceThreshold,
    metrics: ResourceMetrics,
    now: Timestamp,
) -> Option<AlertView> {
    if cpu_exceeds(threshold, metrics) {
        Some(
            usage_alert(
                now,
                "CPU"@,
                "High CPU usage: "@,
                metrics.cpu_usage as nat,
                threshold.cpu_threshold as nat,
            ),
        )
    } else if memory_exceeds(threshold, metrics) {
        Some(
            usage_alert(
                now,
                "Memory"@,
                "High memory usage: "@,
                share_tenths(metrics.memory_used as nat, metrics.memory_total as nat),
                threshold.memory_threshold as nat,
            ),
        )
    } else if disk_exceeds(threshold, metrics) {
        Some(
            usage_alert(
                now,
                "Disk"@,
                "High disk usage: "@,
                share_tenths(metrics.disk_used as nat, metrics.disk_total as nat),
                threshold.disk_threshold as nat,
            ),
        )
    } else {
        None
    }
}

/// The alert for a container that is not running.
pub open spec fn stopped_alert(container: ContainerStatusView, now: Timestamp) -> AlertView {
    AlertView {
        timestamp: now,
        severity: AlertSeverity::Critical,
        source: "Container"@,
        message: "Container "@ + container.name + " is not running"@,
        details: "Container ID: "@ + container.container_id + ", Status: "@ + container.status,
    }
}

/// The alert that a container snapshot raises: one where the container is
/// not running, none where it is.
pub open spec fn liveness_alert(container: ContainerStatusView, now: Timestamp) -> Option<
    AlertView,
> {
    if container.running {
        None
    } else {
        Some(stopped_alert(container, now))
    }
}

fn warn_of_usage(now: Timestamp, source: &str, headline: &str, usage_tenths: u128, limit_tenths: u32) -> (alert:
    Alert)
    ensures
        alert@ == usage_alert(now, source@, headline@, usage_tenths as nat, limit_tenths as nat),
{
    let usage = percent_text(usage_tenths);
    let limit = percent_text(limit_tenths as u128);
    Alert {
        timestamp: now,
        severity: AlertSeverity::Warning,
        source: String::from_str(source),
        message: String::from_str(headline).concat(usage.as_str()),
        details: String::from_str("Threshold: ").concat(limit.as_str()),
    }
}

impl ResourceAlertRule {
    pub fn new(threshold: ResourceThreshold, metrics: ResourceMetrics) -> (rule: Self)
        ensures
            rule.threshold == threshold,
            rule.metrics == metrics,
    {
        Self { threshold, metrics }
    }
}

impl AlertRule for ResourceAlertRule {
    open spec fn verdict(&self, now: Timestamp) -> Verdict {
        Ok(threshold_alert(self.threshold, self.metrics, now))
    }

    fn evaluate(&self, now: Timestamp) -> (result: Result<Option<Alert>, AlertError>) {
        let threshold = &self.threshold;
        let metrics = &self.metrics;
        if metrics.cpu_usage > threshold.cpu_threshold {
            return Ok(
                Some(
                    warn_of_usage(
                        now,
                        "CPU",
                        "High CPU usage: ",
                        metrics.cpu_usage as u128,
                        threshold.cpu_threshold,
                    ),
                ),
            );
        }
        if share_is_above(metrics.memory_used, metrics.memory_total, threshold.memory_threshold) {
            return Ok(
                Some(
                    warn_of_usage(
                        now,
                        "Memory",
                        "High memory usage: ",
                        share_in_tenths(metrics.memory_used, metrics.memory_total),
                        threshold.memory_threshold,
                    ),
                ),
            );
        }
        if share_is_above(metrics.disk_used, metrics.disk_total, threshold.disk_threshold) {
            return Ok(
                Some(
                    warn_of_usage(
                        now,
                        "Disk",
                        "High disk usage: ",
                        share_in_tenths(metrics.disk_used, metrics.disk_total),
                        threshold.disk_threshold,
                    ),
                ),
            );
        }
        Ok(None)
    }
}

impl AlertRule for ContainerAlertRule {
    open spec fn verdict(&self, now: Timestamp) -> Verdict {
        Ok(liveness_alert(self.container@, now))
    }

    fn evaluate(&self, now: Timestamp) -> (result: Result<Option<Alert>, AlertError>) {
        let container = &self.container;
        if !container.running {
            let message = String::from_str("Container ").concat(container.name.as_str()).concat(
                " is not running",
            );
            let details = String::from_str("Container ID: ").concat(
                container.container_id.as_str(),
            ).concat(", Status: ").concat(container.status.as_str());
            return Ok(
                Some(
                    Alert {
                        timestamp: now,
                        severity: AlertSeverity::Critical,
                        source: String::from_str("Container"),
                        message,
                        details,
                    },
                ),
            );
        }
        Ok(None)
    }
}

/// A snapshot with no resource above its limit raises no alert.
pub proof fn lemma_quiet_snapshot_raises_nothing(rule: ResourceAlertRule, now: Timestamp)
    requires
        !cpu_exceeds(rule.threshold, rule.metrics),
        !memory_exceeds(rule.threshold, rule.metrics),
        !disk_exceeds(rule.threshold, rule.metrics),
    ensures
        rule.verdict(now) == Ok::<Option<AlertView>, Seq<char>>(None),
{
}

/// A snapshot in which only the CPU load is above its limit raises one
/// alert, and its source is `CPU`.
pub proof fn lemma_cpu_alone_raises_cpu_alert(rule: ResourceAlertRule, now: Timestamp)
    requires
        cpu_exceeds(rule.threshold, rule.metrics),
        !memory_exceeds(rule.threshold, rule.metrics),
        !disk_exceeds(rule.threshold, rule.metrics),
    ensures
        rule.verdict(now) matches Ok(Some(alert)) && alert.source == "CPU"@,
{
}

/// Where several resources are above their limits at once, the one alert
/// raised is for the CPU if it is among them, else for memory, else for
/// disk.
pub proof fn lemma_first_exceeded_wins(rule: ResourceAlertRule, now: Timestamp)
    requires
        cpu_exceeds(rule.threshold, rule.metrics) || memory_exceeds(rule.threshold, rule.metrics)
            || disk_exceeds(rule.threshold, rule.metrics),
    ensures
        rule.verdict(now) matches Ok(Some(alert)) && alert.severity == AlertSeverity::Warning
            && alert.source == if cpu_exceeds(rule.threshold, rule.metrics) {
            "CPU"@
        } else if memory_exceeds(rule.threshold, rule.metrics) {
            "Memory"@
        } else {
            "Disk"@
        },
{
}

/// A container that is not running raises one critical alert whose details
/// contain the container's id and its status text as it was reported; a
/// running container raises none.
pub proof fn lemma_liveness_rule(rule: ContainerAlertRule, now: Timestamp)
    ensures
        rule.container.running ==> rule.verdict(now) == Ok::<Option<AlertView>, Seq<char>>(None),
        !rule.container.running ==> (rule.verdict(now) matches Ok(Some(alert)) && alert.severity
            == AlertSeverity::Critical && alert.source == "Container"@ && occurs_in(
            rule.container.container_id@,
            alert.details,
        ) && occurs_in(rule.container.status@, alert.details)),
{
    if !rule.container.running {
        let id = rule.container.container_id@;
        let status = rule.container.status@;
        let head = "Container ID: "@;
        let middle = ", Status: "@;
        let details = head + id + middle + status;
        let at_id = head.len() as int;
        assert(details.subrange(at_id, at_id + id.len()) =~= id);
        let at_status = at_id + id.len() + middle.len();
        assert(details.subrange(at_status, at_status + status.len()) =~= status);
    }
}

/// The instant of evaluation shows in the alert's timestamp and nowhere
/// else: evaluating the same threshold rule at two instants gives either no
/// alert both times, or two alerts that differ in their timestamps only.
pub proof fn lemma_threshold_rule_repeats(rule: ResourceAlertRule, first: Timestamp, second: Timestamp)
    ensures
        match (rule.verdict(first), rule.verdict(second)) {
            (Ok(Some(a)), Ok(Some(b))) => a.timestamp == first && b == AlertView {
                timestamp: second,
                ..a
            },
            (Ok(None), Ok(None)) => true,
            _ => false,
        },
{
}

/// Evaluating the same liveness rule at two instants gives either no alert
/// both times, or two alerts that differ in their timestamps only.
pub proof fn lemma_liveness_rule_repeats(rule: ContainerAlertRule, first: Timestamp, second: Timestamp)
    ensures
        match (rule.verdict(first), rule.verdict(second)) {
            (Ok(Some(a)), Ok(Some(b))) => a.timestamp == first && b == AlertView {
                timestamp: second,
                ..a
            },
            (Ok(None), Ok(None)) => true,
            _ => false,
        },
{
}

} // verus!
