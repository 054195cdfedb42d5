//! The monitoring cycle as a state machine. The machine decides; whoever
//! drives it does the work: it performs the action that a step asks for and
//! reports back what came of it as the next event.

use vstd::prelude::*;
use vstd::string::*;
use crate::alerting::{
    liveness_alert, threshold_alert, Alert, AlertRule, AlertView, ContainerAlertRule,
    ResourceAlertRule, ResourceThreshold,
};
use crate::clock::{utc_now, Timestamp};
use crate::container_monitor::{ContainerError, ContainerStatus};
use crate::notification::NotificationError;
use crate::resource_monitor::{ResourceError, ResourceMetrics};
use crate::text::{decimal, decimal_text};

verus! {

/// Where in its cycle the monitor is.
#[derive(Debug, Clone, Copy, PartialEq, Eq, Structural)]
pub enum Phase {
    /// Between two cycles, until the next tick.
    Waiting,
    /// A resource snapshot was asked for.
    SamplingResources,
    /// The resource alert is going out to the channels.
    DispatchingResources,
    /// The container listing was asked for.
    SamplingContainers,
    /// The container alerts are going out to the channels.
    DispatchingContainers,
}

impl Phase {
    /// Whether alerts are going out in this phase.
    pub open spec fn dispatching(self) -> bool {
        self == Phase::DispatchingResources || self == Phase::DispatchingContainers
    }
}

/// What happened outside the monitor.
#[derive(Debug)]
pub enum Event {
    /// The timer fired: a new cycle is due.
    Tick,
    /// The metrics source answered.
    Metrics(Result<ResourceMetrics, ResourceError>),
    /// The inventory source answered.
    Inventory(Result<Vec<ContainerStatus>, ContainerError>),
    /// The channel that was last asked to send has finished.
    Delivery(Result<(), NotificationError>),
}

/// What the monitor asks for next.
#[derive(Debug)]
pub enum Action {
    /// Wait for the next tick.
    Sleep,
    /// Take a resource snapshot.
    SampleMetrics,
    /// List the containers.
    ListContainers,
    /// Hand `alert` to the channel registered at position `channel`.
    Send { channel: usize, alert: Alert },
}

/// What an `Action` holds, with the alert as its view.
pub enum ActionView {
    Sleep,
    SampleMetrics,
    ListContainers,
    Send { channel: nat, alert: AlertView },
}

impl View for Action {
    type V = ActionView;

    open spec fn view(&self) -> ActionView {
        match self {
            Action::Sleep => ActionView::Sleep,
            Action::SampleMetrics => ActionView::SampleMetrics,
            Action::ListContainers => ActionView::ListContainers,
            Action::Send { channel, alert } => ActionView::Send {
                channel: *channel as nat,
                alert: alert@,
            },
        }
    }
}

/// The views of a list of alerts.
pub open spec fn alert_views(alerts: Seq<Alert>) -> Seq<AlertView> {
    alerts.map_values(|alert: Alert| alert@)
}

/// A failure that the monitor went on from, for the log.
#[derive(Debug)]
pub enum Notice {
    /// No resource snapshot this cycle.
    SamplingFailed(ResourceError),
    /// No container listing this cycle.
    InventoryFailed(ContainerError),
    /// The channel at position `channel` did not deliver `alert`.
    DeliveryFailed { channel: usize, alert: Alert, error: NotificationError },
    /// These alerts were raised with no channel registered to send them to.
    Undelivered(Vec<Alert>),
}

/// What a `Notice` holds, with the alerts as their views.
pub enum NoticeView {
    SamplingFailed(ResourceError),
    InventoryFailed(ContainerError),
    DeliveryFailed { channel: nat, alert: AlertView, error: NotificationError },
    Undelivered(Seq<AlertView>),
}

impl View for Notice {
    type V = NoticeView;

    open spec fn view(&self) -> NoticeView {
        match self {
            Notice::SamplingFailed(error) => NoticeView::SamplingFailed(*error),
            Notice::InventoryFailed(error) => NoticeView::InventoryFailed(*error),
            Notice::DeliveryFailed { channel, alert, error } => NoticeView::DeliveryFailed {
                channel: *channel as nat,
                alert: alert@,
                error: *error,
            },
            Notice::Undelivered(alerts) => NoticeView::Undelivered(alert_views(alerts@)),
        }
    }
}

impl NoticeView {
    /// The line that the log gets for the notice. For a failed delivery it
    /// names the channel and the alert after the error.
    pub open spec fn log_line(self) -> Seq<char> {
        match self {
            NoticeView::SamplingFailed(error) => error.description(),
            NoticeView::InventoryFailed(error) => error.description(),
            NoticeView::DeliveryFailed { channel, alert, error } => error.description()
                + " (channel "@ + decimal(channel) + ", "@ + alert.source + ": "@ + alert.message
                + ")"@,
            NoticeView::Undelivered(alerts) => "No channel registered: "@ + decimal(alerts.len())
                + " alert(s) not sent"@,
        }
    }
}

impl Notice {
    /// Writes the line that the log gets for the notice.
    pub fn log_line(&self) -> (line: String)
        ensures
            line@ == self@.log_line(),
    {
        match self {
            Notice::SamplingFailed(error) => error.describe(),
            Notice::InventoryFailed(error) => error.describe(),
            Notice::DeliveryFailed { channel, alert, error } => {
                let position = decimal_text(*channel as u128);
                error.describe().concat(" (channel ").concat(position.as_str()).concat(", ").concat(
                    alert.source.as_str(),
                ).concat(": ").concat(alert.message.as_str()).concat(")")
            },
            Notice::Undelivered(alerts) => {
                let count = decimal_text(alerts.len() as u128);
                proof {
                    assert(alert_views(alerts@).len() == alerts@.len());
                }
                String::from_str("No channel registered: ").concat(count.as_str()).concat(
                    " alert(s) not sent",
                )
            },
        }
    }
}

/// The outcome of one step: what to do next, and what to log.
#[derive(Debug)]
pub struct Step {
    pub action: Action,
    pub notice: Option<Notice>,
}

/// What a `Step` holds, with its parts as their views.
pub struct StepView {
    pub action: ActionView,
    pub notice: Option<NoticeView>,
}

impl View for Step {
    type V = StepView;

    open spec fn view(&self) -> StepView {
        StepView {
            action: self.action@,
            notice: match self.notice {
                Some(notice) => Some(notice@),
                None => None,
            },
        }
    }
}

/// The state of a monitor.
pub struct MonitorView {
    pub threshold: ResourceThreshold,
    /// How many channels are registered.
    pub channels: nat,
    pub phase: Phase,
    /// The alerts of the current stage that have not been to every channel
    /// yet; the first of them is going out.
    pub pending: Seq<AlertView>,
    /// The position of the channel that was asked to send.
    pub channel: nat,
}

impl MonitorView {
    /// While alerts go out, there is an alert and a channel that has it;
    /// otherwise nothing is pending.
    pub open spec fn wf(self) -> bool {
        if self.phase.dispatching() {
            self.pending.len() > 0 && self.channel < self.channels
        } else {
            self.pending.len() == 0 && self.channel == 0
        }
    }
}

/// The monitor before its first tick.
pub open spec fn initial(threshold: ResourceThreshold, channels: nat) -> MonitorView {
    MonitorView { threshold, channels, phase: Phase::Waiting, pending: Seq::empty(), channel: 0 }
}

/// The alerts that a container listing raises: one for each container that
/// is not running, in the listing's order.
pub open spec fn liveness_alerts(containers: Seq<ContainerStatus>, now: Timestamp) -> Seq<AlertView>
    decreases containers.len(),
{
    if containers.len() == 0 {
        Seq::empty()
    } else {
        let earlier = liveness_alerts(containers.drop_last(), now);
        match liveness_alert(containers.last()@, now) {
            Some(alert) => earlier.push(alert),
            None => earlier,
        }
    }
}

/// Takes up the alerts of a stage. With an alert and a channel to send it
/// to, the first alert goes to the first channel. With no alert, or no
/// channel, the stage is over: after the resources come the containers,
/// after the containers the monitor waits.
pub open spec fn taken_up(state: MonitorView, alerts: Seq<AlertView>, last_stage: bool) -> (
    MonitorView,
    ActionView,
) {
    if alerts.len() > 0 && state.channels > 0 {
        (
            MonitorView {
                phase: if last_stage {
                    Phase::DispatchingContainers
                } else {
                    Phase::DispatchingResources
                },
                pending: alerts,
                channel: 0,
                ..state
            },
            ActionView::Send { channel: 0, alert: alerts[0] },
        )
    } else if last_stage {
        (
            MonitorView { phase: Phase::Waiting, pending: Seq::empty(), channel: 0, ..state },
            ActionView::Sleep,
        )
    } else {
        (
            MonitorView {
                phase: Phase::SamplingContainers,
                pending: Seq::empty(),
                channel: 0,
                ..state
            },
            ActionView::ListContainers,
        )
    }
}

/// The alerts of an optional alert.
pub open spec fn alerts_of(alert: Option<AlertView>) -> Seq<AlertView> {
    match alert {
        Some(alert) => seq![alert],
        None => Seq::empty(),
    }
}

/// What the monitor logs where it takes up alerts: with no channel
/// registered, that the alerts are not sent.
pub open spec fn unsent_notice(state: MonitorView, alerts: Seq<AlertView>) -> Option<NoticeView> {
    if alerts.len() > 0 && state.channels == 0 {
        Some(NoticeView::Undelivered(alerts))
    } else {
        None
    }
}

/// What the monitor logs for the outcome of a delivery.
pub open spec fn delivery_notice(
    state: MonitorView,
    outcome: Result<(), NotificationError>,
) -> Option<NoticeView> {
    match outcome {
        Ok(_) => None,
        Err(error) => Some(
            NoticeView::DeliveryFailed { channel: state.channel, alert: state.pending[0], error },
        ),
    }
}

/// One step of the monitor: the state and the step that follow from a state
/// and an event at the instant `now`, or `None` where the event is not the
/// one that the state waits for.
///
/// A tick starts a cycle with the resource snapshot. A snapshot is held
/// against the limits, and an alert goes to every channel in the order of
/// registration, one delivery at a time, whatever the deliveries come to.
/// Then the containers are listed, and each alert they raise goes the same
/// way. A source that fails is logged and ends its own stage only. Alerts
/// that are raised with no channel registered are logged.
pub open spec fn next(state: MonitorView, event: Event, now: Timestamp) -> Option<
    (MonitorView, StepView),
> {
    match (state.phase, event) {
        (Phase::Waiting, Event::Tick) => Some(
            (
                MonitorView { phase: Phase::SamplingResources, ..state },
                StepView { action: ActionView::SampleMetrics, notice: None },
            ),
        ),
        (Phase::SamplingResources, Event::Metrics(Err(error))) => Some(
            (
                MonitorView { phase: Phase::SamplingContainers, ..state },
                StepView {
                    action: ActionView::ListContainers,
                    notice: Some(NoticeView::SamplingFailed(error)),
                },
            ),
        ),
        (Phase::SamplingResources, Event::Metrics(Ok(metrics))) => {
            let alerts = alerts_of(threshold_alert(state.threshold, metrics, now));
            let (after, action) = taken_up(state, alerts, false);
            Some((after, StepView { action, notice: unsent_notice(state, alerts) }))
        },
        (Phase::SamplingContainers, Event::Inventory(Err(error))) => Some(
            (
                MonitorView { phase: Phase::Waiting, ..state },
                StepView {
                    action: ActionView::Sleep,
                    notice: Some(NoticeView::InventoryFailed(error)),
                },
            ),
        ),
        (Phase::SamplingContainers, Event::Inventory(Ok(containers))) => {
            let alerts = liveness_alerts(containers@, now);
            let (after, action) = taken_up(state, alerts, true);
            Some((after, StepView { action, notice: unsent_notice(state, alerts) }))
        },
        (Phase::DispatchingResources, Event::Delivery(outcome)) => Some(
            delivered(state, outcome, false),
        ),
        (Phase::DispatchingContainers, Event::Delivery(outcome)) => Some(
            delivered(state, outcome, true),
        ),
        _ => None,
    }
}

/// The step after a delivery: the same alert goes to the next channel, and
/// after the last channel the remaining alerts of the stage are taken up. A
/// failed delivery is logged and changes nothing else.
pub open spec fn delivered(
    state: MonitorView,
    outcome: Result<(), NotificationError>,
    last_stage: bool,
) -> (MonitorView, StepView) {
    let notice = delivery_notice(state, outcome);
    if state.channel + 1 < state.channels {
        (
            MonitorView { channel: state.channel + 1, ..state },
            StepView {
                action: ActionView::Send { channel: state.channel + 1, alert: state.pending[0] },
                notice,
            },
        )
    } else {
        let (after, action) = taken_up(state, state.pending.drop_first(), last_stage);
        (after, StepView { action, notice })
    }
}

/// The monitor after a run of deliveries, with the steps it took, or `None`
/// where one of the deliveries was not waited for.
pub open spec fn after_deliveries(
    state: MonitorView,
    outcomes: Seq<Result<(), NotificationError>>,
    now: Timestamp,
) -> Option<(MonitorView, Seq<StepView>)>
    decreases outcomes.len(),
{
    if outcomes.len() == 0 {
        Some((state, Seq::empty()))
    } else {
        match after_deliveries(state, outcomes.drop_last(), now) {
            Some((reached, steps)) => match next(reached, Event::Delivery(outcomes.last()), now) {
                Some((after, step)) => Some((after, steps.push(step))),
                None => None,
            },
            None => None,
        }
    }
}

/// Every step leads from a well-formed state to a well-formed state.
pub proof fn lemma_next_keeps_wf(state: MonitorView, event: Event, now: Timestamp)
    requires
        state.wf(),
    ensures
        next(state, event, now) matches Some((after, _)) ==> after.wf(),
{
}

/// A failing metrics source does not end the cycle: the failure is logged
/// and the monitor goes on to list the containers.
pub proof fn lemma_sampling_failure_leads_to_inventory(
    state: MonitorView,
    error: ResourceError,
    now: Timestamp,
)
    requires
        state.phase == Phase::SamplingResources,
    ensures
        next(state, Event::Metrics(Err(error)), now) == Some(
            (
                MonitorView { phase: Phase::SamplingContainers, ..state },
                StepView {
                    action: ActionView::ListContainers,
                    notice: Some(NoticeView::SamplingFailed(error)),
                },
            ),
        ),
{
}

/// An alert goes to every channel exactly once, in the order of
/// registration, whatever the deliveries come to. The alert starts out at
/// channel 0; after any run of fewer deliveries than there are channels,
/// failed or not, the monitor has asked each following channel in turn to
/// send the same alert, has logged exactly the deliveries that failed, and
/// still holds the same alerts.
pub proof fn lemma_every_channel_is_asked(
    state: MonitorView,
    outcomes: Seq<Result<(), NotificationError>>,
    now: Timestamp,
)
    requires
        state.wf(),
        state.phase.dispatching(),
        state.channel == 0,
        outcomes.len() < state.channels,
    ensures
        after_deliveries(state, outcomes, now) matches Some((after, steps)) && after
            == (MonitorView { channel: outcomes.len(), ..state }) && steps.len() == outcomes.len()
            && forall|i: int|
            0 <= i < outcomes.len() ==> (#[trigger] steps[i]).action == (ActionView::Send {
                channel: (i + 1) as nat,
                alert: state.pending[0],
            }) && steps[i].notice == match outcomes[i] {
                Ok(_) => None,
                Err(error) => Some(
                    NoticeView::DeliveryFailed {
                        channel: i as nat,
                        alert: state.pending[0],
                        error,
                    },
                ),
            },
    decreases outcomes.len(),
{
    if outcomes.len() > 0 {
        lemma_every_channel_is_asked(state, outcomes.drop_last(), now);
        let (reached, _) = after_deliveries(state, outcomes.drop_last(), now).unwrap();
        assert(reached.channel + 1 < reached.channels);
        assert(reached.phase.dispatching());
        assert forall|i: int| 0 <= i < outcomes.len() - 1 implies outcomes.drop_last()[i]
            == outcomes[i] by {}
    }
}

/// The whole way of one alert: from the moment it goes to channel 0, a run
/// of as many deliveries as there are channels, failed or not, asks the
/// channels 1, 2, and so on, once each and in this order, and with the last
/// delivery the monitor turns to what is left of the stage. So every
/// channel is asked exactly once for the alert.
pub proof fn lemma_fan_out_is_complete(
    state: MonitorView,
    outcomes: Seq<Result<(), NotificationError>>,
    now: Timestamp,
)
    requires
        state.wf(),
        state.phase.dispatching(),
        state.channel == 0,
        outcomes.len() == state.channels,
    ensures
        after_deliveries(state, outcomes, now) matches Some((after, steps)) && steps.len()
            == state.channels && (forall|i: int|
            0 <= i < state.channels - 1 ==> (#[trigger] steps[i]).action == (ActionView::Send {
                channel: (i + 1) as nat,
                alert: state.pending[0],
            })) && (after, steps.last().action) == taken_up(
            state,
            state.pending.drop_first(),
            state.phase == Phase::DispatchingContainers,
        ),
{
    let earlier = outcomes.drop_last();
    lemma_every_channel_is_asked(state, earlier, now);
    let (reached, steps) = after_deliveries(state, earlier, now).unwrap();
    lemma_last_channel_ends_the_alert(reached, outcomes.last(), now);
    let (after, last) = next(reached, Event::Delivery(outcomes.last()), now).unwrap();
    assert(after_deliveries(state, outcomes, now) == Some((after, steps.push(last))));
}

/// An alert that has been to the last channel is done: the delivery that
/// the last channel reports, failed or not, takes up the remaining alerts
/// of the stage.
pub proof fn lemma_last_channel_ends_the_alert(
    state: MonitorView,
    outcome: Result<(), NotificationError>,
    now: Timestamp,
)
    requires
        state.wf(),
        state.phase.dispatching(),
        state.channel + 1 == state.channels,
    ensures
        next(state, Event::Delivery(outcome), now) matches Some((after, step)) && (after, step.action)
            == taken_up(
            state,
            state.pending.drop_first(),
            state.phase == Phase::DispatchingContainers,
        ) && step.notice == delivery_notice(state, outcome),
{
}

/// Drives one monitoring cycle after another.
pub struct Monitor {
    threshold: ResourceThreshold,
    channels: usize,
    phase: Phase,
    pending: Vec<Alert>,
    channel: usize,
}

impl View for Monitor {
    type V = MonitorView;

    closed spec fn view(&self) -> MonitorView {
        MonitorView {
            threshold: self.threshold,
            channels: self.channels as nat,
            phase: self.phase,
            pending: alert_views(self.pending@),
            channel: self.channel as nat,
        }
    }
}

fn raise_liveness_alerts(containers: &Vec<ContainerStatus>, now: Timestamp) -> (alerts: Vec<Alert>)
    ensures
        alert_views(alerts@) == liveness_alerts(containers@, now),
{
    let mut alerts: Vec<Alert> = Vec::new();
    let mut at: usize = 0;
    assert(alert_views(alerts@) =~= Seq::<AlertView>::empty());
    while at < containers.len()
        invariant
            at <= containers@.len(),
            alert_views(alerts@) == liveness_alerts(containers@.take(at as int), now),
        decreases containers@.len() - at,
    {
        let rule = ContainerAlertRule { container: containers[at].clone() };
        let ghost before = alerts@;
        assert(containers@.take(at as int + 1).drop_last() =~= containers@.take(at as int));
        assert(containers@.take(at as int + 1).last() == containers@[at as int]);
        match rule.evaluate(now) {
            Ok(Some(alert)) => {
                alerts.push(alert);
                assert(alert_views(alerts@) =~= alert_views(before).push(alert@));
            },
            _ => {},
        }
        at = at + 1;
    }
    assert(containers@.take(at as int) =~= containers@);
    alerts
}

impl Monitor {
    /// Whether the monitor is in one piece.
    pub open spec fn wf(&self) -> bool {
        self@.wf()
    }

    /// A monitor for `channels` registered channels that holds snapshots
    /// against `threshold`. It waits for its first tick.
    pub fn new(threshold: ResourceThreshold, channels: usize) -> (monitor: Self)
        ensures
            monitor@ == initial(threshold, channels as nat),
            monitor.wf(),
    {
        let monitor = Monitor {
            threshold,
            channels,
            phase: Phase::Waiting,
            pending: Vec::new(),
            channel: 0,
        };
        assert(alert_views(monitor.pending@) =~= Seq::<AlertView>::empty());
        monitor
    }

    pub fn phase(&self) -> (phase: Phase)
        ensures
            phase == self@.phase,
    {
        self.phase
    }

    pub fn channels(&self) -> (channels: usize)
        ensures
            channels == self@.channels,
    {
        self.channels
    }

    fn take_up(&mut self, alerts: Vec<Alert>, last_stage: bool) -> (action: Action)
        ensures
            (final(self)@, action@) == taken_up(old(self)@, alert_views(alerts@), last_stage),
    {
        if alerts.len() > 0 && self.channels > 0 {
            let first = alerts[0].clone();
            self.phase = if last_stage {
                Phase::DispatchingContainers
            } else {
                Phase::DispatchingResources
            };
            self.pending = alerts;
            self.channel = 0;
            Action::Send { channel: 0, alert: first }
        } else {
            self.pending = Vec::new();
            self.channel = 0;
            assert(alert_views(self.pending@) =~= Seq::<AlertView>::empty());
            if last_stage {
                self.phase = Phase::Waiting;
                Action::Sleep
            } else {
                self.phase = Phase::SamplingContainers;
                Action::ListContainers
            }
        }
    }

    fn take_up_logged(&mut self, alerts: Vec<Alert>, last_stage: bool) -> (step: Step)
        ensures
            (final(self)@, step@.action) == taken_up(old(self)@, alert_views(alerts@), last_stage),
            step@.notice == unsent_notice(old(self)@, alert_views(alerts@)),
    {
        if self.channels == 0 && alerts.len() > 0 {
            let action = self.take_up(Vec::new(), last_stage);
            Step { action, notice: Some(Notice::Undelivered(alerts)) }
        } else {
            let action = self.take_up(alerts, last_stage);
            Step { action, notice: None }
        }
    }

    fn deliver(&mut self, outcome: Result<(), NotificationError>, last_stage: bool) -> (step: Step)
        requires
            old(self).wf(),
            old(self)@.phase.dispatching(),
        ensures
            (final(self)@, step@) == delivered(old(self)@, outcome, last_stage),
    {
        let notice = match outcome {
            Ok(_) => None,
            Err(error) => Some(
                Notice::DeliveryFailed {
                    channel: self.channel,
                    alert: self.pending[0].clone(),
                    error,
                },
            ),
        };
        if self.channel + 1 < self.channels {
            self.channel = self.channel + 1;
            let alert = self.pending[0].clone();
            Step { action: Action::Send { channel: self.channel, alert }, notice }
        } else {
            let mut rest: Vec<Alert> = Vec::new();
            std::mem::swap(&mut self.pending, &mut rest);
            let ghost all = rest@;
            rest.remove(0);
            assert(alert_views(rest@) =~= alert_views(all).drop_first());
            let action = self.take_up(rest, last_stage);
            Step { action, notice }
        }
    }

    /// Takes one step: moves to the state that follows from `event` at the
    /// instant `now` and says what to do next and what to log. An event that
    /// the monitor does not wait for is answered with `None` and changes
    /// nothing.
    pub fn step(&mut self, event: Event, now: Timestamp) -> (taken: Option<Step>)
        requires
            old(self).wf(),
        ensures
            final(self).wf(),
            match next(old(self)@, event, now) {
                Some((after, step)) => taken matches Some(step_taken) && step_taken@ == step
                    && final(self)@ == after,
                None => taken is None && final(self)@ == old(self)@,
            },
    {
        proof {
            lemma_next_keeps_wf(self@, event, now);
        }
        match self.phase {
            Phase::Waiting => match event {
                Event::Tick => {
                    self.phase = Phase::SamplingResources;
                    Some(Step { action: Action::SampleMetrics, notice: None })
                },
                _ => None,
            },
            Phase::SamplingResources => match event {
                Event::Metrics(Err(error)) => {
                    self.phase = Phase::SamplingContainers;
                    Some(
                        Step {
                            action: Action::ListContainers,
                            notice: Some(Notice::SamplingFailed(error)),
                        },
                    )
                },
                Event::Metrics(Ok(metrics)) => {
                    let rule = ResourceAlertRule::new(self.threshold, metrics);
                    let mut alerts: Vec<Alert> = Vec::new();
                    assert(alert_views(alerts@) =~= Seq::<AlertView>::empty());
                    match rule.evaluate(now) {
                        Ok(Some(alert)) => {
                            alerts.push(alert);
                            assert(alert_views(alerts@) =~= seq![alert@]);
                        },
                        _ => {},
                    }
                    Some(self.take_up_logged(alerts, false))
                },
                _ => None,
            },
            Phase::SamplingContainers => match event {
                Event::Inventory(Err(error)) => {
                    self.phase = Phase::Waiting;
                    Some(
                        Step {
                            action: Action::Sleep,
                            notice: Some(Notice::InventoryFailed(error)),
                        },
                    )
                },
                Event::Inventory(Ok(containers)) => {
                    let alerts = raise_liveness_alerts(&containers, now);
                    Some(self.take_up_logged(alerts, true))
                },
                _ => None,
            },
            Phase::DispatchingResources => match event {
                Event::Delivery(outcome) => Some(self.deliver(outcome, false)),
                _ => None,
            },
            Phase::DispatchingContainers => match event {
                Event::Delivery(outcome) => Some(self.deliver(outcome, true)),
                _ => None,
            },
        }
    }

    /// Takes one step at the instant that the system clock shows, which is
    /// an instant with a written form.
    pub fn step_now(&mut self, event: Event) -> (taken: Option<Step>)
        requires
            old(self).wf(),
        ensures
            final(self).wf(),
            exists|now: Timestamp|
                now.writable() && match #[trigger] next(old(self)@, event, now) {
                    Some((after, step)) => taken matches Some(step_taken) && step_taken@ == step
                        && final(self)@ == after,
                    None => taken is None && final(self)@ == old(self)@,
                },
    {
        let now = utc_now();
        let ghost before = self@;
        let taken = self.step(event, now);
        assert(now.writable() && match next(before, event, now) {
            Some((after, step)) => taken matches Some(step_taken) && step_taken@ == step && self@
                == after,
            None => taken is None && self@ == before,
        });
        taken
    }
}

} // verus!
