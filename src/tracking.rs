//! The shared tracking state and the periodic sampler's decisions.
//!
//! One `AppState` lives for the whole process behind a single lock held by
//! the embedding program. The start / stop commands change the tracking flag
//! and the identity together; the sampler, on each tick, asks whether to
//! probe, then records what the probe found and says what to publish.

use vstd::prelude::*;
use crate::probe::{ProbeError, WindowInfo, WindowInfoView};

verus! {

/// The credentials with which activity is reported: all three or none.
pub struct Identity {
    pub user_id: String,
    pub team_id: String,
    pub token: String,
}

pub struct IdentityView {
    pub user_id: Seq<char>,
    pub team_id: Seq<char>,
    pub token: Seq<char>,
}

impl View for Identity {
    type V = IdentityView;

    open spec fn view(&self) -> IdentityView {
        IdentityView { user_id: self.user_id@, team_id: self.team_id@, token: self.token@ }
    }
}

impl Clone for Identity {
    fn clone(&self) -> (r: Identity)
        ensures
            r@ == self@,
    {
        Identity {
            user_id: self.user_id.clone(),
            team_id: self.team_id.clone(),
            token: self.token.clone(),
        }
    }
}

/// One timestamped sample of activity. The idle time is in milliseconds, so
/// it is never negative.
pub struct ActivityData {
    pub active_app: String,
    pub window_title: String,
    pub idle_millis: u64,
    /// Seconds since the Unix epoch.
    pub timestamp: i64,
}

pub struct ActivityView {
    pub active_app: Seq<char>,
    pub window_title: Seq<char>,
    pub idle_millis: u64,
    pub timestamp: i64,
}

impl View for ActivityData {
    type V = ActivityView;

    open spec fn view(&self) -> ActivityView {
        ActivityView {
            active_app: self.active_app@,
            window_title: self.window_title@,
            idle_millis: self.idle_millis,
            timestamp: self.timestamp,
        }
    }
}

impl Clone for ActivityData {
    fn clone(&self) -> (r: ActivityData)
        ensures
            r@ == self@,
    {
        ActivityData {
            active_app: self.active_app.clone(),
            window_title: self.window_title.clone(),
            idle_millis: self.idle_millis,
            timestamp: self.timestamp,
        }
    }
}

/// The record shared by the sampler and the commands.
pub struct AppState {
    pub is_tracking: bool,
    pub identity: Option<Identity>,
    pub last_activity: Option<ActivityData>,
}

pub struct StateView {
    pub is_tracking: bool,
    pub identity: Option<IdentityView>,
    pub last_activity: Option<ActivityView>,
}

pub open spec fn identity_view(i: Option<Identity>) -> Option<IdentityView> {
    match i {
        Some(x) => Some(x@),
        None => None,
    }
}

pub open spec fn activity_view(a: Option<ActivityData>) -> Option<ActivityView> {
    match a {
        Some(x) => Some(x@),
        None => None,
    }
}

impl View for AppState {
    type V = StateView;

    open spec fn view(&self) -> StateView {
        StateView {
            is_tracking: self.is_tracking,
            identity: identity_view(self.identity),
            last_activity: activity_view(self.last_activity),
        }
    }
}

impl Clone for AppState {
    fn clone(&self) -> (r: AppState)
        ensures
            r@ == self@,
    {
        AppState {
            is_tracking: self.is_tracking,
            identity: match &self.identity {
                Some(i) => Some(i.clone()),
                None => None,
            },
            last_activity: match &self.last_activity {
                Some(a) => Some(a.clone()),
                None => None,
            },
        }
    }
}

/// What the sampler does on a tick before touching the probe.
#[derive(Debug, Clone, Copy, PartialEq, Eq, Structural)]
pub enum TickAction {
    /// Tracking is off: no probe call, no change, nothing published.
    Skip,
    /// Tracking is on: call both probes and record what they found.
    Probe,
}

/// The state at process start.
pub open spec fn initial_state() -> StateView {
    StateView { is_tracking: false, identity: None, last_activity: None }
}

/// The state after `start_tracking` under identity `id`.
pub open spec fn started(s: StateView, id: IdentityView) -> StateView {
    StateView { is_tracking: true, identity: Some(id), ..s }
}

/// The state after `stop_tracking`.
pub open spec fn stopped(s: StateView) -> StateView {
    StateView { is_tracking: false, identity: None, ..s }
}

pub open spec fn window_info_view(w: Result<WindowInfo, ProbeError>) -> Result<WindowInfoView, ProbeError> {
    match w {
        Ok(x) => Ok(x@),
        Err(e) => Err(e),
    }
}

/// The sample built from the two probe results at a given time; the window
/// probe's failure comes first.
pub open spec fn sample_of(
    window: Result<WindowInfoView, ProbeError>,
    idle: Result<u64, ProbeError>,
    now: i64,
) -> Result<ActivityView, ProbeError> {
    match window {
        Err(e) => Err(e),
        Ok(w) => match idle {
            Err(e) => Err(e),
            Ok(ms) => Ok(
                ActivityView {
                    active_app: w.app_name,
                    window_title: w.window_title,
                    idle_millis: ms,
                    timestamp: now,
                },
            ),
        },
    }
}

/// The state after a tick whose probing gave `outcome`: the sample is kept
/// only while tracking is on.
pub open spec fn after_tick(s: StateView, outcome: Result<ActivityView, ProbeError>) -> StateView {
    match outcome {
        Ok(a) => if s.is_tracking { StateView { last_activity: Some(a), ..s } } else { s },
        Err(_) => s,
    }
}

/// What a tick whose probing gave `outcome` publishes.
pub open spec fn published(s: StateView, outcome: Result<ActivityView, ProbeError>) -> Option<ActivityView> {
    match outcome {
        Ok(a) => if s.is_tracking { Some(a) } else { None },
        Err(_) => None,
    }
}

/// Whether a built sample, or its failure, is the one described.
pub open spec fn same_sample(r: Result<ActivityData, ProbeError>, s: Result<ActivityView, ProbeError>) -> bool {
    match (r, s) {
        (Ok(a), Ok(v)) => a@ == v,
        (Err(e), Err(f)) => e == f,
        _ => false,
    }
}

/// Relies on chrono's `From<SystemTime> for DateTime<Utc>` and
/// `DateTime::timestamp`: the current time in whole seconds since the Unix
/// epoch, negative for a clock set before the epoch. Nothing more is known of
/// the value.
#[verifier::external_body]
fn now_timestamp() -> (r: i64) {
    chrono::DateTime::<chrono::Utc>::from(std::time::SystemTime::now()).timestamp()
}

/// Builds the sample of two probe results taken at time `now`.
pub fn activity_at(
    window: Result<WindowInfo, ProbeError>,
    idle: Result<u64, ProbeError>,
    now: i64,
) -> (r: Result<ActivityData, ProbeError>)
    ensures
        same_sample(r, sample_of(window_info_view(window), idle, now)),
{
    match window {
        Err(e) => Err(e),
        Ok(w) => match idle {
            Err(e) => Err(e),
            Ok(ms) => Ok(
                ActivityData {
                    active_app: w.app_name,
                    window_title: w.window_title,
                    idle_millis: ms,
                    timestamp: now,
                },
            ),
        },
    }
}

/// Builds the sample of two fresh probe results, stamped with the current
/// time.
pub fn get_current_activity(
    window: Result<WindowInfo, ProbeError>,
    idle: Result<u64, ProbeError>,
) -> (r: Result<ActivityData, ProbeError>)
    ensures
        exists|now: i64|
            same_sample(r, #[trigger] sample_of(window_info_view(window), idle, now)),
{
    let now = now_timestamp();
    activity_at(window, idle, now)
}

impl Default for AppState {
    fn default() -> (r: AppState)
        ensures
            r@ == initial_state(),
    {
        AppState { is_tracking: false, identity: None, last_activity: None }
    }
}

impl AppState {
    /// Turns tracking on under the given identity, replacing any earlier one.
    pub fn start_tracking(&mut self, user_id: String, team_id: String, token: String)
        ensures
            final(self)@ == started(
                old(self)@,
                IdentityView { user_id: user_id@, team_id: team_id@, token: token@ },
            ),
    {
        self.is_tracking = true;
        self.identity = Some(Identity { user_id, team_id, token });
    }

    /// Turns tracking off and forgets the identity; the last sample stays.
    pub fn stop_tracking(&mut self)
        ensures
            final(self)@ == stopped(old(self)@),
    {
        self.is_tracking = false;
        self.identity = None;
    }

    /// A copy of the whole state for read-only commands.
    pub fn snapshot(&self) -> (r: AppState)
        ensures
            r@ == self@,
    {
        self.clone()
    }

    /// What a sampler tick does first: probe only while tracking is on.
    pub fn tick_plan(&self) -> (r: TickAction)
        ensures
            r == (if self.is_tracking { TickAction::Probe } else { TickAction::Skip }),
    {
        if self.is_tracking {
            TickAction::Probe
        } else {
            TickAction::Skip
        }
    }

    /// Records the probe results of a tick taken at time `now`, and returns
    /// the sample to publish. A probe failure, or tracking turned off since
    /// the tick began, leaves the state as it was and publishes nothing.
    pub fn record_tick_at(
        &mut self,
        window: Result<WindowInfo, ProbeError>,
        idle: Result<u64, ProbeError>,
        now: i64,
    ) -> (r: Option<ActivityData>)
        ensures
            final(self)@ == after_tick(old(self)@, sample_of(window_info_view(window), idle, now)),
            activity_view(r) == published(old(self)@, sample_of(window_info_view(window), idle, now)),
    {
        match activity_at(window, idle, now) {
            Ok(a) => {
                if self.is_tracking {
                    let out = a.clone();
                    self.last_activity = Some(a);
                    Some(out)
                } else {
                    None
                }
            },
            Err(_) => None,
        }
    }

    /// Records the probe results of a tick, stamped with the current time.
    pub fn record_tick(
        &mut self,
        window: Result<WindowInfo, ProbeError>,
        idle: Result<u64, ProbeError>,
    ) -> (r: Option<ActivityData>)
        ensures
            exists|now: i64|
                final(self)@ == #[trigger] after_tick(
                    old(self)@,
                    sample_of(window_info_view(window), idle, now),
                ) && activity_view(r) == published(
                    old(self)@,
                    sample_of(window_info_view(window), idle, now),
                ),
    {
        let now = now_timestamp();
        self.record_tick_at(window, idle, now)
    }
}

/// A change of the shared state: a command or a finished sampler tick with
/// what its probing gave.
pub enum StateEvent {
    Start(IdentityView),
    Stop,
    Tick(Result<ActivityView, ProbeError>),
}

/// The state after one event.
pub open spec fn step(s: StateView, e: StateEvent) -> StateView {
    match e {
        StateEvent::Start(id) => started(s, id),
        StateEvent::Stop => stopped(s),
        StateEvent::Tick(outcome) => after_tick(s, outcome),
    }
}

/// The state after a sequence of events, applied in order.
pub open spec fn run(s: StateView, events: Seq<StateEvent>) -> StateView
    decreases events.len(),
{
    if events.len() == 0 {
        s
    } else {
        step(run(s, events.drop_last()), events.last())
    }
}

/// Stopping twice leaves the same state as stopping once: tracking off and
/// no identity.
pub proof fn lemma_stop_idempotent(s: StateView)
    ensures
        stopped(stopped(s)) == stopped(s),
        !stopped(s).is_tracking,
        stopped(s).identity is None,
{
}

/// Starting twice leaves the second identity in effect, with tracking on.
pub proof fn lemma_start_replaces_identity(s: StateView, first: IdentityView, second: IdentityView)
    ensures
        started(started(s, first), second) == started(s, second),
        started(started(s, first), second).is_tracking,
        started(started(s, first), second).identity == Some(second),
{
}

/// In every state reachable from the initial one, tracking is on exactly
/// when an identity is recorded.
pub proof fn lemma_tracking_iff_identity(events: Seq<StateEvent>)
    ensures
        run(initial_state(), events).is_tracking <==> run(initial_state(), events).identity is Some,
    decreases events.len(),
{
    if events.len() > 0 {
        lemma_tracking_iff_identity(events.drop_last());
    }
}

/// Once a session is started, tracking stays on under that identity until
/// the next start or stop, whatever the ticks in between.
pub proof fn lemma_session_holds(s: StateView, id: IdentityView, ticks: Seq<StateEvent>)
    requires
        forall|k: int| 0 <= k < ticks.len() ==> #[trigger] ticks[k] is Tick,
    ensures
        run(started(s, id), ticks).is_tracking,
        run(started(s, id), ticks).identity == Some(id),
    decreases ticks.len(),
{
    if ticks.len() > 0 {
        let prefix = ticks.drop_last();
        assert forall|k: int| 0 <= k < prefix.len() implies #[trigger] prefix[k] is Tick by {
            assert(prefix[k] == ticks[k]);
        }
        lemma_session_holds(s, id, prefix);
        assert(ticks.last() == ticks[ticks.len() - 1]);
    }
}

/// Two successful ticks in a row, the second at a later time, publish
/// samples with increasing timestamps, and the later one is kept.
pub proof fn lemma_tick_timestamps_increase(
    s: StateView,
    w1: Result<WindowInfoView, ProbeError>,
    i1: Result<u64, ProbeError>,
    t1: i64,
    w2: Result<WindowInfoView, ProbeError>,
    i2: Result<u64, ProbeError>,
    t2: i64,
)
    requires
        t1 < t2,
        published(s, sample_of(w1, i1, t1)) is Some,
        published(after_tick(s, sample_of(w1, i1, t1)), sample_of(w2, i2, t2)) is Some,
    ensures
        published(s, sample_of(w1, i1, t1))->Some_0.timestamp == t1,
        published(after_tick(s, sample_of(w1, i1, t1)), sample_of(w2, i2, t2))->Some_0.timestamp
            == t2,
        published(s, sample_of(w1, i1, t1))->Some_0.timestamp < published(
            after_tick(s, sample_of(w1, i1, t1)),
            sample_of(w2, i2, t2),
        )->Some_0.timestamp,
        after_tick(after_tick(s, sample_of(w1, i1, t1)), sample_of(w2, i2, t2)).last_activity
            == published(after_tick(s, sample_of(w1, i1, t1)), sample_of(w2, i2, t2)),
{
}

} // verus!
