//! The report of one sample to the backend: the checks before it, the
//! request that carries it, and how the response is classified.

use vstd::prelude::*;
use crate::tracking::{ActivityData, ActivityView, AppState, IdentityView};

verus! {

/// Why a report was not attempted.
#[derive(Debug, Clone, Copy, PartialEq, Eq, Structural)]
pub enum CommandError {
    /// Tracking is off.
    NotTracking,
    /// Tracking is on but no identity is recorded.
    MissingIdentity,
}

pub open spec fn command_error_text(e: CommandError) -> Seq<char> {
    match e {
        CommandError::NotTracking => "Tracking is not active"@,
        CommandError::MissingIdentity => "Identity not set"@,
    }
}

impl CommandError {
    /// A sentence that describes the refusal, for the caller.
    pub fn message(&self) -> (r: String)
        ensures
            r@ == command_error_text(*self),
    {
        match self {
            CommandError::NotTracking => "Tracking is not active".to_owned(),
            CommandError::MissingIdentity => "Identity not set".to_owned(),
        }
    }
}

/// Why a report that was sent did not succeed.
pub enum ReportError {
    /// The backend answered with a status outside 200..=299.
    RemoteRejected(u16),
    /// The request did not complete; the transport's own description.
    TransportFailure(String),
}

/// An authenticated activity submission. Its JSON body holds `userId`,
/// `activeApp`, `windowTitle`, `idleTime` in seconds (the milliseconds here
/// divided by 1000), `productiveHours`, `unproductiveHours` and
/// `goalsCompleted`; the last three are always zero and left to consumers.
pub struct ReportRequest {
    /// Where the POST goes.
    pub url: String,
    /// The value of the `Authorization` header.
    pub authorization: String,
    pub user_id: String,
    pub active_app: String,
    pub window_title: String,
    pub idle_millis: u64,
    pub productive_hours: u64,
    pub unproductive_hours: u64,
    pub goals_completed: u64,
}

pub struct ReportRequestView {
    pub url: Seq<char>,
    pub authorization: Seq<char>,
    pub user_id: Seq<char>,
    pub active_app: Seq<char>,
    pub window_title: Seq<char>,
    pub idle_millis: u64,
    pub productive_hours: u64,
    pub unproductive_hours: u64,
    pub goals_completed: u64,
}

impl View for ReportRequest {
    type V = ReportRequestView;

    open spec fn view(&self) -> ReportRequestView {
        ReportRequestView {
            url: self.url@,
            authorization: self.authorization@,
            user_id: self.user_id@,
            active_app: self.active_app@,
            window_title: self.window_title@,
            idle_millis: self.idle_millis,
            productive_hours: self.productive_hours,
            unproductive_hours: self.unproductive_hours,
            goals_completed: self.goals_completed,
        }
    }
}

/// The endpoint that takes a team's activity.
pub open spec fn activity_url(team_id: Seq<char>) -> Seq<char> {
    "https://productivityflow-backend.onrender.com/api/teams/"@ + team_id + "/activity"@
}

pub open spec fn bearer(token: Seq<char>) -> Seq<char> {
    "Bearer "@ + token
}

/// The submission of sample `a` under identity `id`.
pub open spec fn request_of(id: IdentityView, a: ActivityView) -> ReportRequestView {
    ReportRequestView {
        url: activity_url(id.team_id),
        authorization: bearer(id.token),
        user_id: id.user_id,
        active_app: a.active_app,
        window_title: a.window_title,
        idle_millis: a.idle_millis,
        productive_hours: 0,
        unproductive_hours: 0,
        goals_completed: 0,
    }
}

/// Builds the endpoint for a team's activity.
pub fn activity_endpoint(team_id: &str) -> (r: String)
    ensures
        r@ == activity_url(team_id@),
{
    let mut url = "https://productivityflow-backend.onrender.com/api/teams/".to_owned();
    url.append(team_id);
    url.append("/activity");
    url
}

fn bearer_header(token: &str) -> (r: String)
    ensures
        r@ == bearer(token@),
{
    let mut h = "Bearer ".to_owned();
    h.append(token);
    h
}

impl AppState {
    /// Checks that a sample may be reported and builds its submission.
    ///
    /// Fails with `NotTracking` while tracking is off, and with
    /// `MissingIdentity` while it is on without an identity.
    pub fn send_activity_data(&self, activity: &ActivityData) -> (r: Result<ReportRequest, CommandError>)
        ensures
            !self.is_tracking ==> r == Err::<ReportRequest, CommandError>(CommandError::NotTracking),
            self.is_tracking && self.identity is None ==> r == Err::<ReportRequest, CommandError>(
                CommandError::MissingIdentity,
            ),
            self.is_tracking && self.identity is Some ==> (r is Ok && r->Ok_0@ == request_of(
                self.identity->Some_0@,
                activity@,
            )),
    {
        if !self.is_tracking {
            return Err(CommandError::NotTracking);
        }
        match &self.identity {
            None => Err(CommandError::MissingIdentity),
            Some(id) => Ok(
                ReportRequest {
                    url: activity_endpoint(id.team_id.as_str()),
                    authorization: bearer_header(id.token.as_str()),
                    user_id: id.user_id.clone(),
                    active_app: activity.active_app.clone(),
                    window_title: activity.window_title.clone(),
                    idle_millis: activity.idle_millis,
                    productive_hours: 0,
                    unproductive_hours: 0,
                    goals_completed: 0,
                },
            ),
        }
    }
}

pub open spec fn is_success(status: u16) -> bool {
    200 <= status <= 299
}

/// Classifies what became of a sent report: the response status, or the
/// transport's description of why no response came.
pub fn classify_response(outcome: Result<u16, String>) -> (r: Result<(), ReportError>)
    ensures
        match outcome {
            Ok(status) => if is_success(status) {
                r is Ok
            } else {
                r matches Err(ReportError::RemoteRejected(s)) && s == status
            },
            Err(detail) => r matches Err(ReportError::TransportFailure(d)) && d@ == detail@,
        },
{
    match outcome {
        Ok(status) => {
            if 200 <= status && status <= 299 {
                Ok(())
            } else {
                Err(ReportError::RemoteRejected(status))
            }
        },
        Err(detail) => Err(ReportError::TransportFailure(detail)),
    }
}

} // verus!
