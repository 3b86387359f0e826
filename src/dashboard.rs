//! The manager dashboard's session: who is signed in, for which
//! organization, and where a team's statistics are fetched from.

use vstd::prelude::*;

verus! {

/// The dashboard's shared session record.
pub struct ManagerState {
    pub is_authenticated: bool,
    pub user_name: Option<String>,
    pub organization: Option<String>,
}

pub struct ManagerView {
    pub is_authenticated: bool,
    pub user_name: Option<Seq<char>>,
    pub organization: Option<Seq<char>>,
}

pub open spec fn text_view(t: Option<String>) -> Option<Seq<char>> {
    match t {
        Some(s) => Some(s@),
        None => None,
    }
}

impl View for ManagerState {
    type V = ManagerView;

    open spec fn view(&self) -> ManagerView {
        ManagerView {
            is_authenticated: self.is_authenticated,
            user_name: text_view(self.user_name),
            organization: text_view(self.organization),
        }
    }
}

fn copy_text(t: &Option<String>) -> (r: Option<String>)
    ensures
        text_view(r) == text_view(*t),
{
    match t {
        Some(s) => Some(s.clone()),
        None => None,
    }
}

impl Clone for ManagerState {
    fn clone(&self) -> (r: ManagerState)
        ensures
            r@ == self@,
    {
        ManagerState {
            is_authenticated: self.is_authenticated,
            user_name: copy_text(&self.user_name),
            organization: copy_text(&self.organization),
        }
    }
}

impl Default for ManagerState {
    fn default() -> (r: ManagerState)
        ensures
            r@ == (ManagerView { is_authenticated: false, user_name: None, organization: None }),
    {
        ManagerState { is_authenticated: false, user_name: None, organization: None }
    }
}

impl ManagerState {
    /// Signs a manager in for an organization.
    pub fn authenticate_manager(&mut self, user_name: String, organization: String)
        ensures
            final(self)@ == (ManagerView {
                is_authenticated: true,
                user_name: Some(user_name@),
                organization: Some(organization@),
            }),
    {
        self.is_authenticated = true;
        self.user_name = Some(user_name);
        self.organization = Some(organization);
    }

    /// Signs the manager out.
    pub fn logout_manager(&mut self)
        ensures
            final(self)@ == (ManagerView { is_authenticated: false, user_name: None, organization: None }),
    {
        self.is_authenticated = false;
        self.user_name = None;
        self.organization = None;
    }

    /// A copy of the session record.
    pub fn get_app_state(&self) -> (r: ManagerState)
        ensures
            r@ == self@,
    {
        self.clone()
    }
}

pub open spec fn team_stats_url(team_id: Seq<char>) -> Seq<char> {
    "https://productivityflow-backend.onrender.com/api/teams/"@ + team_id + "/stats"@
}

/// Builds the endpoint of a team's statistics.
pub fn team_stats_endpoint(team_id: &str) -> (r: String)
    ensures
        r@ == team_stats_url(team_id@),
{
    let mut url = "https://productivityflow-backend.onrender.com/api/teams/".to_owned();
    url.append(team_id);
    url.append("/stats");
    url
}

} // verus!
