//! The admin dashboard.

use vstd::prelude::*;
use crate::frontend::PageData;
use crate::routes::{Reply, Response, error500, fails_with, redirects_to, see_other};

verus! {

/// What the dashboard handler has just learnt.
pub enum DashboardEvent {
    /// The session was read: the logged-in user's id, if any, or the text of
    /// the error that prevented reading it.
    SessionRead(Result<Option<u128>, String>),
    /// The user's name was looked up, or the text of the error that
    /// prevented it.
    UsernameFetched(Result<String, String>),
}

/// What the dashboard handler does next.
#[derive(Debug)]
pub enum DashboardAction {
    /// Look up the name of the user with this id.
    FetchUsername(u128),
    /// Answer with the reply.
    Respond(Reply),
}

/// `reply` shows the dashboard greeting the user `name`.
pub open spec fn shows_dashboard(reply: Reply, name: Seq<char>) -> bool {
    &&& reply.flash is None
    &&& reply.response matches Response::Page(PageData::Dashboard { username }) && username@ == name
}

/// The next step of showing the dashboard. Anonymous visitors are sent to the
/// login form.
pub fn admin_dashboard(event: DashboardEvent) -> (r: DashboardAction)
    ensures
        match event {
            DashboardEvent::SessionRead(Ok(Some(id))) => r == DashboardAction::FetchUsername(id),
            DashboardEvent::SessionRead(Ok(None)) =>
                (r matches DashboardAction::Respond(reply) && redirects_to(reply, "/login"@)),
            DashboardEvent::SessionRead(Err(c)) =>
                (r matches DashboardAction::Respond(reply) && fails_with(reply, c@)),
            DashboardEvent::UsernameFetched(Ok(name)) =>
                (r matches DashboardAction::Respond(reply) && shows_dashboard(reply, name@)),
            DashboardEvent::UsernameFetched(Err(c)) =>
                (r matches DashboardAction::Respond(reply) && fails_with(reply, c@)),
        },
{
    match event {
        DashboardEvent::SessionRead(Ok(Some(id))) => DashboardAction::FetchUsername(id),
        DashboardEvent::SessionRead(Ok(None)) => DashboardAction::Respond(see_other("/login")),
        DashboardEvent::SessionRead(Err(c)) => DashboardAction::Respond(error500(c)),
        DashboardEvent::UsernameFetched(Ok(username)) => DashboardAction::Respond(
            Reply { flash: None, response: Response::Page(PageData::Dashboard { username }) },
        ),
        DashboardEvent::UsernameFetched(Err(c)) => DashboardAction::Respond(error500(c)),
    }
}

} // verus!
