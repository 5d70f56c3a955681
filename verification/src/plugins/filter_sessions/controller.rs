use crate::models::session::{Session, SessionView};
use crate::plugins::filter_sessions::dto::FilterParams;
use crate::plugins::filter_sessions::use_case;
use crate::plugins::filter_sessions::use_case::is_listing;
use crate::shared::context::Context;
use crate::shared::services::sesser::Sesser;
use crate::shared::utils::{ok_json, Body, BodyView, Reply, ReplyView, SessionPresent, Status};
use vstd::prelude::*;

verus! {

/// What a listing shows of a session: its id and its title.
pub open spec fn presented(session: SessionView) -> (u128, Seq<char>) {
    (session.id, session.title)
}

/// The reply that shows the sessions `found`.
pub open spec fn listing_reply(found: Seq<SessionView>) -> ReplyView {
    ReplyView {
        status: Status::Success,
        body: BodyView::Servers(found.map_values(|s: SessionView| presented(s))),
    }
}

/// `reply` answers a listing of `sessions`: it shows what some answer to
/// the listing holds.
pub open spec fn is_listing_reply(
    reply: ReplyView,
    sessions: Map<u128, SessionView>,
    code: Option<String>,
) -> bool {
    exists|found: Seq<SessionView>|
        is_listing(found, sessions, code) && #[trigger] listing_reply(found) == reply
}

/// What is shown of each session of a list, in the order of the list.
pub fn present(sessions: Vec<Session>) -> (shown: Vec<SessionPresent>)
    ensures
        shown@.map_values(|s: SessionPresent| s@) == sessions@.map_values(
            |s: Session| presented(s@),
        ),
{
    let ghost given = sessions@;
    let mut rest = sessions;
    let mut reversed: Vec<SessionPresent> = Vec::new();
    while rest.len() > 0
        invariant
            rest@ == given.subrange(0, rest@.len() as int),
            rest@.len() + reversed@.len() == given.len(),
            forall|k: int|
                0 <= k < reversed@.len() ==> (#[trigger] reversed@[k])@ == presented(
                    given[given.len() - 1 - k]@,
                ),
        decreases rest@.len(),
    {
        let ghost before = rest@;
        let session = rest.pop().unwrap();
        assert(session == given[before.len() - 1]);
        reversed.push(SessionPresent::from(session));
    }
    let ghost turned = reversed@;
    let mut shown: Vec<SessionPresent> = Vec::new();
    while reversed.len() > 0
        invariant
            reversed@ == turned.subrange(0, reversed@.len() as int),
            reversed@.len() + shown@.len() == turned.len(),
            turned.len() == given.len(),
            forall|k: int|
                0 <= k < turned.len() ==> (#[trigger] turned[k])@ == presented(
                    given[given.len() - 1 - k]@,
                ),
            forall|k: int| 0 <= k < shown@.len() ==> (#[trigger] shown@[k])@ == presented(given[k]@),
        decreases reversed@.len(),
    {
        let ghost before = reversed@;
        let item = reversed.pop().unwrap();
        assert(item == turned[before.len() - 1]);
        shown.push(item);
    }
    assert(shown@.map_values(|s: SessionPresent| s@) =~= given.map_values(
        |s: Session| presented(s@),
    ));
    shown
}

/// Handles a request to list sessions: the reply has status 200 and shows
/// id and title of each session found.
pub fn filter_sessions<S: Sesser>(context: &Context<S>, request: FilterParams) -> (reply: Reply)
    requires
        context.sesser_spec().inv(),
    ensures
        is_listing_reply(reply@, context.sesser_spec().sessions(), request.code),
        request.code is Some ==> (reply@.body matches BodyView::Servers(shown) && shown.len()
            <= 1),
{
    let sessions = use_case::filter_sessions(context, request.code);
    let ghost found = sessions@.map_values(|s: Session| s@);
    let shown = present(sessions);
    proof {
        assert(shown@.map_values(|s: SessionPresent| s@) =~= found.map_values(
            |s: SessionView| presented(s),
        ));
    }
    let reply = ok_json(Body::Servers(shown));
    assert(listing_reply(found) == reply@);
    reply
}

} // verus!
