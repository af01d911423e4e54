//! What holds of every run of the start-session protocol, whatever the
//! caller reports and in whatever order.

use vstd::prelude::*;
use crate::error::{surfaced, BrokerErrorView, LinkErrorView, PeerErrorView, PolicyError};
use crate::manifest::ManifestEntryView;
use crate::session::{
    initial, load_decision, Phase, SessionActionView, SessionEventView, StartSessionView,
};

verus! {

/// The state of a run that began in `start` after `events`, in order.
pub open spec fn state_after(
    start: StartSessionView,
    manifest: Map<Seq<char>, ManifestEntryView>,
    events: Seq<SessionEventView>,
) -> StartSessionView
    decreases events.len(),
{
    if events.len() == 0 {
        start
    } else {
        state_after(start, manifest, events.drop_last()).step(manifest, events.last()).0
    }
}

/// The action that answered the event at `index`.
pub open spec fn action_at(
    start: StartSessionView,
    manifest: Map<Seq<char>, ManifestEntryView>,
    events: Seq<SessionEventView>,
    index: int,
) -> SessionActionView {
    state_after(start, manifest, events.take(index)).step(manifest, events[index]).1
}

/// How many of the actions that answered `events` were start requests.
pub open spec fn start_requests(
    start: StartSessionView,
    manifest: Map<Seq<char>, ManifestEntryView>,
    events: Seq<SessionEventView>,
) -> nat
    decreases events.len(),
{
    if events.len() == 0 {
        0
    } else {
        let before = start_requests(start, manifest, events.drop_last());
        let last = state_after(start, manifest, events.drop_last()).step(manifest, events.last()).1;
        if last is StartSession {
            before + 1
        } else {
            before
        }
    }
}

/// Whether a run is past the policy gate: the image is being read, is with
/// the peer, or the start request has been repeated.
pub open spec fn past_policy_gate(phase: Phase) -> bool {
    phase == Phase::ReadImage || phase == Phase::LoadImage || phase == Phase::RetryStart
}

/// A step changes nothing of a run but its phase and, once, its port.
proof fn lemma_step_keeps_request(
    s: StartSessionView,
    manifest: Map<Seq<char>, ManifestEntryView>,
    event: SessionEventView,
)
    ensures
        s.step(manifest, event).0.app_id == s.app_id,
        s.step(manifest, event).0.args == s.args,
        s.step(manifest, event).0.developer_mode == s.developer_mode,
        s.phase != Phase::Requested ==> s.step(manifest, event).0.port_number == s.port_number,
{
}

/// A run gets past the policy gate only where the manifest and the
/// developer-mode predicate allow the image to be loaded.
proof fn lemma_gate_holds(
    app_id: Seq<char>,
    args: Seq<Seq<char>>,
    developer_mode: bool,
    manifest: Map<Seq<char>, ManifestEntryView>,
    events: Seq<SessionEventView>,
)
    ensures
        ({
            let s = state_after(initial(app_id, args, developer_mode), manifest, events);
            &&& s.app_id == app_id
            &&& s.args == args
            &&& s.developer_mode == developer_mode
            &&& past_policy_gate(s.phase) ==> load_decision(manifest, app_id, developer_mode) is Ok
        }),
    decreases events.len(),
{
    if events.len() > 0 {
        lemma_gate_holds(app_id, args, developer_mode, manifest, events.drop_last());
        let before = state_after(initial(app_id, args, developer_mode), manifest, events.drop_last());
        lemma_step_keeps_request(before, manifest, events.last());
    }
}

/// Where policy refuses the application, no run ever reads its image or
/// sends it to the peer, and a run in which the peer reports the
/// application as not loaded ends at once with that refusal.
pub proof fn law_refused_app_is_never_loaded(
    app_id: Seq<char>,
    args: Seq<Seq<char>>,
    developer_mode: bool,
    manifest: Map<Seq<char>, ManifestEntryView>,
    events: Seq<SessionEventView>,
    index: int,
)
    requires
        load_decision(manifest, app_id, developer_mode) is Err,
        0 <= index < events.len(),
    ensures
        ({
            let start = initial(app_id, args, developer_mode);
            let before = state_after(start, manifest, events.take(index));
            let action = action_at(start, manifest, events, index);
            &&& !(action is LoadApp)
            &&& !(action is ReadImage)
            &&& before.phase == Phase::AttemptStart && events[index] == SessionEventView::Started(
                Err(LinkErrorView::Peer(PeerErrorView::AppNotLoaded)),
            ) ==> action == SessionActionView::Failed(
                BrokerErrorView::Policy(load_decision(manifest, app_id, developer_mode)->Err_0),
            )
        }),
{
    lemma_gate_holds(app_id, args, developer_mode, manifest, events.take(index));
}

/// For an application that the manifest does not hold, no run ever sends
/// an image to the peer; when the peer reports it as not loaded, the run
/// fails with "app not found".
pub proof fn law_unknown_app_is_never_loaded(
    app_id: Seq<char>,
    args: Seq<Seq<char>>,
    developer_mode: bool,
    manifest: Map<Seq<char>, ManifestEntryView>,
    events: Seq<SessionEventView>,
    index: int,
)
    requires
        !manifest.dom().contains(app_id),
        0 <= index < events.len(),
    ensures
        ({
            let start = initial(app_id, args, developer_mode);
            let before = state_after(start, manifest, events.take(index));
            let action = action_at(start, manifest, events, index);
            &&& !(action is LoadApp)
            &&& !(action is ReadImage)
            &&& before.phase == Phase::AttemptStart && events[index] == SessionEventView::Started(
                Err(LinkErrorView::Peer(PeerErrorView::AppNotLoaded)),
            ) ==> action == SessionActionView::Failed(BrokerErrorView::Policy(PolicyError::AppNotFound))
        }),
{
    law_refused_app_is_never_loaded(app_id, args, developer_mode, manifest, events, index);
}

/// For an application whose image is not verified, with developer mode
/// off, no run ever sends the image to the peer; when the peer reports the
/// application as not loaded, the run fails with the policy refusal.
pub proof fn law_unverified_app_is_never_loaded(
    app_id: Seq<char>,
    args: Seq<Seq<char>>,
    manifest: Map<Seq<char>, ManifestEntryView>,
    events: Seq<SessionEventView>,
    index: int,
)
    requires
        manifest.dom().contains(app_id),
        !manifest[app_id].is_verified(),
        0 <= index < events.len(),
    ensures
        ({
            let start = initial(app_id, args, false);
            let before = state_after(start, manifest, events.take(index));
            let action = action_at(start, manifest, events, index);
            &&& !(action is LoadApp)
            &&& !(action is ReadImage)
            &&& before.phase == Phase::AttemptStart && events[index] == SessionEventView::Started(
                Err(LinkErrorView::Peer(PeerErrorView::AppNotLoaded)),
            ) ==> action == SessionActionView::Failed(
                BrokerErrorView::Policy(PolicyError::UnverifiedNotAllowed),
            )
        }),
{
    law_refused_app_is_never_loaded(app_id, args, false, manifest, events, index);
}

/// How many start requests a run in `phase` can have behind it.
spec fn requests_fit_phase(phase: Phase, issued: nat) -> bool {
    match phase {
        Phase::Requested => issued == 0,
        Phase::AttemptStart | Phase::ReadImage | Phase::LoadImage => issued == 1,
        Phase::RetryStart => issued == 2,
        Phase::Rendezvous | Phase::Connected => 1 <= issued <= 2,
        Phase::Failed => issued <= 2,
    }
}

/// The count of start requests goes with the phase of the run.
proof fn lemma_requests_fit(
    start: StartSessionView,
    manifest: Map<Seq<char>, ManifestEntryView>,
    events: Seq<SessionEventView>,
)
    requires
        start.phase == Phase::Requested,
    ensures
        requests_fit_phase(
            state_after(start, manifest, events).phase,
            start_requests(start, manifest, events),
        ),
    decreases events.len(),
{
    if events.len() > 0 {
        lemma_requests_fit(start, manifest, events.drop_last());
    }
}

/// A run issues the start request at most twice: once at first, and once
/// more after a load. Nothing the caller reports can make it ask again.
pub proof fn law_start_is_retried_at_most_once(
    app_id: Seq<char>,
    args: Seq<Seq<char>>,
    developer_mode: bool,
    manifest: Map<Seq<char>, ManifestEntryView>,
    events: Seq<SessionEventView>,
)
    ensures
        start_requests(initial(app_id, args, developer_mode), manifest, events) <= 2,
{
    lemma_requests_fit(initial(app_id, args, developer_mode), manifest, events);
}

/// The start request is repeated exactly when the peer has confirmed the
/// load, and it is the same request as the first.
pub proof fn law_retry_follows_load(
    s: StartSessionView,
    manifest: Map<Seq<char>, ManifestEntryView>,
    event: SessionEventView,
)
    ensures
        s.phase == Phase::LoadImage && event == SessionEventView::Loaded(Ok(Ok(()))) ==> s.step(
            manifest,
            event,
        ) == (s.at(Phase::RetryStart), s.start_request()),
        s.step(manifest, event).1 is StartSession ==> {
            &&& s.step(manifest, event).1 == s.step(manifest, event).0.start_request()
            &&& (s.phase == Phase::Requested && event is Bound) || (s.phase == Phase::LoadImage
                && event matches SessionEventView::Loaded(Ok(Ok(_))))
        },
{
}

/// Once a run has issued its first start request, the request it would
/// issue stays the same, whatever follows.
proof fn lemma_request_is_settled(
    start: StartSessionView,
    manifest: Map<Seq<char>, ManifestEntryView>,
    events: Seq<SessionEventView>,
    early: int,
    late: int,
)
    requires
        0 <= early <= late <= events.len(),
        state_after(start, manifest, events.take(early)).phase != Phase::Requested,
    ensures
        state_after(start, manifest, events.take(late)).phase != Phase::Requested,
        state_after(start, manifest, events.take(late)).start_request() == state_after(
            start,
            manifest,
            events.take(early),
        ).start_request(),
    decreases late - early,
{
    if early < late {
        lemma_request_is_settled(start, manifest, events, early, late - 1);
        let before = state_after(start, manifest, events.take(late - 1));
        assert(events.take(late).drop_last() =~= events.take(late - 1));
        lemma_step_keeps_request(before, manifest, events[late - 1]);
    }
}

/// The start request that a run repeats is the one it issued first: the
/// same application, the same port, the same arguments.
pub proof fn law_retry_repeats_the_first_request(
    start: StartSessionView,
    manifest: Map<Seq<char>, ManifestEntryView>,
    events: Seq<SessionEventView>,
    first: int,
    second: int,
)
    requires
        0 <= first < second < events.len(),
        action_at(start, manifest, events, first) is StartSession,
        action_at(start, manifest, events, second) is StartSession,
    ensures
        action_at(start, manifest, events, first) == action_at(start, manifest, events, second),
{
    let before_first = state_after(start, manifest, events.take(first));
    assert(events.take(first + 1).drop_last() =~= events.take(first));
    law_retry_follows_load(before_first, manifest, events[first]);
    let before_second = state_after(start, manifest, events.take(second));
    law_retry_follows_load(before_second, manifest, events[second]);
    lemma_request_is_settled(start, manifest, events, first + 1, second);
    lemma_step_keeps_request(before_second, manifest, events[second]);
}

/// A failed retry ends the run: whatever the peer answers to the repeated
/// start request other than success is surfaced as it is.
pub proof fn law_failed_retry_is_final(
    s: StartSessionView,
    manifest: Map<Seq<char>, ManifestEntryView>,
    e: LinkErrorView,
)
    requires
        s.phase == Phase::RetryStart,
    ensures
        s.step(manifest, SessionEventView::Started(Err(e))) == s.fail(surfaced(e)),
{
}

/// A run that has ended stays as it is and asks for nothing more.
pub proof fn law_finished_run_is_inert(
    s: StartSessionView,
    manifest: Map<Seq<char>, ManifestEntryView>,
    events: Seq<SessionEventView>,
    index: int,
)
    requires
        s.phase == Phase::Connected || s.phase == Phase::Failed,
        0 <= index < events.len(),
    ensures
        state_after(s, manifest, events) == s,
        action_at(s, manifest, events, index) == SessionActionView::Ignore,
        start_requests(s, manifest, events) == 0,
{
    lemma_finished_stays(s, manifest, events);
    lemma_finished_stays(s, manifest, events.take(index));
}

/// A finished run stays as it is and issues no start request.
proof fn lemma_finished_stays(
    s: StartSessionView,
    manifest: Map<Seq<char>, ManifestEntryView>,
    events: Seq<SessionEventView>,
)
    requires
        s.phase == Phase::Connected || s.phase == Phase::Failed,
    ensures
        state_after(s, manifest, events) == s,
        start_requests(s, manifest, events) == 0,
    decreases events.len(),
{
    if events.len() > 0 {
        lemma_finished_stays(s, manifest, events.drop_last());
    }
}

} // verus!
