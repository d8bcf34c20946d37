//! Runs of the state machine over sequences of events, and what holds of
//! every run.

use vstd::prelude::*;
use crate::machine::{ActionModel, EventModel, MachineModel, Phase, initial, model_wf, next};
use crate::packet::{ClientMsg, ServerMsg};

verus! {

/// The state reached from `s` after the events `es`, taken in order.
pub open spec fn run(s: MachineModel, es: Seq<EventModel>) -> MachineModel
    decreases es.len(),
{
    if es.len() == 0 {
        s
    } else {
        run(next(s, es[0]).0, es.drop_first())
    }
}

/// The actions answered while running `es` from `s`, in order.
pub open spec fn outputs(s: MachineModel, es: Seq<EventModel>) -> Seq<ActionModel>
    decreases es.len(),
{
    if es.len() == 0 {
        Seq::empty()
    } else {
        let (t, a) = next(s, es[0]);
        let rest = outputs(t, es.drop_first());
        match a {
            Some(x) => seq![x] + rest,
            None => rest,
        }
    }
}

/// How many times "downloaded, ready to start" is sent while running `es`
/// from `s`.
pub open spec fn ready2_count(s: MachineModel, es: Seq<EventModel>) -> nat
    decreases es.len(),
{
    if es.len() == 0 {
        0
    } else {
        let (t, a) = next(s, es[0]);
        let rest = ready2_count(t, es.drop_first());
        if a == Some(ActionModel::Send(ClientMsg::Ready2)) {
            rest + 1
        } else {
            rest
        }
    }
}

/// Whether the event is an authoritative play request.
pub open spec fn is_play(e: EventModel) -> bool {
    e is Server && e->Server_0 is Play
}

/// Whether no event of `es` is an authoritative play request.
pub open spec fn no_play(es: Seq<EventModel>) -> bool {
    forall|i: int| 0 <= i < es.len() ==> !is_play(#[trigger] es[i])
}

/// How many events of `es` are authoritative play requests.
pub open spec fn plays(es: Seq<EventModel>) -> nat
    decreases es.len(),
{
    if es.len() == 0 {
        0
    } else if is_play(es[0]) {
        plays(es.drop_first()) + 1
    } else {
        plays(es.drop_first())
    }
}

/// A state is numbered when a download in flight carries a sequence number
/// that some play request issued.
pub open spec fn numbered(s: MachineModel) -> bool {
    s.phase == Phase::Downloading ==> s.latest >= 1
}

/// The event "a participant called `id` joined", `n` times over.
pub open spec fn joins(id: Seq<char>, n: nat) -> Seq<EventModel> {
    Seq::new(n, |i: int| EventModel::Server(ServerMsg::Connect { id }))
}

/// Every transition keeps a well-formed state well formed.
pub proof fn law_next_keeps_wf(s: MachineModel, e: EventModel)
    requires
        model_wf(s),
    ensures
        model_wf(next(s, e).0),
{
}

/// Every transition keeps the participant's identifier and never lowers the
/// sequence number; only an authoritative play request raises it, by one.
pub proof fn law_sequence_is_monotonic(s: MachineModel, e: EventModel)
    ensures
        next(s, e).0.me == s.me,
        next(s, e).0.latest == if is_play(e) {
            s.latest + 1
        } else {
            s.latest
        },
{
}

/// "Downloaded, ready to start" is sent only on the successful completion of
/// the download tagged with the latest sequence number, while downloading.
pub proof fn law_ready2_needs_latest(s: MachineModel, e: EventModel)
    requires
        next(s, e).1 == Some(ActionModel::Send(ClientMsg::Ready2)),
    ensures
        e == (EventModel::FetchDone { seq: s.latest, ok: true }),
        s.phase == Phase::Downloading,
        next(s, e).0.phase == Phase::ReadyToStart,
{
}

/// The completion of a download whose tag is not the latest sequence number
/// changes nothing and answers with nothing.
pub proof fn law_stale_completion_is_dropped(s: MachineModel, seq: nat, ok: bool)
    requires
        seq != s.latest,
    ensures
        next(s, EventModel::FetchDone { seq, ok }) == (s, None::<ActionModel>),
{
}

/// After an authoritative play request, the completion of any download that
/// was started before it is dropped.
pub proof fn law_play_supersedes(s: MachineModel, yt_link: Seq<char>, seq: nat, ok: bool)
    requires
        seq <= s.latest,
    ensures
        ({
            let t = next(s, EventModel::Server(ServerMsg::Play { yt_link })).0;
            next(t, EventModel::FetchDone { seq, ok }) == (t, None::<ActionModel>)
        }),
{
}

/// After an authoritative skip, the completion of any download is dropped.
pub proof fn law_skip_abandons_download(s: MachineModel, seq: nat, ok: bool)
    ensures
        ({
            let t = next(s, EventModel::Server(ServerMsg::Skip)).0;
            &&& t.phase == Phase::Idle
            &&& next(t, EventModel::FetchDone { seq, ok }) == (t, None::<ActionModel>)
        }),
{
}

/// Outside of the downloading phase, and without a further play request,
/// "downloaded, ready to start" is never sent.
pub proof fn law_no_ready2_without_download(s: MachineModel, es: Seq<EventModel>)
    requires
        no_play(es),
        s.phase != Phase::Downloading,
    ensures
        ready2_count(s, es) == 0,
    decreases es.len(),
{
    if es.len() > 0 {
        let t = next(s, es[0]).0;
        assert forall|i: int| 0 <= i < es.drop_first().len() implies !is_play(
            #[trigger] es.drop_first()[i],
        ) by {
            assert(es.drop_first()[i] == es[i + 1]);
        }
        law_no_ready2_without_download(t, es.drop_first());
    }
}

/// Between two authoritative play requests, "downloaded, ready to start" is
/// sent at most once, whatever else happens and however often downloads
/// report completion.
pub proof fn law_one_ready2_per_play(s: MachineModel, es: Seq<EventModel>)
    requires
        no_play(es),
    ensures
        ready2_count(s, es) <= 1,
    decreases es.len(),
{
    if es.len() > 0 {
        let (t, a) = next(s, es[0]);
        assert forall|i: int| 0 <= i < es.drop_first().len() implies !is_play(
            #[trigger] es.drop_first()[i],
        ) by {
            assert(es.drop_first()[i] == es[i + 1]);
        }
        if t.phase == Phase::Downloading {
            law_one_ready2_per_play(t, es.drop_first());
        } else {
            law_no_ready2_without_download(t, es.drop_first());
        }
    }
}

/// Along every run the sequence number grows by the number of authoritative
/// play requests, and a numbered state stays numbered.
pub proof fn law_latest_counts_plays(s: MachineModel, es: Seq<EventModel>)
    ensures
        run(s, es).latest == s.latest + plays(es),
        run(s, es).me == s.me,
        numbered(s) ==> numbered(run(s, es)),
    decreases es.len(),
{
    if es.len() > 0 {
        law_latest_counts_plays(next(s, es[0]).0, es.drop_first());
    }
}

/// In every session, "downloaded, ready to start" answers only the
/// successful completion of the download that the latest authoritative play
/// request started: if, after the events `es` of a session of `me`, the event
/// `e` is answered with it, then `e` is the successful completion tagged with
/// the number of play requests among `es`, and there was such a request.
pub proof fn law_ready2_answers_latest_play(me: Seq<char>, es: Seq<EventModel>, e: EventModel)
    requires
        next(run(initial(me), es), e).1 == Some(ActionModel::Send(ClientMsg::Ready2)),
    ensures
        plays(es) >= 1,
        e == (EventModel::FetchDone { seq: plays(es), ok: true }),
{
    law_latest_counts_plays(initial(me), es);
    law_ready2_needs_latest(run(initial(me), es), e);
}

/// Hearing any number of times that the local participant joined changes
/// nothing and answers with nothing.
pub proof fn law_own_join_is_silent(s: MachineModel, n: nat)
    ensures
        run(s, joins(s.me, n)) == s,
        outputs(s, joins(s.me, n)) == Seq::<ActionModel>::empty(),
    decreases n,
{
    let es = joins(s.me, n);
    if n > 0 {
        assert(next(s, es[0]) == (s, None::<ActionModel>));
        assert(es.drop_first() =~= joins(s.me, (n - 1) as nat));
        law_own_join_is_silent(s, (n - 1) as nat);
    }
}

} // verus!
