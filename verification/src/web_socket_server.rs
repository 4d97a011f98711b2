//! The hub: the one registry of live sessions, and the fan-out of a message
//! to all of them.
//!
//! A session joins with the sink its messages are to be written to and is
//! given an identifier; it leaves by that identifier. The hub never looks
//! inside a sink: `S` is whatever the transport hands over, and delivery is a
//! function the caller passes to [`WebSocketServer::send_message`]. The hub is
//! a plain value owned by whoever runs the connections; every operation takes
//! it by reference, so no two of them overlap.

use std::collections::HashMap;
use vstd::prelude::*;
use vstd::set_lib::*;
use vstd::std_specs::hash::*;
use vstd::std_specs::iter::IteratorSpec;

verus! {

broadcast use vstd::std_specs::hash::group_hash_axioms;

/// A text message on its way to one client.
#[derive(Debug)]
pub struct Message(pub String);

/// A session's request to send `content` to every session.
#[derive(Clone, Debug)]
pub struct SendMessage {
    pub name: String,
    pub id: usize,
    pub content: String,
}

/// A request to register the sink of a new session.
#[derive(Clone, Debug)]
pub struct JoinSession<S>(pub S);

/// A request to drop the session with the given identifier.
#[derive(Clone, Copy, Debug, PartialEq, Eq, Structural)]
pub struct RemoveSession(pub usize);

/// The registry of live sessions: for each identifier, the sink that
/// session's messages are written to.
pub struct WebSocketServer<S> {
    sessions: HashMap<usize, S>,
    rng: rand::rngs::ThreadRng,
}

/// What became of one delivery of a broadcast.
#[derive(Clone, Copy, Debug, PartialEq, Eq, Structural)]
pub struct Delivery {
    /// The session the message was handed to.
    pub session_id: usize,
    /// Whether that session's sink took it.
    pub delivered: bool,
}

/// `rand::rngs::ThreadRng`, the generator identifiers are drawn from. It is
/// held and handed to `rand`, never looked into.
#[verifier::external_type_specification]
#[verifier::external_body]
pub struct ExThreadRng(rand::rngs::ThreadRng);

/// `rand::Rng::gen` at type `usize`: a random number. Nothing is claimed of
/// it: any value may come back, and two calls need not agree.
#[verifier::external_body]
fn random_id(rng: &mut rand::rngs::ThreadRng) -> usize {
    rand::Rng::gen::<usize>(rng)
}

impl<S> View for WebSocketServer<S> {
    type V = Map<usize, S>;

    /// The registry as a map from identifier to sink.
    closed spec fn view(&self) -> Map<usize, S> {
        self.sessions@
    }
}

/// Whether `id` is the least identifier that no session of `sessions` holds.
pub open spec fn least_free<S>(sessions: Map<usize, S>, id: usize) -> bool {
    &&& !sessions.contains_key(id)
    &&& forall|taken: usize| taken < id ==> sessions.contains_key(taken)
}

/// Whether `id` is the identifier a new session is given when `drawn` was
/// drawn for it: `drawn` itself if no session holds it, else the least
/// identifier that is free.
pub open spec fn assigned<S>(sessions: Map<usize, S>, drawn: usize, id: usize) -> bool {
    if sessions.contains_key(drawn) {
        least_free(sessions, id)
    } else {
        id == drawn
    }
}

/// The sessions a broadcast goes to: every registered one but `exclude`.
pub open spec fn recipients<S>(sessions: Map<usize, S>, exclude: Option<usize>) -> Set<usize> {
    match exclude {
        Some(id) => sessions.dom().remove(id),
        None => sessions.dom(),
    }
}

/// The sessions named in a report, in its order.
pub open spec fn delivered_to(report: Seq<Delivery>) -> Seq<usize> {
    report.map_values(|delivery: Delivery| delivery.session_id)
}

/// Whether a report holds one entry for each session a broadcast goes to,
/// and no other entry.
pub open spec fn complete_report<S>(
    report: Seq<Delivery>,
    sessions: Map<usize, S>,
    exclude: Option<usize>,
) -> bool {
    &&& delivered_to(report).no_duplicates()
    &&& delivered_to(report).to_set() == recipients(sessions, exclude)
}

/// Whether `delivered` is what one call of `deliver` returned when it was
/// handed `sink` and a message that reads `text`.
pub open spec fn handed<S, F: Fn(&S, Message) -> bool>(
    deliver: F,
    sink: S,
    text: Seq<char>,
    delivered: bool,
) -> bool {
    exists|sent: Message| sent.0@ == text && call_ensures(deliver, (&sink, sent), delivered)
}

/// Whether `deliver` may be called for every sink of `sessions` with a
/// message that reads `text`.
pub open spec fn deliverable<S, F: Fn(&S, Message) -> bool>(
    deliver: F,
    sessions: Map<usize, S>,
    text: Seq<char>,
) -> bool {
    forall|id: usize, sent: Message|
        sessions.contains_key(id) && sent.0@ == text ==> call_requires(
            deliver,
            (&#[trigger] sessions[id], sent),
        )
}

/// The registry after the sessions `ids` have joined an empty hub in turn,
/// each with the sink at its place in `sinks`.
pub open spec fn after_joins<S>(ids: Seq<usize>, sinks: Seq<S>) -> Map<usize, S>
    decreases ids.len(),
{
    if ids.len() == 0 {
        Map::empty()
    } else {
        after_joins(ids.drop_last(), sinks.drop_last()).insert(ids.last(), sinks.last())
    }
}

/// Whether `steps` is a walk over the registry `sessions`: each entry once,
/// with the sink registered for it, and none left out.
spec fn walk_of<S>(steps: Seq<(&usize, &S)>, sessions: Map<usize, S>) -> bool {
    &&& steps.no_duplicates()
    &&& forall|i: int|
        0 <= i < steps.len() ==> sessions.contains_key(*(#[trigger] steps[i]).0)
            && sessions[*steps[i].0] == *steps[i].1
    &&& forall|id: usize| #[trigger]
        sessions.contains_key(id) ==> steps.contains((&id, &sessions[id]))
}

/// Whether one of the first `upto` steps of a walk is at session `id`.
spec fn walked<S>(steps: Seq<(&usize, &S)>, upto: int, id: usize) -> bool {
    exists|i: int| 0 <= i < upto && *(#[trigger] steps[i]).0 == id
}

/// Whether a report names session `id`.
spec fn reported(report: Seq<Delivery>, id: usize) -> bool {
    exists|j: int| 0 <= j < report.len() && (#[trigger] report[j]).session_id == id
}

/// The identifiers below `n`.
spec fn ids_below(n: nat) -> Set<usize> {
    Set::new(|id: usize| id < n)
}

proof fn lemma_ids_below_len(n: nat)
    requires
        n <= usize::MAX + 1,
    ensures
        ids_below(n).finite(),
        ids_below(n).len() == n,
    decreases n,
{
    if n == 0 {
        assert(ids_below(0) =~= Set::<usize>::empty());
    } else {
        lemma_ids_below_len((n - 1) as nat);
        assert(ids_below(n) =~= ids_below((n - 1) as nat).insert((n - 1) as usize));
    }
}

impl<S> WebSocketServer<S> {
    /// A hub with no sessions, which draws its identifiers from `rng`.
    pub fn new(rng: rand::rngs::ThreadRng) -> (hub: Self)
        ensures
            hub@ == Map::<usize, S>::empty(),
    {
        WebSocketServer { sessions: HashMap::new(), rng }
    }

    /// The number of live sessions.
    pub fn len(&self) -> (n: usize)
        ensures
            n == self@.len(),
            self@.dom().finite(),
    {
        self.sessions.len()
    }

    /// Whether a session with this identifier is registered.
    pub fn contains(&self, session_id: usize) -> (found: bool)
        ensures
            found == self@.contains_key(session_id),
    {
        self.sessions.contains_key(&session_id)
    }

    /// The least identifier that no session holds. There always is one: the
    /// registry cannot hold more entries than `usize` counts, and there is
    /// one identifier more than that.
    fn first_free_id(&self) -> (id: usize)
        ensures
            least_free(self@, id),
    {
        let held = self.sessions.len();
        let mut id: usize = 0;
        while self.sessions.contains_key(&id)
            invariant
                self.sessions@.dom().finite(),
                self.sessions@.dom().len() == held,
                forall|taken: usize| taken < id ==> self.sessions@.contains_key(taken),
            decreases usize::MAX - id,
        {
            proof {
                lemma_ids_below_len((id + 1) as nat);
                assert(ids_below((id + 1) as nat).subset_of(self.sessions@.dom()));
                lemma_len_subset(ids_below((id + 1) as nat), self.sessions@.dom());
            }
            id = id + 1;
        }
        id
    }

    /// Registers `client` as the sink of a new session and returns the
    /// identifier the session is known by from now on. The identifier is
    /// drawn at random; where the draw is already taken, the least free
    /// identifier is given instead, so no live session ever shares it.
    pub fn add_session(&mut self, client: S) -> (id: usize)
        ensures
            !old(self)@.contains_key(id),
            final(self)@ == old(self)@.insert(id, client),
            exists|drawn: usize| assigned(old(self)@, drawn, id),
    {
        let drawn = random_id(&mut self.rng);
        let id = self.add_session_with(client, drawn);
        assert(assigned(old(self)@, drawn, id));
        id
    }

    /// Registers `client` as the sink of a new session for which `drawn`
    /// was drawn, and returns the identifier the session is given.
    pub fn add_session_with(&mut self, client: S, drawn: usize) -> (id: usize)
        ensures
            assigned(old(self)@, drawn, id),
            !old(self)@.contains_key(id),
            final(self)@ == old(self)@.insert(id, client),
    {
        let id = if !self.sessions.contains_key(&drawn) {
            drawn
        } else {
            self.first_free_id()
        };
        self.sessions.insert(id, client);
        id
    }

    /// Hands `message` to the sink of every registered session but
    /// `exclude`, once each, by calling `deliver`, and reports what each call
    /// returned. A sink that refuses the message (`deliver` returns `false`)
    /// is recorded and passed over: the sessions after it are served all the
    /// same, and the registry is left as it was.
    pub fn send_message<F: Fn(&S, Message) -> bool>(
        &self,
        message: String,
        exclude: Option<usize>,
        deliver: F,
    ) -> (report: Vec<Delivery>)
        requires
            deliverable(deliver, self@, message@),
        ensures
            complete_report(report@, self@, exclude),
            report@.len() == recipients(self@, exclude).len(),
            forall|i: int|
                0 <= i < report@.len() ==> self@.contains_key(#[trigger] report@[i].session_id)
                    && handed(
                    deliver,
                    self@[report@[i].session_id],
                    message@,
                    report@[i].delivered,
                ),
    {
        let mut report: Vec<Delivery> = Vec::new();
        for entry in it: self.sessions.iter()
            invariant
                deliverable(deliver, self.sessions@, message@),
                walk_of(it.seq(), self.sessions@),
                forall|j: int|
                    0 <= j < report@.len() ==> exclude != Some(#[trigger] report@[j].session_id)
                        && walked(it.seq(), it.index(), report@[j].session_id)
                        && self.sessions@.contains_key(report@[j].session_id) && handed(
                        deliver,
                        self.sessions@[report@[j].session_id],
                        message@,
                        report@[j].delivered,
                    ),
                forall|i: int|
                    0 <= i < it.index() && exclude != Some(*(#[trigger] it.seq()[i]).0)
                        ==> reported(report@, *it.seq()[i].0),
                forall|j: int, k: int|
                    0 <= j < k < report@.len() ==> (#[trigger] report@[j]).session_id != (
                    #[trigger] report@[k]).session_id,
        {
            let (id, sink) = entry;
            let ghost steps = it.seq();
            let ghost at = it.index();
            let ghost before = report@;
            assert(!walked(steps, at, *id)) by {
                if walked(steps, at, *id) {
                    let earlier = choose|i: int| 0 <= i < at && *(#[trigger] steps[i]).0 == *id;
                    assert(steps[earlier] == steps[at]);
                }
            }
            if exclude != Some(*id) {
                let sent = Message(message.clone());
                let ghost handed_over = sent;
                let delivered = deliver(sink, sent);
                assert(handed(deliver, self.sessions@[*id], message@, delivered)) by {
                    assert(handed_over.0@ == message@);
                    assert(call_ensures(deliver, (&self.sessions@[*id], handed_over), delivered));
                }
                report.push(Delivery { session_id: *id, delivered });
                assert forall|i: int|
                    0 <= i < at + 1 && exclude != Some(*(#[trigger] steps[i]).0) implies reported(
                    report@,
                    *steps[i].0,
                ) by {
                    if i < at {
                        let j = choose|j: int|
                            0 <= j < before.len() && (#[trigger] before[j]).session_id
                                == *steps[i].0;
                        assert(report@[j].session_id == *steps[i].0);
                    } else {
                        assert(report@[before.len() as int].session_id == *steps[i].0);
                    }
                }
            }
            assert forall|j: int| 0 <= j < report@.len() implies walked(
                steps,
                at + 1,
                #[trigger] report@[j].session_id,
            ) by {
                if j < before.len() {
                    let i = choose|i: int|
                        0 <= i < at && *(#[trigger] steps[i]).0 == report@[j].session_id;
                    assert(*steps[i].0 == report@[j].session_id);
                } else {
                    assert(*steps[at].0 == report@[j].session_id);
                }
            }
        }
        proof {
            let steps = spec_hash_map_iter(&self.sessions).remaining();
            let ids = delivered_to(report@);
            assert forall|id: usize| ids.to_set().contains(id) <==> recipients(
                self@,
                exclude,
            ).contains(id) by {
                if ids.to_set().contains(id) {
                    let j = choose|j: int| 0 <= j < ids.len() && ids[j] == id;
                    assert(report@[j].session_id == id);
                }
                if recipients(self@, exclude).contains(id) {
                    assert(steps.contains((&id, &self.sessions@[id])));
                    let i = choose|i: int|
                        0 <= i < steps.len() && steps[i] == (&id, &self.sessions@[id]);
                    assert(*steps[i].0 == id);
                    let j = choose|j: int|
                        0 <= j < report@.len() && (#[trigger] report@[j]).session_id == id;
                    assert(ids[j] == id);
                }
            }
            assert(ids.to_set() =~= recipients(self@, exclude));
            ids.unique_seq_to_set();
        }
        report
    }

    /// Drops the session `session_id`. Where no such session is registered,
    /// nothing changes.
    pub fn remove_session(&mut self, session_id: usize)
        ensures
            final(self)@ == old(self)@.remove(session_id),
            !old(self)@.contains_key(session_id) ==> final(self)@ == old(self)@,
    {
        self.sessions.remove(&session_id);
        assert(!old(self)@.contains_key(session_id) ==> old(self)@.remove(session_id) =~= old(
            self,
        )@);
    }

    /// Serves a join request: registers the sink it carries.
    pub fn join(&mut self, msg: JoinSession<S>) -> (id: usize)
        ensures
            !old(self)@.contains_key(id),
            final(self)@ == old(self)@.insert(id, msg.0),
            exists|drawn: usize| assigned(old(self)@, drawn, id),
    {
        self.add_session(msg.0)
    }

    /// Serves a leave request: drops the session it names, if there is one.
    pub fn leave(&mut self, msg: RemoveSession)
        ensures
            final(self)@ == old(self)@.remove(msg.0),
    {
        self.remove_session(msg.0)
    }

    /// Serves a send request: hands its content to every session, the
    /// sender included.
    pub fn broadcast<F: Fn(&S, Message) -> bool>(&self, msg: SendMessage, deliver: F) -> (report:
        Vec<Delivery>)
        requires
            deliverable(deliver, self@, msg.content@),
        ensures
            complete_report(report@, self@, None),
            report@.len() == self@.len(),
            forall|i: int|
                0 <= i < report@.len() ==> self@.contains_key(#[trigger] report@[i].session_id)
                    && handed(
                    deliver,
                    self@[report@[i].session_id],
                    msg.content@,
                    report@[i].delivered,
                ),
    {
        self.send_message(msg.content, None, deliver)
    }
}

/// A session that has joined is reached by every later broadcast that does
/// not exclude it, through the sink it joined with: the report of such a
/// broadcast has an entry for it.
pub proof fn lemma_joined_session_is_reached<S>(
    sessions: Map<usize, S>,
    id: usize,
    sink: S,
    exclude: Option<usize>,
    report: Seq<Delivery>,
)
    requires
        exclude != Some(id),
        complete_report(report, sessions.insert(id, sink), exclude),
    ensures
        sessions.insert(id, sink)[id] == sink,
        recipients(sessions.insert(id, sink), exclude).contains(id),
        exists|i: int| 0 <= i < report.len() && (#[trigger] report[i]).session_id == id,
{
    let ids = delivered_to(report);
    assert(ids.to_set().contains(id));
    let i = choose|i: int| 0 <= i < ids.len() && ids[i] == id;
    assert(report[i].session_id == id);
}

/// A session that has left is reached by no later broadcast: the report of
/// such a broadcast has no entry for it.
pub proof fn lemma_left_session_is_not_reached<S>(
    sessions: Map<usize, S>,
    id: usize,
    exclude: Option<usize>,
    report: Seq<Delivery>,
)
    requires
        complete_report(report, sessions.remove(id), exclude),
    ensures
        !recipients(sessions.remove(id), exclude).contains(id),
        forall|i: int| 0 <= i < report.len() ==> (#[trigger] report[i]).session_id != id,
{
    let ids = delivered_to(report);
    assert forall|i: int| 0 <= i < report.len() implies (#[trigger] report[i]).session_id
        != id by {
        if report[i].session_id == id {
            assert(ids[i] == id);
            assert(ids.to_set().contains(id));
        }
    }
}

/// Joining or leaving touches one entry only: every other session stays
/// registered, or unregistered, with the sink it had.
pub proof fn lemma_other_sessions_are_kept<S>(
    sessions: Map<usize, S>,
    id: usize,
    sink: S,
    other: usize,
)
    requires
        other != id,
    ensures
        sessions.remove(id).contains_key(other) == sessions.contains_key(other),
        sessions.insert(id, sink).contains_key(other) == sessions.contains_key(other),
        sessions.contains_key(other) ==> sessions.remove(id)[other] == sessions[other]
            && sessions.insert(id, sink)[other] == sessions[other],
{
}

/// Leaving with an identifier that is not registered changes nothing.
pub proof fn lemma_leave_of_unknown_is_noop<S>(sessions: Map<usize, S>, id: usize)
    requires
        !sessions.contains_key(id),
    ensures
        sessions.remove(id) == sessions,
{
    assert(sessions.remove(id) =~= sessions);
}

/// A broadcast goes to as many sessions as are registered, or to one fewer
/// where a registered session is excluded.
pub proof fn lemma_recipients_len<S>(sessions: Map<usize, S>, exclude: Option<usize>)
    requires
        sessions.dom().finite(),
    ensures
        recipients(sessions, exclude).finite(),
        recipients(sessions, exclude).len() == (match exclude {
            Some(id) => if sessions.contains_key(id) {
                sessions.len() - 1
            } else {
                sessions.len() as int
            },
            None => sessions.len() as int,
        }),
{
}

/// After `n` sessions have joined an empty hub under distinct identifiers and
/// none has left, `n` sessions are registered.
pub proof fn lemma_joins_are_counted<S>(ids: Seq<usize>, sinks: Seq<S>)
    requires
        ids.len() == sinks.len(),
        ids.no_duplicates(),
    ensures
        after_joins(ids, sinks).dom().finite(),
        after_joins(ids, sinks).dom() == ids.to_set(),
        after_joins(ids, sinks).len() == ids.len(),
    decreases ids.len(),
{
    if ids.len() == 0 {
        assert(ids.to_set() =~= Set::<usize>::empty());
    } else {
        lemma_joins_are_counted(ids.drop_last(), sinks.drop_last());
        assert(ids.to_set() =~= ids.drop_last().to_set().insert(ids.last())) by {
            assert forall|id: usize| ids.to_set().contains(id) implies ids.drop_last().to_set().insert(
                ids.last(),
            ).contains(id) by {
                let i = choose|i: int| 0 <= i < ids.len() && ids[i] == id;
                if i < ids.len() - 1 {
                    assert(ids.drop_last()[i] == id);
                }
            }
            assert forall|id: usize|
                ids.drop_last().to_set().insert(ids.last()).contains(id) implies ids.to_set().contains(
                id,
            ) by {
                if id == ids.last() {
                    assert(ids[ids.len() - 1] == id);
                } else {
                    let i = choose|i: int| 0 <= i < ids.drop_last().len() && ids.drop_last()[i] == id;
                    assert(ids[i] == id);
                }
            }
        }
        assert(!ids.drop_last().to_set().contains(ids.last())) by {
            if ids.drop_last().to_set().contains(ids.last()) {
                let i = choose|i: int|
                    0 <= i < ids.drop_last().len() && ids.drop_last()[i] == ids.last();
                assert(ids[i] == ids[ids.len() - 1]);
            }
        }
    }
}

/// One more join extends the registry by one session: where `id` is new, as
/// every identifier the hub gives out is, the sessions joined so far and
/// the new one are again sessions joined in turn under distinct
/// identifiers.
pub proof fn lemma_join_extends<S>(ids: Seq<usize>, sinks: Seq<S>, id: usize, sink: S)
    requires
        ids.len() == sinks.len(),
        ids.no_duplicates(),
        !after_joins(ids, sinks).contains_key(id),
    ensures
        ids.push(id).no_duplicates(),
        after_joins(ids.push(id), sinks.push(sink)) == after_joins(ids, sinks).insert(id, sink),
{
    lemma_joins_are_counted(ids, sinks);
    assert(ids.push(id).drop_last() =~= ids);
    assert(sinks.push(sink).drop_last() =~= sinks);
    assert forall|i: int, j: int| 0 <= i < j < ids.push(id).len() implies ids.push(id)[i]
        != ids.push(id)[j] by {
        if j == ids.len() {
            assert(ids[i] == ids.push(id)[i]);
            assert(ids.to_set().contains(ids[i]));
        }
    }
}

/// Fan-out is complete: with `n` sessions joined and none left, a broadcast
/// makes exactly `n` deliveries, or `n - 1` where one of the sessions is
/// excluded.
pub proof fn lemma_fan_out_is_complete<S>(
    ids: Seq<usize>,
    sinks: Seq<S>,
    exclude: Option<usize>,
    report: Seq<Delivery>,
)
    requires
        ids.len() == sinks.len(),
        ids.no_duplicates(),
        complete_report(report, after_joins(ids, sinks), exclude),
    ensures
        exclude is None ==> report.len() == ids.len(),
        exclude matches Some(id) && ids.contains(id) ==> report.len() == ids.len() - 1,
        exclude matches Some(id) && !ids.contains(id) ==> report.len() == ids.len(),
{
    lemma_joins_are_counted(ids, sinks);
    lemma_recipients_len(after_joins(ids, sinks), exclude);
    delivered_to(report).unique_seq_to_set();
}

/// A sink that refuses a message costs nobody else theirs: in the report of
/// a broadcast, every other session the broadcast goes to has an entry of
/// its own, whatever the entry of the refusing session says.
pub proof fn lemma_refusal_is_isolated<S>(
    sessions: Map<usize, S>,
    exclude: Option<usize>,
    report: Seq<Delivery>,
    refused: int,
    other: usize,
)
    requires
        complete_report(report, sessions, exclude),
        0 <= refused < report.len(),
        !report[refused].delivered,
        recipients(sessions, exclude).contains(other),
        other != report[refused].session_id,
    ensures
        exists|i: int|
            0 <= i < report.len() && i != refused && (#[trigger] report[i]).session_id == other,
{
    let ids = delivered_to(report);
    assert(ids.to_set().contains(other));
    let i = choose|i: int| 0 <= i < ids.len() && ids[i] == other;
    assert(report[i].session_id == other);
}

} // verus!
