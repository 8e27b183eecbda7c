//! Requests and answers about indexes, and the listener that mirrors a
//! machine's published states into its index record.
use vstd::prelude::*;
use vstd::string::*;
use crate::api::gql::too_few_frames;
use crate::api::model::Index;
use crate::db::model::{EntityId, IndexEntity};
use crate::address::{url_of_text, url_text};
use crate::fsm::{bad_address, FSM};
use crate::settings::{endpoint, Settings};
use crate::error::{Error, ErrorKind};
use crate::fsm::codec::{lemma_state_round_trip, state_of_text};
use crate::fsm::driver::goes_on;
use crate::fsm::{frame_texts, is_announcement, State, StateView};
use crate::text::{decimal, i32_to_string};

verus! {

/// The request for one index.
#[derive(Clone, Debug, PartialEq)]
pub struct IndexRequestBody {
    pub index_type: String,
    pub data_source: String,
    pub region: String,
}

/// The answer for one index.
#[derive(Clone, Debug, PartialEq)]
pub struct IndexResponseBody {
    pub index: Index,
}

/// One state change of an index. The status is the state's JSON text: the
/// API has no type for a state.
#[derive(Clone, Debug, PartialEq)]
pub struct IndexStatusUpdateBody {
    pub id: EntityId,
    pub status: String,
}

/// The answer for several indexes.
#[derive(Clone, Debug, PartialEq)]
pub struct MultIndexesResponseBody {
    pub indexes: Vec<Index>,
    pub indexes_count: i32,
}

impl MultIndexesResponseBody {
    /// The answer that holds `indexes`, with their number.
    pub fn from(indexes: Vec<Index>) -> (r: MultIndexesResponseBody)
        requires
            indexes@.len() <= i32::MAX,
        ensures
            r.indexes == indexes,
            r.indexes_count == indexes@.len(),
    {
        let indexes_count = indexes.len() as i32;
        MultIndexesResponseBody { indexes, indexes_count }
    }
}

/// The indexes that the API shows for the records `entities`, one for one
/// and in their order.
pub open spec fn shown(entities: Seq<IndexEntity>, indexes: Seq<Index>) -> bool {
    &&& indexes.len() == entities.len()
    &&& forall|i: int|
        0 <= i < entities.len() ==> {
            &&& (#[trigger] indexes[i]).index_id == entities[i].index_id
            &&& indexes[i].index_type == entities[i].index_type
            &&& indexes[i].data_source == entities[i].data_source
            &&& indexes[i].region == entities[i].region
            &&& indexes[i].status == entities[i].status
            &&& indexes[i].created_at == entities[i].created_at
            &&& indexes[i].updated_at == entities[i].updated_at
        }
}

/// The answer to a request for all indexes, from the records that the
/// store returned: every record as an index, in the store's order, and
/// their number.
pub fn list_indexes(entities: &Vec<IndexEntity>) -> (r: MultIndexesResponseBody)
    requires
        entities@.len() <= i32::MAX,
    ensures
        shown(entities@, r.indexes@),
        r.indexes_count == entities@.len(),
{
    let mut indexes: Vec<Index> = Vec::new();
    let mut i: usize = 0;
    while i < entities.len()
        invariant
            i <= entities@.len(),
            shown(entities@.subrange(0, i as int), indexes@),
        decreases entities@.len() - i,
    {
        indexes.push(Index::of(&entities[i]));
        i = i + 1;
    }
    assert(entities@.subrange(0, i as int) =~= entities@);
    MultIndexesResponseBody::from(indexes)
}

/// The topic under which every machine publishes.
pub open spec fn state_topic() -> Seq<char> {
    "state"@
}

/// The answer to a request for a new index, and the machine that will
/// bring the index up, from the record `entity` that the store made for
/// the request.
///
/// The machine is the new machine of the record's key for what was asked,
/// and it publishes under the topic `state`. Where the search cluster's
/// address in the settings is no URL, there is neither answer nor machine.
pub fn create_index(
    index_request: IndexRequestBody,
    entity: IndexEntity,
    settings: &Settings,
) -> (r: Result<(IndexResponseBody, FSM), Error>)
    ensures
        ({
            let address = endpoint(
                "http://"@,
                settings.elasticsearch.host@,
                settings.elasticsearch.port,
            );
            match r {
                Ok((body, fsm)) => {
                    &&& shown(seq![entity], seq![body.index])
                    &&& fsm.is_fresh(
                        entity.index_id,
                        index_request.index_type@,
                        index_request.data_source@,
                        index_request.region@,
                        settings,
                        state_topic(),
                    )
                    &&& url_of_text(address) == Some(url_text(fsm.es))
                },
                Err(e) => {
                    &&& url_of_text(address) is None
                    &&& e@.kind == ErrorKind::URL
                    &&& e@.details == bad_address(address)
                },
            }
        }),
{
    let IndexRequestBody { index_type, data_source, region } = index_request;
    let id = entity.index_id;
    match FSM::new(id, index_type, data_source, region, settings, String::from_str("state")) {
        Ok(fsm) => Ok((IndexResponseBody { index: Index::from(entity) }, fsm)),
        Err(e) => Err(e),
    }
}

/// What the listener does with one message.
#[derive(Clone, Debug, PartialEq)]
pub enum Reaction {
    /// The message is about another index, or its status is no state:
    /// nothing is written.
    Skip,
    /// The status is written to the index record, and the listener goes on.
    Write { status: String },
    /// The status is written to the index record, and the listener is done:
    /// the run has reached its end.
    WriteAndStop { status: String },
}

/// The mathematical value of a [`Reaction`].
pub enum ReactionView {
    Skip,
    Write { status: Seq<char> },
    WriteAndStop { status: Seq<char> },
}

impl View for Reaction {
    type V = ReactionView;

    open spec fn view(&self) -> ReactionView {
        match *self {
            Reaction::Skip => ReactionView::Skip,
            Reaction::Write { status } => ReactionView::Write { status: status@ },
            Reaction::WriteAndStop { status } => ReactionView::WriteAndStop { status: status@ },
        }
    }
}

/// Whether the listener is done once it has seen `state`.
pub open spec fn ends_listening(state: StateView) -> bool {
    state is Available || state is NotAvailable
}

/// What the listener for the index `id` does with a message of at least
/// three frames.
///
/// A message whose second frame is not `id` in decimal is about another
/// index. A status that is no state is passed over. Every other status is
/// written as it came, and the listener is done after `Available` and
/// `NotAvailable`.
pub open spec fn reaction_to(id: int, frames: Seq<Seq<char>>) -> ReactionView {
    if frames[1] != decimal(id) {
        ReactionView::Skip
    } else {
        match state_of_text(frames[2]) {
            None => ReactionView::Skip,
            Some(state) => if ends_listening(state) {
                ReactionView::WriteAndStop { status: frames[2] }
            } else {
                ReactionView::Write { status: frames[2] }
            },
        }
    }
}

/// Decides what the listener for the index `index_id` does with a message.
///
/// A message of fewer than three frames is an error; on every other
/// message the listener reacts as [`reaction_to`] says.
pub fn react(index_id: EntityId, frames: &Vec<String>) -> (r: Result<Reaction, Error>)
    ensures
        match r {
            Ok(reaction) => frames@.len() >= 3 && reaction@ == reaction_to(
                index_id as int,
                frame_texts(frames@),
            ),
            Err(e) => frames@.len() < 3 && e@.kind == ErrorKind::Misc && e@.details
                == too_few_frames(),
        },
{
    if frames.len() < 3 {
        return Err(
            Error::MiscError {
                details: String::from_str(
                    "Just one item in a multipart message. That is plain wrong!",
                ),
            },
        );
    }
    let key = i32_to_string(index_id);
    if frames[1] != key {
        return Ok(Reaction::Skip);
    }
    match State::deserialize(frames[2].as_str()) {
        Err(_) => Ok(Reaction::Skip),
        Ok(state) => {
            let status = frames[2].clone();
            match state {
                State::Available => Ok(Reaction::WriteAndStop { status }),
                State::NotAvailable => Ok(Reaction::WriteAndStop { status }),
                _ => Ok(Reaction::Write { status }),
            }
        },
    }
}

/// The statuses that the listener for the index `id` writes to the store
/// when it is handed `messages` in this order, until it is done, a message
/// has too few frames, or no message is left.
pub open spec fn written(id: int, messages: Seq<Seq<Seq<char>>>) -> Seq<Seq<char>>
    decreases messages.len(),
{
    if messages.len() == 0 || messages[0].len() < 3 {
        Seq::empty()
    } else {
        let later = messages.subrange(1, messages.len() as int);
        match reaction_to(id, messages[0]) {
            ReactionView::Skip => written(id, later),
            ReactionView::Write { status } => seq![status] + written(id, later),
            ReactionView::WriteAndStop { status } => seq![status],
        }
    }
}

/// The statuses of a run of messages: the third frame of each.
pub open spec fn statuses(messages: Seq<Seq<Seq<char>>>) -> Seq<Seq<char>> {
    messages.map_values(|m: Seq<Seq<char>>| m[2])
}

/// The texts of a list of messages.
pub open spec fn message_texts(messages: Seq<Vec<String>>) -> Seq<Seq<Seq<char>>> {
    messages.map_values(|m: Vec<String>| frame_texts(m@))
}

/// What the listener writes is a prefix of what the driver published.
///
/// Let `messages` announce, one for one and under whatever topic, the
/// well-formed states `published` of the index `id`. Then the statuses
/// that the index's listener writes are the statuses of the first messages,
/// in their order: none is left out before the last one written, and none
/// is written that was not published.
pub proof fn lemma_written_is_prefix(
    id: int,
    topic: Seq<char>,
    published: Seq<StateView>,
    messages: Seq<Seq<Seq<char>>>,
)
    requires
        messages.len() == published.len(),
        forall|i: int|
            0 <= i < published.len() ==> (#[trigger] published[i]).wf() && is_announcement(
                messages[i],
                topic,
                id,
                published[i],
            ),
    ensures
        written(id, messages).is_prefix_of(statuses(messages)),
    decreases messages.len(),
{
    if messages.len() > 0 {
        let later = messages.subrange(1, messages.len() as int);
        let rest = published.subrange(1, published.len() as int);
        assert(published[0].wf() && is_announcement(messages[0], topic, id, published[0]));
        lemma_state_round_trip(published[0]);
        assert(state_of_text(messages[0][2]) == Some(published[0]));
        assert forall|i: int| 0 <= i < rest.len() implies (#[trigger] rest[i]).wf()
            && is_announcement(later[i], topic, id, rest[i]) by {
            assert(rest[i] == published[i + 1]);
            assert(later[i] == messages[i + 1]);
        }
        lemma_written_is_prefix(id, topic, rest, later);
        assert(statuses(messages) =~= seq![messages[0][2]] + statuses(later));
    }
}

/// Plays the listener for the index `index_id` on `messages`, and returns
/// the statuses that it writes to the store, in the order of writing.
pub fn mirror(index_id: EntityId, messages: &Vec<Vec<String>>) -> (r: Vec<String>)
    ensures
        frame_texts(r@) == written(index_id as int, message_texts(messages@)),
{
    let ghost all = message_texts(messages@);
    let mut out: Vec<String> = Vec::new();
    let mut i: usize = 0;
    assert(all.subrange(0, all.len() as int) =~= all);
    assert(frame_texts(out@) =~= Seq::<Seq<char>>::empty());
    while i < messages.len()
        invariant_except_break
            written(index_id as int, all) == frame_texts(out@) + written(
                index_id as int,
                all.subrange(i as int, all.len() as int),
            ),
        invariant
            i <= messages@.len(),
            all == message_texts(messages@),
        ensures
            frame_texts(out@) == written(index_id as int, all),
        decreases messages@.len() - i,
    {
        let ghost tail = all.subrange(i as int, all.len() as int);
        let ghost sofar = frame_texts(out@);
        proof {
            assert(tail[0] == frame_texts(messages@[i as int]@));
            assert(tail.subrange(1, tail.len() as int) =~= all.subrange(
                i + 1,
                all.len() as int,
            ));
        }
        match react(index_id, &messages[i]) {
            Err(_) => {
                assert(sofar + Seq::<Seq<char>>::empty() =~= sofar);
                break ;
            },
            Ok(Reaction::Skip) => {},
            Ok(Reaction::Write { status }) => {
                out.push(status);
                proof {
                    let later = written(index_id as int, all.subrange(i + 1, all.len() as int));
                    assert(frame_texts(out@) =~= sofar.push(status@));
                    assert(sofar + (seq![status@] + later) =~= sofar.push(status@) + later);
                }
            },
            Ok(Reaction::WriteAndStop { status }) => {
                out.push(status);
                proof {
                    assert(frame_texts(out@) =~= sofar.push(status@));
                    assert(sofar + seq![status@] =~= sofar.push(status@));
                }
                break ;
            },
        }
        i = i + 1;
    }
    proof {
        if i == messages@.len() {
            assert(all.subrange(i as int, all.len() as int).len() == 0);
            assert(frame_texts(out@) + Seq::<Seq<char>>::empty() =~= frame_texts(out@));
        }
    }
    out
}

/// Every status that the listener writes is the JSON of a state.
pub proof fn lemma_written_are_states(id: int, messages: Seq<Seq<Seq<char>>>)
    ensures
        forall|i: int|
            0 <= i < written(id, messages).len() ==> state_of_text(
                #[trigger] written(id, messages)[i],
            ) is Some,
    decreases messages.len(),
{
    if messages.len() > 0 && messages[0].len() >= 3 {
        let later = messages.subrange(1, messages.len() as int);
        lemma_written_are_states(id, later);
        let whole = written(id, messages);
        let rest = written(id, later);
        assert forall|i: int| 0 <= i < whole.len() implies state_of_text(#[trigger] whole[i])
            is Some by {
            match reaction_to(id, messages[0]) {
                ReactionView::Skip => {},
                ReactionView::Write { status } => {
                    if i > 0 {
                        assert(whole[i] == rest[i - 1]);
                    }
                },
                ReactionView::WriteAndStop { status } => {},
            }
        }
    }
}

/// The listener writes everything that a run publishes, where the run goes
/// on after every state but its last.
///
/// Let `messages` announce, one for one, the well-formed states
/// `published` of the index `id`. Then the listener writes the status of
/// every message, in order; so the last status in the store is the last
/// one published.
pub proof fn lemma_written_is_whole(
    id: int,
    topic: Seq<char>,
    published: Seq<StateView>,
    messages: Seq<Seq<Seq<char>>>,
)
    requires
        messages.len() == published.len(),
        forall|i: int|
            0 <= i < published.len() ==> (#[trigger] published[i]).wf() && is_announcement(
                messages[i],
                topic,
                id,
                published[i],
            ),
        forall|i: int| 0 <= i < published.len() - 1 ==> goes_on(#[trigger] published[i]),
    ensures
        written(id, messages) == statuses(messages),
    decreases messages.len(),
{
    if messages.len() > 0 {
        let later = messages.subrange(1, messages.len() as int);
        let rest = published.subrange(1, published.len() as int);
        assert(published[0].wf() && is_announcement(messages[0], topic, id, published[0]));
        lemma_state_round_trip(published[0]);
        assert(state_of_text(messages[0][2]) == Some(published[0]));
        assert forall|i: int| 0 <= i < rest.len() implies (#[trigger] rest[i]).wf()
            && is_announcement(later[i], topic, id, rest[i]) by {
            assert(rest[i] == published[i + 1]);
            assert(later[i] == messages[i + 1]);
        }
        assert forall|i: int| 0 <= i < rest.len() - 1 implies goes_on(#[trigger] rest[i]) by {
            assert(rest[i] == published[i + 1]);
        }
        lemma_written_is_whole(id, topic, rest, later);
        assert(statuses(messages) =~= seq![messages[0][2]] + statuses(later));
        if messages.len() == 1 {
            assert(later.len() == 0);
            assert(written(id, later) =~= Seq::<Seq<char>>::empty());
            assert(statuses(later) =~= Seq::<Seq<char>>::empty());
        } else {
            assert(goes_on(published[0]));
        }
    } else {
        assert(statuses(messages) =~= Seq::<Seq<char>>::empty());
    }
}

} // verus!
