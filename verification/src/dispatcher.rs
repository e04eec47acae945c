//! The dispatch loop's bookkeeping: the messages in flight.
//!
//! A [`Dispatcher`] holds one worker state per unacknowledged message, keyed
//! by the message's delivery tag, and never more of them than the prefetch
//! count. Each event names the message it belongs to and moves that message
//! alone, so a slow or retrying delivery holds up no other.

use crate::config::Config;
use crate::decoder::{decode_document, decode_message, DecodeError};
use crate::models::{WebhookQueueMessage, WebhookQueueMessageModel};
use crate::parse::parsed_document;
use crate::retry::RetryPolicy;
use crate::worker::{
    decoded_model, held_request, is_finished, start_decoded, start_spec, step, step_spec,
    WorkerAction, WorkerActionModel, WorkerEvent, WorkerState, WorkerStateModel,
};
use std::collections::HashMap;
use vstd::prelude::*;

verus! {

broadcast use vstd::std_specs::hash::group_hash_axioms;

/// Why the dispatcher did not take a message or an event.
#[derive(Debug, Clone, Copy, PartialEq, Eq, Structural)]
pub enum DispatchError {
    /// As many messages are in flight as the prefetch count allows.
    AtCapacity,
    /// A message with this delivery tag is in flight already.
    DuplicateTag,
    /// No message with this delivery tag is in flight.
    UnknownTag,
}

/// The messages in flight, with the configuration that governs them.
pub struct Dispatcher {
    policy: RetryPolicy,
    prefetch_count: u16,
    workers: HashMap<u64, WorkerState>,
}

/// The model of a [`Dispatcher`].
pub struct DispatcherModel {
    pub policy: RetryPolicy,
    pub prefetch_count: u16,
    /// The state of each message in flight, by delivery tag.
    pub in_flight: Map<u64, WorkerStateModel>,
}

impl DispatcherModel {
    /// What holds of every dispatcher: it holds finitely many messages, at
    /// most `prefetch_count`, and none of them is finished.
    pub open spec fn wf(self) -> bool {
        &&& self.in_flight.dom().finite()
        &&& self.in_flight.len() <= self.prefetch_count
        &&& forall|tag: u64| #[trigger]
            self.in_flight.contains_key(tag) ==> !is_finished(self.in_flight[tag])
    }
}

/// The dispatcher after a message with delivery tag `tag` has arrived, and
/// the answer to its arrival.
///
/// A tag that is in flight already, and a message beyond the prefetch count,
/// are refused and change nothing. Otherwise a decoded request takes a place
/// and its first attempt is asked for, and a malformed message is rejected
/// without taking one.
pub open spec fn accept_spec(
    dispatcher: DispatcherModel,
    tag: u64,
    decoded: Option<WebhookQueueMessageModel>,
) -> (DispatcherModel, Result<WorkerActionModel, DispatchError>) {
    if dispatcher.in_flight.contains_key(tag) {
        (dispatcher, Err(DispatchError::DuplicateTag))
    } else if dispatcher.in_flight.len() >= dispatcher.prefetch_count {
        (dispatcher, Err(DispatchError::AtCapacity))
    } else {
        let begun = start_spec(decoded);
        if is_finished(begun.0) {
            (dispatcher, Ok(begun.1))
        } else {
            (
                DispatcherModel {
                    in_flight: dispatcher.in_flight.insert(tag, begun.0),
                    ..dispatcher
                },
                Ok(begun.1),
            )
        }
    }
}

/// The dispatcher after an event for the message with delivery tag `tag`,
/// and the action that the event asks for.
///
/// The message takes one step of its own state machine; once it is
/// acknowledged it leaves the dispatcher. An event for a tag that is not in
/// flight is refused and changes nothing.
pub open spec fn handle_spec(dispatcher: DispatcherModel, tag: u64, event: WorkerEvent) -> (
    DispatcherModel,
    Result<WorkerActionModel, DispatchError>,
) {
    if !dispatcher.in_flight.contains_key(tag) {
        (dispatcher, Err(DispatchError::UnknownTag))
    } else {
        let next = step_spec(dispatcher.in_flight[tag], event, dispatcher.policy);
        if is_finished(next.0) {
            (
                DispatcherModel { in_flight: dispatcher.in_flight.remove(tag), ..dispatcher },
                Ok(next.1),
            )
        } else {
            (
                DispatcherModel { in_flight: dispatcher.in_flight.insert(tag, next.0), ..dispatcher },
                Ok(next.1),
            )
        }
    }
}

/// The model of the answer to a message or an event.
pub open spec fn answer_model(answer: Result<WorkerAction, DispatchError>) -> Result<
    WorkerActionModel,
    DispatchError,
> {
    match answer {
        Ok(action) => Ok(action@),
        Err(error) => Err(error),
    }
}

/// The models of the states held in a map.
pub open spec fn states_model(workers: Map<u64, WorkerState>) -> Map<u64, WorkerStateModel> {
    workers.map_values(|state: WorkerState| state@)
}

impl View for Dispatcher {
    type V = DispatcherModel;

    closed spec fn view(&self) -> DispatcherModel {
        DispatcherModel {
            policy: self.policy,
            prefetch_count: self.prefetch_count,
            in_flight: states_model(self.workers@),
        }
    }
}

impl Dispatcher {
    #[verifier::type_invariant]
    spec fn inv(self) -> bool {
        self@.wf()
    }

    /// A dispatcher with nothing in flight, for the given configuration.
    pub fn new(config: &Config) -> (dispatcher: Dispatcher)
        ensures
            dispatcher@.wf(),
            dispatcher@ == (DispatcherModel {
                policy: RetryPolicy {
                    max_retries: config.max_retries,
                    retry_delay_ms: config.retry_delay_ms,
                },
                prefetch_count: config.prefetch_count,
                in_flight: Map::empty(),
            }),
    {
        let workers: HashMap<u64, WorkerState> = HashMap::new();
        assert(states_model(workers@) =~= Map::<u64, WorkerStateModel>::empty());
        Dispatcher { policy: RetryPolicy::new(config), prefetch_count: config.prefetch_count, workers }
    }

    /// How many messages are in flight; never more than the prefetch count.
    pub fn in_flight(&self) -> (count: usize)
        ensures
            self@.wf(),
            count == self@.in_flight.len(),
            count <= self@.prefetch_count,
    {
        proof {
            use_type_invariant(self);
            assert(states_model(self.workers@).dom() =~= self.workers@.dom());
        }
        self.workers.len()
    }

    /// Whether another message can be taken.
    pub fn has_capacity(&self) -> (free: bool)
        ensures
            self@.wf(),
            free == (self@.in_flight.len() < self@.prefetch_count),
    {
        proof {
            use_type_invariant(self);
            assert(states_model(self.workers@).dom() =~= self.workers@.dom());
        }
        self.workers.len() < self.prefetch_count as usize
    }

    /// The retry policy in force.
    pub fn policy(&self) -> (policy: RetryPolicy)
        ensures
            policy == self@.policy,
    {
        self.policy
    }

    /// The request of a message in flight, while it is being delivered.
    pub fn request(&self, tag: u64) -> (request: Option<&WebhookQueueMessage>)
        ensures
            match request {
                Some(r) => self@.in_flight.contains_key(tag) && held_request(
                    self@.in_flight[tag],
                ) == Some(r@),
                None => !self@.in_flight.contains_key(tag) || held_request(self@.in_flight[tag])
                    is None,
            },
    {
        match self.workers.get(&tag) {
            Some(state) => state.request(),
            None => None,
        }
    }

    /// Takes in a message whose decoding gave `decoded`.
    pub fn accept_decoded(
        &mut self,
        tag: u64,
        decoded: Result<WebhookQueueMessage, DecodeError>,
    ) -> (answer: Result<WorkerAction, DispatchError>)
        ensures
            final(self)@.wf(),
            (final(self)@, answer_model(answer)) == accept_spec(
                old(self)@,
                tag,
                decoded_model(decoded),
            ),
    {
        proof {
            use_type_invariant(&*self);
            assert(states_model(self.workers@).dom() =~= self.workers@.dom());
        }
        if self.workers.contains_key(&tag) {
            return Err(DispatchError::DuplicateTag);
        }
        if self.workers.len() >= self.prefetch_count as usize {
            return Err(DispatchError::AtCapacity);
        }
        let (state, action) = start_decoded(decoded);
        if state.is_finished() {
            return Ok(action);
        }
        let ghost before = self.workers@;
        // The map is taken out while it changes, so that what holds of every
        // dispatcher holds of `self` at each point.
        let mut workers: HashMap<u64, WorkerState> = HashMap::new();
        assert(states_model(workers@) =~= Map::<u64, WorkerStateModel>::empty());
        std::mem::swap(&mut self.workers, &mut workers);
        workers.insert(tag, state);
        proof {
            assert(states_model(workers@) =~= states_model(before).insert(tag, state@));
            assert(states_model(workers@).dom() =~= workers@.dom());
        }
        std::mem::swap(&mut self.workers, &mut workers);
        Ok(action)
    }

    /// Takes in a message: decodes its bytes, and gives it a place unless it
    /// is malformed.
    pub fn accept(&mut self, tag: u64, bytes: &[u8]) -> (answer: Result<
        WorkerAction,
        DispatchError,
    >)
        ensures
            final(self)@.wf(),
            (final(self)@, answer_model(answer)) == accept_spec(
                old(self)@,
                tag,
                decode_document(parsed_document(bytes@)),
            ),
    {
        self.accept_decoded(tag, decode_message(bytes))
    }

    /// Reports an event for the message with delivery tag `tag`.
    pub fn handle(&mut self, tag: u64, event: WorkerEvent) -> (answer: Result<
        WorkerAction,
        DispatchError,
    >)
        ensures
            final(self)@.wf(),
            (final(self)@, answer_model(answer)) == handle_spec(old(self)@, tag, event),
    {
        proof {
            use_type_invariant(&*self);
            assert(states_model(self.workers@).dom() =~= self.workers@.dom());
        }
        if !self.workers.contains_key(&tag) {
            return Err(DispatchError::UnknownTag);
        }
        let ghost before = self.workers@;
        let policy = self.policy;
        // The map is taken out while it changes, so that what holds of every
        // dispatcher holds of `self` at each point.
        let mut workers: HashMap<u64, WorkerState> = HashMap::new();
        assert(states_model(workers@) =~= Map::<u64, WorkerStateModel>::empty());
        std::mem::swap(&mut self.workers, &mut workers);
        let action = match workers.remove(&tag) {
            None => WorkerAction::Nothing,
            Some(state) => {
                proof {
                    assert(states_model(workers@) =~= states_model(before).remove(tag));
                    assert(states_model(workers@).dom() =~= workers@.dom());
                }
                let (next, action) = step(state, event, &policy);
                if !next.is_finished() {
                    workers.insert(tag, next);
                    proof {
                        assert(states_model(workers@) =~= states_model(before).insert(
                            tag,
                            next@,
                        ));
                        assert(states_model(workers@).dom() =~= workers@.dom());
                        assert(workers@.dom() =~= before.dom());
                    }
                }
                action
            },
        };
        std::mem::swap(&mut self.workers, &mut workers);
        Ok(action)
    }
}

/// A message or an event leaves a well-formed dispatcher well formed: the
/// messages in flight never outnumber the prefetch count.
pub proof fn law_capacity_is_kept(
    dispatcher: DispatcherModel,
    tag: u64,
    decoded: Option<WebhookQueueMessageModel>,
    event: WorkerEvent,
)
    requires
        dispatcher.wf(),
    ensures
        accept_spec(dispatcher, tag, decoded).0.wf(),
        handle_spec(dispatcher, tag, event).0.wf(),
{
    let handled = handle_spec(dispatcher, tag, event).0;
    if dispatcher.in_flight.contains_key(tag) {
        let next = step_spec(dispatcher.in_flight[tag], event, dispatcher.policy);
        if !is_finished(next.0) {
            assert(handled.in_flight.dom() =~= dispatcher.in_flight.dom());
        }
    }
}

/// Whether a message is taken depends on its tag and on the number of
/// messages in flight alone, not on where those messages stand: below the
/// prefetch count a message with a fresh tag is always taken.
pub proof fn law_no_head_of_line_blocking(
    dispatcher: DispatcherModel,
    tag: u64,
    decoded: Option<WebhookQueueMessageModel>,
)
    requires
        dispatcher.wf(),
        !dispatcher.in_flight.contains_key(tag),
        dispatcher.in_flight.len() < dispatcher.prefetch_count,
    ensures
        accept_spec(dispatcher, tag, decoded).1 == Ok::<WorkerActionModel, DispatchError>(
            start_spec(decoded).1,
        ),
        decoded is Some ==> accept_spec(dispatcher, tag, decoded).0.in_flight.contains_key(tag)
            && accept_spec(dispatcher, tag, decoded).0.in_flight[tag]
            == WorkerStateModel::Attempting(decoded->0),
{
}

/// A message or an event touches the message it names and no other: every
/// other message in flight stays in flight, in the state it was in.
pub proof fn law_messages_are_isolated(
    dispatcher: DispatcherModel,
    tag: u64,
    other: u64,
    decoded: Option<WebhookQueueMessageModel>,
    event: WorkerEvent,
)
    requires
        other != tag,
    ensures
        accept_spec(dispatcher, tag, decoded).0.in_flight.contains_key(other)
            == dispatcher.in_flight.contains_key(other),
        handle_spec(dispatcher, tag, event).0.in_flight.contains_key(other)
            == dispatcher.in_flight.contains_key(other),
        dispatcher.in_flight.contains_key(other) ==> accept_spec(
            dispatcher,
            tag,
            decoded,
        ).0.in_flight[other] == dispatcher.in_flight[other] && handle_spec(
            dispatcher,
            tag,
            event,
        ).0.in_flight[other] == dispatcher.in_flight[other],
{
}

} // verus!
