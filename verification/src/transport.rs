//! Host/agent transports: the transport interface and an in-memory transport with FIFO
//! queues and a binary payload store.
use vstd::prelude::*;

use std::collections::VecDeque;

use crate::protocol::{
    AdvancedAgentEventEnvelope, AdvancedBinaryPayloadRef, AdvancedHostCommandEnvelope,
    AdvancedHostResponseEnvelope,
};
use crate::text::str_eq;
use crate::types::WinrResult;

verus! {

/// A channel that carries commands to an agent and responses, events and payloads back.
///
/// Its model: the commands it has taken for the agent, and the responses and events it holds
/// for the host, each oldest first (what arrives and cannot be read as an envelope is no held
/// item). A send that succeeds puts the command behind the others and one that fails puts
/// nothing; a receive hands out the oldest held item, or nothing when none is held, and one
/// that fails takes nothing; sends and receives leave the other queues alone.
pub trait AdvancedAgentTransport {
    /// The commands taken for the agent, oldest first.
    spec fn sent_commands(&self) -> Seq<AdvancedHostCommandEnvelope>;

    /// The responses held for the host, oldest first.
    spec fn pending_responses(&self) -> Seq<AdvancedHostResponseEnvelope>;

    /// The events held for the host, oldest first.
    spec fn pending_events(&self) -> Seq<AdvancedAgentEventEnvelope>;

    fn send_command(&mut self, command: AdvancedHostCommandEnvelope) -> (r: WinrResult<()>)
        ensures
            final(self).sent_commands() == (if r is Ok {
                old(self).sent_commands().push(command)
            } else {
                old(self).sent_commands()
            }),
            final(self).pending_responses() == old(self).pending_responses(),
            final(self).pending_events() == old(self).pending_events(),
    ;

    fn recv_response(&mut self) -> (r: WinrResult<Option<AdvancedHostResponseEnvelope>>)
        ensures
            match r {
                Ok(Some(x)) => {
                    &&& old(self).pending_responses().len() > 0
                    &&& x == old(self).pending_responses()[0]
                    &&& final(self).pending_responses() == old(self).pending_responses().drop_first()
                },
                Ok(None) => {
                    &&& old(self).pending_responses().len() == 0
                    &&& final(self).pending_responses() == old(self).pending_responses()
                },
                Err(_) => final(self).pending_responses() == old(self).pending_responses(),
            },
            final(self).sent_commands() == old(self).sent_commands(),
            final(self).pending_events() == old(self).pending_events(),
    ;

    fn recv_event(&mut self) -> (r: WinrResult<Option<AdvancedAgentEventEnvelope>>)
        ensures
            match r {
                Ok(Some(x)) => {
                    &&& old(self).pending_events().len() > 0
                    &&& x == old(self).pending_events()[0]
                    &&& final(self).pending_events() == old(self).pending_events().drop_first()
                },
                Ok(None) => {
                    &&& old(self).pending_events().len() == 0
                    &&& final(self).pending_events() == old(self).pending_events()
                },
                Err(_) => final(self).pending_events() == old(self).pending_events(),
            },
            final(self).sent_commands() == old(self).sent_commands(),
            final(self).pending_responses() == old(self).pending_responses(),
    ;

    fn push_binary_payload(&mut self, payload: AdvancedBinaryPayloadRef, bytes: Vec<u8>) -> (r: WinrResult<()>)
        ensures
            final(self).sent_commands() == old(self).sent_commands(),
            final(self).pending_responses() == old(self).pending_responses(),
            final(self).pending_events() == old(self).pending_events(),
    ;

    fn take_binary_payload(&mut self, payload_id: &str) -> (r: WinrResult<Option<Vec<u8>>>)
        ensures
            final(self).sent_commands() == old(self).sent_commands(),
            final(self).pending_responses() == old(self).pending_responses(),
            final(self).pending_events() == old(self).pending_events(),
    ;
}

/// An in-process transport: commands, responses and events are FIFO queues, payloads a list.
#[derive(Debug)]
pub struct InMemoryAgentTransport {
    commands: VecDeque<AdvancedHostCommandEnvelope>,
    responses: VecDeque<AdvancedHostResponseEnvelope>,
    events: VecDeque<AdvancedAgentEventEnvelope>,
    binary_payloads: Vec<(AdvancedBinaryPayloadRef, Vec<u8>)>,
}

/// `i` is the first position of a stored payload with the given id.
pub open spec fn first_payload_with_id(
    payloads: Seq<(AdvancedBinaryPayloadRef, Vec<u8>)>,
    id: Seq<char>,
    i: int,
) -> bool {
    &&& 0 <= i < payloads.len()
    &&& payloads[i].0.payload_id@ == id
    &&& forall|j: int| 0 <= j < i ==> #[trigger] payloads[j].0.payload_id@ != id
}

/// Position of the first stored payload with the given id, if any.
pub open spec fn payload_position(payloads: Seq<(AdvancedBinaryPayloadRef, Vec<u8>)>, id: Seq<char>) -> Option<
    int,
> {
    if exists|i: int| first_payload_with_id(payloads, id, i) {
        Some(choose|i: int| first_payload_with_id(payloads, id, i))
    } else {
        None
    }
}

proof fn lemma_first_payload_unique(
    payloads: Seq<(AdvancedBinaryPayloadRef, Vec<u8>)>,
    id: Seq<char>,
    i: int,
)
    requires
        first_payload_with_id(payloads, id, i),
    ensures
        payload_position(payloads, id) == Some(i),
{
    let k = choose|k: int| first_payload_with_id(payloads, id, k);
    assert(first_payload_with_id(payloads, id, k));
    if k < i {
        assert(payloads[k].0.payload_id@ != id);
    } else if i < k {
        assert(payloads[i].0.payload_id@ != id);
    }
}

/// A payload stored under an id that no stored payload has is the one taken back by that id,
/// and taking it leaves the store as it was before.
pub proof fn lemma_payload_round_trip(
    payloads: Seq<(AdvancedBinaryPayloadRef, Vec<u8>)>,
    payload: AdvancedBinaryPayloadRef,
    bytes: Vec<u8>,
)
    requires
        forall|i: int| 0 <= i < payloads.len() ==> #[trigger] payloads[i].0.payload_id@ != payload.payload_id@,
    ensures
        payload_position(payloads.push((payload, bytes)), payload.payload_id@) == Some(payloads.len() as int),
        payloads.push((payload, bytes))[payloads.len() as int].1 == bytes,
        payloads.push((payload, bytes)).remove(payloads.len() as int) == payloads,
{
    let stored = payloads.push((payload, bytes));
    assert forall|j: int| 0 <= j < payloads.len() implies #[trigger] stored[j].0.payload_id@
        != payload.payload_id@ by {
        assert(stored[j] == payloads[j]);
    }
    assert(first_payload_with_id(stored, payload.payload_id@, payloads.len() as int));
    lemma_first_payload_unique(stored, payload.payload_id@, payloads.len() as int);
    assert(stored.remove(payloads.len() as int) =~= payloads);
}

impl InMemoryAgentTransport {
    /// Commands sent and not yet popped, oldest first.
    pub closed spec fn commands_spec(&self) -> Seq<AdvancedHostCommandEnvelope> {
        self.commands@
    }

    /// Responses pushed and not yet received, oldest first.
    pub closed spec fn responses_spec(&self) -> Seq<AdvancedHostResponseEnvelope> {
        self.responses@
    }

    /// Events pushed and not yet received, oldest first.
    pub closed spec fn events_spec(&self) -> Seq<AdvancedAgentEventEnvelope> {
        self.events@
    }

    /// Stored binary payloads, in the order they were pushed.
    pub closed spec fn payloads_spec(&self) -> Seq<(AdvancedBinaryPayloadRef, Vec<u8>)> {
        self.binary_payloads@
    }

    /// The oldest command not yet popped.
    pub fn pop_command(&mut self) -> (r: Option<AdvancedHostCommandEnvelope>)
        ensures
            match r {
                Some(c) => old(self).commands_spec().len() > 0 && c == old(self).commands_spec()[0]
                    && final(self).commands_spec() == old(self).commands_spec().subrange(
                    1,
                    old(self).commands_spec().len() as int,
                ),
                None => old(self).commands_spec().len() == 0 && final(self).commands_spec()
                    == old(self).commands_spec(),
            },
            final(self).responses_spec() == old(self).responses_spec(),
            final(self).events_spec() == old(self).events_spec(),
            final(self).payloads_spec() == old(self).payloads_spec(),
    {
        self.commands.pop_front()
    }

    /// Queues a response behind the others.
    pub fn push_response(&mut self, response: AdvancedHostResponseEnvelope)
        ensures
            final(self).responses_spec() == old(self).responses_spec().push(response),
            final(self).commands_spec() == old(self).commands_spec(),
            final(self).events_spec() == old(self).events_spec(),
            final(self).payloads_spec() == old(self).payloads_spec(),
    {
        self.responses.push_back(response);
    }

    /// Queues an event behind the others.
    pub fn push_event(&mut self, event: AdvancedAgentEventEnvelope)
        ensures
            final(self).events_spec() == old(self).events_spec().push(event),
            final(self).commands_spec() == old(self).commands_spec(),
            final(self).responses_spec() == old(self).responses_spec(),
            final(self).payloads_spec() == old(self).payloads_spec(),
    {
        self.events.push_back(event);
    }
}

impl Default for InMemoryAgentTransport {
    /// Empty queues and an empty payload store.
    fn default() -> (r: Self)
        ensures
            r.commands_spec().len() == 0,
            r.responses_spec().len() == 0,
            r.events_spec().len() == 0,
            r.payloads_spec().len() == 0,
    {
        InMemoryAgentTransport {
            commands: VecDeque::new(),
            responses: VecDeque::new(),
            events: VecDeque::new(),
            binary_payloads: Vec::new(),
        }
    }
}

impl AdvancedAgentTransport for InMemoryAgentTransport {
    open spec fn sent_commands(&self) -> Seq<AdvancedHostCommandEnvelope> {
        self.commands_spec()
    }

    open spec fn pending_responses(&self) -> Seq<AdvancedHostResponseEnvelope> {
        self.responses_spec()
    }

    open spec fn pending_events(&self) -> Seq<AdvancedAgentEventEnvelope> {
        self.events_spec()
    }

    /// Queues a command behind the others.
    fn send_command(&mut self, command: AdvancedHostCommandEnvelope) -> (r: WinrResult<()>)
        ensures
            r is Ok,
            final(self).commands_spec() == old(self).commands_spec().push(command),
            final(self).responses_spec() == old(self).responses_spec(),
            final(self).events_spec() == old(self).events_spec(),
            final(self).payloads_spec() == old(self).payloads_spec(),
    {
        self.commands.push_back(command);
        Ok(())
    }

    /// The oldest queued response, if any.
    fn recv_response(&mut self) -> (r: WinrResult<Option<AdvancedHostResponseEnvelope>>)
        ensures
            match r {
                Ok(Some(x)) => old(self).responses_spec().len() > 0 && x == old(self).responses_spec()[0]
                    && final(self).responses_spec() == old(self).responses_spec().subrange(
                    1,
                    old(self).responses_spec().len() as int,
                ),
                Ok(None) => old(self).responses_spec().len() == 0 && final(self).responses_spec()
                    == old(self).responses_spec(),
                Err(_) => false,
            },
            final(self).commands_spec() == old(self).commands_spec(),
            final(self).events_spec() == old(self).events_spec(),
            final(self).payloads_spec() == old(self).payloads_spec(),
    {
        Ok(self.responses.pop_front())
    }

    /// The oldest queued event, if any.
    fn recv_event(&mut self) -> (r: WinrResult<Option<AdvancedAgentEventEnvelope>>)
        ensures
            match r {
                Ok(Some(x)) => old(self).events_spec().len() > 0 && x == old(self).events_spec()[0]
                    && final(self).events_spec() == old(self).events_spec().subrange(
                    1,
                    old(self).events_spec().len() as int,
                ),
                Ok(None) => old(self).events_spec().len() == 0 && final(self).events_spec()
                    == old(self).events_spec(),
                Err(_) => false,
            },
            final(self).commands_spec() == old(self).commands_spec(),
            final(self).responses_spec() == old(self).responses_spec(),
            final(self).payloads_spec() == old(self).payloads_spec(),
    {
        Ok(self.events.pop_front())
    }

    /// Stores a payload and its bytes behind the others.
    fn push_binary_payload(&mut self, payload: AdvancedBinaryPayloadRef, bytes: Vec<u8>) -> (r:
        WinrResult<()>)
        ensures
            r is Ok,
            final(self).payloads_spec() == old(self).payloads_spec().push((payload, bytes)),
            final(self).commands_spec() == old(self).commands_spec(),
            final(self).responses_spec() == old(self).responses_spec(),
            final(self).events_spec() == old(self).events_spec(),
    {
        self.binary_payloads.push((payload, bytes));
        Ok(())
    }

    /// Removes and returns the bytes of the first stored payload with the given id.
    fn take_binary_payload(&mut self, payload_id: &str) -> (r: WinrResult<Option<Vec<u8>>>)
        ensures
            match payload_position(old(self).payloads_spec(), payload_id@) {
                Some(i) => r == Ok::<Option<Vec<u8>>, crate::types::WinrError>(
                    Some(old(self).payloads_spec()[i].1),
                ) && final(self).payloads_spec() == old(self).payloads_spec().remove(i),
                None => r == Ok::<Option<Vec<u8>>, crate::types::WinrError>(None)
                    && final(self).payloads_spec() == old(self).payloads_spec(),
            },
            final(self).commands_spec() == old(self).commands_spec(),
            final(self).responses_spec() == old(self).responses_spec(),
            final(self).events_spec() == old(self).events_spec(),
    {
        let mut i: usize = 0;
        while i < self.binary_payloads.len()
            invariant
                i <= self.binary_payloads.len(),
                self.binary_payloads@ == old(self).binary_payloads@,
                self.commands@ == old(self).commands@,
                self.responses@ == old(self).responses@,
                self.events@ == old(self).events@,
                forall|j: int| 0 <= j < i ==> #[trigger] self.binary_payloads@[j].0.payload_id@ != payload_id@,
            decreases self.binary_payloads.len() - i,
        {
            if str_eq(self.binary_payloads[i].0.payload_id.as_str(), payload_id) {
                proof {
                    lemma_first_payload_unique(self.binary_payloads@, payload_id@, i as int);
                }
                let (_, bytes) = self.binary_payloads.remove(i);
                return Ok(Some(bytes));
            }
            i = i + 1;
        }
        proof {
            assert(!exists|k: int| first_payload_with_id(self.binary_payloads@, payload_id@, k));
        }
        Ok(None)
    }
}

} // verus!
