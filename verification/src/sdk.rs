//! A plugin's protocol client: one outstanding request at a time, events
//! buffered while a call waits for its answer.
//!
//! Reading and writing the stdio stream happens at the edge. What the client
//! decides between reads is here: which request id goes out next, what each
//! arriving message is for, which events are still owed to the plugin, and
//! what the handshake said Warp supports.
use std::collections::VecDeque;

use vstd::prelude::*;

use crate::protocol::capabilities::Capability;
use crate::protocol::wire::{ErrorView, ExtensionError, error_text};
use crate::text::{decimal, decimal_string, push_str, same};

verus! {

#[derive(Debug, Clone, PartialEq, Eq)]
pub enum ClientError {
    /// Warp answered, and the answer was a refusal. A plugin is expected to
    /// handle these — a denied permission is a normal outcome, not a crash.
    Extension(ExtensionError),
    /// Warp closed the stream. Nothing further will arrive.
    Closed,
    Transport(String),
}

/// A [`ClientError`] as plain values.
pub enum ClientFault {
    Extension(ErrorView),
    Closed,
    Transport(Seq<char>),
}

impl View for ClientError {
    type V = ClientFault;

    open spec fn view(&self) -> ClientFault {
        match self {
            ClientError::Extension(e) => ClientFault::Extension(e@),
            ClientError::Closed => ClientFault::Closed,
            ClientError::Transport(s) => ClientFault::Transport(s@),
        }
    }
}

/// The sentence each client failure is shown as.
pub open spec fn client_fault_text(f: ClientFault) -> Seq<char> {
    match f {
        ClientFault::Extension(e) => error_text(e),
        ClientFault::Closed => "Warp closed the extension stream"@,
        ClientFault::Transport(s) => "extension transport failed: "@ + s,
    }
}

impl ClientError {
    /// The sentence this failure is shown as.
    pub fn message(&self) -> (s: String)
        ensures
            s@ == client_fault_text(self@),
    {
        match self {
            ClientError::Extension(e) => e.text(),
            ClientError::Closed => String::from_str("Warp closed the extension stream"),
            ClientError::Transport(detail) => {
                let mut s = String::from_str("extension transport failed: ");
                push_str(&mut s, detail.as_str());
                s
            },
        }
    }
}

/// A message that arrived while a call waits, reduced to what deciding on it
/// reads: its kind, and for a response the id it answers.
pub enum Arrival<E, R> {
    /// A request from Warp; a plugin answers none.
    Request,
    Response { request_id: String, response: R },
    Event(E),
}

/// What became of an arrival.
pub enum Routed<R> {
    /// The answer to the call in flight.
    Answer(R),
    /// An event, kept for [`Inbox::take_buffered`] in arrival order.
    Buffered,
    /// A request, or a response to some other call: nothing for this call.
    Ignored,
}

/// The client's bookkeeping between reads of its stream.
pub struct Inbox<E> {
    pending: VecDeque<E>,
    next_request_id: u64,
    closed: bool,
    capabilities: Vec<Capability>,
}

/// An [`Inbox`] as plain values.
pub struct InboxView<E> {
    /// Events that arrived during calls and are not yet handed out, oldest first.
    pub pending: Seq<E>,
    /// The id the next request goes out with.
    pub next_request_id: nat,
    /// Warp closed the stream; nothing further will arrive.
    pub closed: bool,
    /// What the handshake said this Warp build supports.
    pub capabilities: Seq<Capability>,
}

impl<E> View for Inbox<E> {
    type V = InboxView<E>;

    closed spec fn view(&self) -> InboxView<E> {
        InboxView {
            pending: self.pending@,
            next_request_id: self.next_request_id as nat,
            closed: self.closed,
            capabilities: self.capabilities@,
        }
    }
}

impl<E> Inbox<E> {
    /// Nothing buffered, the first request numbered 1, the stream open and
    /// nothing known of Warp before the handshake.
    pub fn new() -> (inbox: Inbox<E>)
        ensures
            inbox@.pending == Seq::<E>::empty(),
            inbox@.next_request_id == 1,
            !inbox@.closed,
            inbox@.capabilities == Seq::<Capability>::empty(),
    {
        Inbox { pending: VecDeque::new(), next_request_id: 1, closed: false, capabilities: Vec::new() }
    }

    /// True while another request id can be issued.
    pub fn can_issue(&self) -> (b: bool)
        ensures
            b == (self@.next_request_id < u64::MAX),
    {
        self.next_request_id < u64::MAX
    }

    /// The id of the request about to go out, in decimal; the next one is one
    /// higher, so no two requests of a client share an id.
    pub fn issue_request_id(&mut self) -> (id: String)
        requires
            old(self)@.next_request_id < u64::MAX,
        ensures
            id@ == decimal(old(self)@.next_request_id),
            final(self)@.next_request_id == old(self)@.next_request_id + 1,
            final(self)@.pending == old(self)@.pending,
            final(self)@.closed == old(self)@.closed,
            final(self)@.capabilities == old(self)@.capabilities,
    {
        let id = decimal_string(self.next_request_id);
        self.next_request_id = self.next_request_id + 1;
        id
    }

    /// Decides what a message that arrived during the call `waiting_for`
    /// is for: the matching response answers the call, an event is kept so
    /// it is not lost, and anything else is passed over.
    pub fn route<R>(&mut self, waiting_for: &str, arrival: Arrival<E, R>) -> (r: Routed<R>)
        ensures
            match arrival {
                Arrival::Response { request_id, response } => if request_id@ == waiting_for@ {
                    r == Routed::Answer(response) && final(self)@ == old(self)@
                } else {
                    r is Ignored && final(self)@ == old(self)@
                },
                Arrival::Event(event) => {
                    &&& r is Buffered
                    &&& final(self)@.pending == old(self)@.pending.push(event)
                    &&& final(self)@.next_request_id == old(self)@.next_request_id
                    &&& final(self)@.closed == old(self)@.closed
                    &&& final(self)@.capabilities == old(self)@.capabilities
                },
                Arrival::Request => r is Ignored && final(self)@ == old(self)@,
            },
    {
        match arrival {
            Arrival::Response { request_id, response } => {
                if same(request_id.as_str(), waiting_for) {
                    Routed::Answer(response)
                } else {
                    Routed::Ignored
                }
            },
            Arrival::Event(event) => {
                self.pending.push_back(event);
                Routed::Buffered
            },
            Arrival::Request => Routed::Ignored,
        }
    }

    /// The oldest event kept during a call, if any; events come out in the
    /// order they arrived.
    pub fn take_buffered(&mut self) -> (e: Option<E>)
        ensures
            match e {
                Some(event) => {
                    &&& old(self)@.pending.len() > 0
                    &&& event == old(self)@.pending[0]
                    &&& final(self)@.pending == old(self)@.pending.drop_first()
                },
                None => old(self)@.pending.len() == 0 && final(self)@.pending == old(self)@.pending,
            },
            final(self)@.next_request_id == old(self)@.next_request_id,
            final(self)@.closed == old(self)@.closed,
            final(self)@.capabilities == old(self)@.capabilities,
    {
        let e = self.pending.pop_front();
        proof {
            if e is Some {
                assert(self.pending@ =~= old(self)@.pending.drop_first());
            }
        }
        e
    }

    /// Records that Warp closed the stream.
    pub fn close(&mut self)
        ensures
            final(self)@.closed,
            final(self)@.pending == old(self)@.pending,
            final(self)@.next_request_id == old(self)@.next_request_id,
            final(self)@.capabilities == old(self)@.capabilities,
    {
        self.closed = true;
    }

    pub fn is_closed(&self) -> (b: bool)
        ensures
            b == self@.closed,
    {
        self.closed
    }

    /// Records what the handshake said this Warp build supports.
    pub fn record_capabilities(&mut self, advertised: Vec<Capability>)
        ensures
            final(self)@.capabilities == advertised@,
            final(self)@.pending == old(self)@.pending,
            final(self)@.next_request_id == old(self)@.next_request_id,
            final(self)@.closed == old(self)@.closed,
    {
        self.capabilities = advertised;
    }

    pub fn capabilities(&self) -> (c: &[Capability])
        ensures
            c@ == self@.capabilities,
    {
        self.capabilities.as_slice()
    }

    /// True when Warp advertised `capability` at the handshake. A plugin checks
    /// before calling into an optional surface rather than treating an
    /// `unsupported_capability` error as a failure.
    pub fn supports(&self, capability: Capability) -> (b: bool)
        ensures
            b == self@.capabilities.contains(capability),
    {
        let mut i: usize = 0;
        while i < self.capabilities.len()
            invariant
                0 <= i <= self.capabilities@.len(),
                forall|j: int| 0 <= j < i ==> self.capabilities@[j] != capability,
            decreases self.capabilities@.len() - i,
        {
            if self.capabilities[i] == capability {
                assert(self.capabilities@[i as int] == capability);
                return true;
            }
            i += 1;
        }
        false
    }
}

} // verus!
