//! Fan-out of one message to the clients of a workspace.
//!
//! Sending is not done here. A [`Broadcast`] names the client that is to be
//! served next and takes note of how each delivery went; whoever owns the
//! connections does the sending. A delivery that fails is noted and the run
//! goes on with the next client.

use crate::message::{Message, MessageView};
use crate::registry::{registered, slot, ClientId, WorkspaceRegistry};
use vstd::prelude::*;

verus! {

/// One run of deliveries: a message, the clients it goes to, and how the
/// deliveries made so far went.
pub struct Broadcast {
    message: Message,
    recipients: Vec<ClientId>,
    outcomes: Vec<bool>,
}

/// A [`Broadcast`] as plain values.
pub struct BroadcastView {
    /// The message that every recipient is sent.
    pub message: MessageView,
    /// The clients to serve, in the order in which they are served.
    pub recipients: Seq<ClientId>,
    /// Whether each delivery made so far succeeded, in the order of the
    /// recipients.
    pub outcomes: Seq<bool>,
}

/// The first `n` recipients whose delivery went as `wanted` says, in order.
pub open spec fn tally(recipients: Seq<ClientId>, outcomes: Seq<bool>, n: int, wanted: bool) -> Seq<
    ClientId,
>
    decreases n,
{
    if n <= 0 {
        Seq::empty()
    } else if outcomes[n - 1] == wanted {
        tally(recipients, outcomes, n - 1, wanted).push(recipients[n - 1])
    } else {
        tally(recipients, outcomes, n - 1, wanted)
    }
}

impl BroadcastView {
    /// No more deliveries were made than there are recipients.
    pub open spec fn wf(self) -> bool {
        self.outcomes.len() <= self.recipients.len()
    }

    /// The client to serve next, if one is left.
    pub open spec fn next(self) -> Option<ClientId> {
        if self.outcomes.len() < self.recipients.len() {
            Some(self.recipients[self.outcomes.len() as int])
        } else {
            None
        }
    }

    /// The run after the delivery to the next client went as `delivered`
    /// says. A run with no client left stays as it is.
    pub open spec fn record(self, delivered: bool) -> BroadcastView {
        if self.outcomes.len() < self.recipients.len() {
            BroadcastView { outcomes: self.outcomes.push(delivered), ..self }
        } else {
            self
        }
    }

    /// The number of clients that were served.
    pub open spec fn served(self) -> int {
        if self.outcomes.len() <= self.recipients.len() {
            self.outcomes.len() as int
        } else {
            self.recipients.len() as int
        }
    }

    /// The clients that were served and have the message.
    pub open spec fn delivered(self) -> Seq<ClientId> {
        tally(self.recipients, self.outcomes, self.served(), true)
    }

    /// The clients that were served and could not be reached.
    pub open spec fn failed(self) -> Seq<ClientId> {
        tally(self.recipients, self.outcomes, self.served(), false)
    }
}

impl View for Broadcast {
    type V = BroadcastView;

    closed spec fn view(&self) -> BroadcastView {
        BroadcastView {
            message: self.message@,
            recipients: self.recipients@,
            outcomes: self.outcomes@,
        }
    }
}

impl Broadcast {
    /// A run that has served nobody yet.
    pub fn new(message: Message, recipients: Vec<ClientId>) -> (b: Broadcast)
        ensures
            b@ == (BroadcastView {
                message: message@,
                recipients: recipients@,
                outcomes: Seq::empty(),
            }),
            b@.wf(),
    {
        Broadcast { message, recipients, outcomes: Vec::new() }
    }

    /// The message of the run.
    pub fn message(&self) -> (m: &Message)
        ensures
            m@ == self@.message,
    {
        &self.message
    }

    /// The client to serve next, or `None` when every client was served.
    pub fn next(&self) -> (r: Option<ClientId>)
        ensures
            r == self@.next(),
    {
        if self.outcomes.len() < self.recipients.len() {
            Some(self.recipients[self.outcomes.len()])
        } else {
            None
        }
    }

    /// Takes note of how the delivery to the next client went. The run goes
    /// on with the client after it, whether the delivery succeeded or not.
    pub fn record(&mut self, delivered: bool)
        ensures
            final(self)@ == old(self)@.record(delivered),
            old(self)@.wf() ==> final(self)@.wf(),
    {
        if self.outcomes.len() < self.recipients.len() {
            self.outcomes.push(delivered);
        }
    }

    /// Whether every client was served.
    pub fn is_done(&self) -> (r: bool)
        ensures
            r == (self@.next() is None),
    {
        self.outcomes.len() >= self.recipients.len()
    }

    fn collect(&self, wanted: bool) -> (r: Vec<ClientId>)
        ensures
            r@ == tally(self@.recipients, self@.outcomes, self@.served(), wanted),
    {
        let served: usize = if self.outcomes.len() <= self.recipients.len() {
            self.outcomes.len()
        } else {
            self.recipients.len()
        };
        let mut found: Vec<ClientId> = Vec::new();
        let mut i: usize = 0;
        while i < served
            invariant
                i <= served,
                served == self@.served(),
                served <= self.outcomes.len(),
                served <= self.recipients.len(),
                found@ == tally(self@.recipients, self@.outcomes, i as int, wanted),
            decreases served - i,
        {
            if self.outcomes[i] == wanted {
                found.push(self.recipients[i]);
            }
            i += 1;
        }
        found
    }

    /// The clients that were served and have the message, in the order in
    /// which they were served.
    pub fn delivered(&self) -> (r: Vec<ClientId>)
        ensures
            r@ == self@.delivered(),
    {
        self.collect(true)
    }

    /// The clients that were served and could not be reached, in the order
    /// in which they were served.
    pub fn failed(&self) -> (r: Vec<ClientId>)
        ensures
            r@ == self@.failed(),
    {
        self.collect(false)
    }
}

impl WorkspaceRegistry {
    /// Starts a broadcast of `message` to the clients of a root, in the
    /// order in which they connected. There is none to start where the root
    /// is not registered.
    pub fn notify(&self, root: &str, message: Message) -> (r: Option<Broadcast>)
        ensures
            r is Some <==> registered(self@, root@),
            r matches Some(b) ==> b@ == (BroadcastView {
                message: message@,
                recipients: self@[slot(self@, root@)].clients,
                outcomes: Seq::empty(),
            }),
    {
        match self.get(root) {
            Some(workspace) => {
                let recipients = workspace.clients().clone();
                assert(recipients@ == workspace@.clients);
                Some(Broadcast::new(message, recipients))
            },
            None => None,
        }
    }
}

/// Within the first `n` deliveries, a client is counted as served with the
/// outcome `wanted` exactly when one of its own deliveries went that way:
/// how the deliveries to other clients went does not count.
pub proof fn lemma_tally_by_own_outcome(
    recipients: Seq<ClientId>,
    outcomes: Seq<bool>,
    n: int,
    wanted: bool,
    client: ClientId,
)
    requires
        0 <= n <= outcomes.len() <= recipients.len(),
    ensures
        tally(recipients, outcomes, n, wanted).contains(client) <==> exists|i: int|
            0 <= i < n && #[trigger] recipients[i] == client && outcomes[i] == wanted,
    decreases n,
{
    if n > 0 {
        lemma_tally_by_own_outcome(recipients, outcomes, n - 1, wanted, client);
        let before = tally(recipients, outcomes, n - 1, wanted);
        let now = tally(recipients, outcomes, n, wanted);
        if outcomes[n - 1] == wanted {
            assert(now == before.push(recipients[n - 1]));
            assert(now[now.len() - 1] == recipients[n - 1]);
            if before.contains(client) {
                let k = choose|k: int| 0 <= k < before.len() && before[k] == client;
                assert(now[k] == client);
            }
            if now.contains(client) {
                let k = choose|k: int| 0 <= k < now.len() && now[k] == client;
                if k < before.len() {
                    assert(before[k] == client);
                }
            }
        }
    }
}

/// A delivery that fails does not end the run: the client after it is the
/// next to be served, as it is after a delivery that succeeds.
pub proof fn lemma_failure_does_not_stop(b: BroadcastView, delivered: bool)
    requires
        b.outcomes.len() + 1 < b.recipients.len(),
    ensures
        b.record(delivered).next() == Some(b.recipients[b.outcomes.len() as int + 1]),
        b.record(delivered).recipients == b.recipients,
        b.record(delivered).message == b.message,
{
}

/// After a whole run, the clients that have the message are exactly those
/// whose own delivery succeeded.
pub proof fn lemma_healthy_clients_are_served(b: BroadcastView, i: int)
    requires
        b.outcomes.len() == b.recipients.len(),
        0 <= i < b.recipients.len(),
        b.outcomes[i],
    ensures
        b.delivered().contains(b.recipients[i]),
{
    lemma_tally_by_own_outcome(b.recipients, b.outcomes, b.outcomes.len() as int, true, b.recipients[i]);
}

} // verus!
