//! Shutdown: one cancellation that every receiver observes exactly once.

use tokio::sync::broadcast::{Receiver, Sender};
use vstd::prelude::*;

verus! {

/// `tokio::sync::broadcast::Sender`, the sending half of a broadcast channel.
#[verifier::external_type_specification]
#[verifier::external_body]
#[verifier::reject_recursive_types(T)]
pub struct ExSender<T>(Sender<T>);

/// `tokio::sync::broadcast::Receiver`, a receiving half of a broadcast
/// channel.
#[verifier::external_type_specification]
#[verifier::external_body]
#[verifier::reject_recursive_types(T)]
pub struct ExReceiver<T>(Receiver<T>);

/// Opens a broadcast channel of capacity one with
/// `tokio::sync::broadcast::channel` and keeps its sender. The call panics
/// only for a capacity of zero or above half of `usize::MAX`.
#[verifier::external_body]
fn open_channel() -> (tx: Sender<()>) {
    tokio::sync::broadcast::channel(1).0
}

/// Sends the unit value with `Sender::send`, which wakes the receivers that
/// wait. It returns whether the send succeeded, that is whether any receiver
/// was subscribed; nothing is claimed about that, since it depends on who
/// listens.
#[verifier::external_body]
fn wake_receivers(tx: &Sender<()>) -> (heard: bool) {
    tx.send(()).is_ok()
}

/// Makes a receiver with `Sender::subscribe`. It receives what is sent
/// after this call.
#[verifier::external_body]
fn subscribe(tx: &Sender<()>) -> (rx: Receiver<()>) {
    tx.subscribe()
}

/// The sending side of shutdown. The channel wakes the receivers that wait;
/// the signaler itself remembers whether cancellation was signalled, so that
/// receivers made before and after the signal observe it alike.
#[derive(Debug)]
pub struct ExitSignaler {
    signalled: bool,
    broadcast_tx: Sender<()>,
}

/// One receiver of shutdown: it observes the cancellation once. Its half of
/// the channel tells it when to look at the signaler.
#[derive(Debug)]
pub struct ExitSignal {
    observed: bool,
    broadcast_rx: Receiver<()>,
}

impl ExitSignaler {
    /// Whether cancellation was signalled.
    pub closed spec fn signalled(&self) -> bool {
        self.signalled
    }

    pub fn new() -> (r: ExitSignaler)
        ensures
            !r.signalled(),
    {
        ExitSignaler { signalled: false, broadcast_tx: open_channel() }
    }

    pub fn is_signalled(&self) -> (r: bool)
        ensures
            r == self.signalled(),
    {
        self.signalled
    }

    /// Signals cancellation and wakes the receivers that wait. Signalling
    /// again changes nothing. The result tells whether any receiver was
    /// subscribed; that nobody listens is no error.
    pub fn exit(&mut self) -> (heard: bool)
        ensures
            final(self).signalled(),
    {
        self.signalled = true;
        wake_receivers(&self.broadcast_tx)
    }

    /// A new receiver, which has observed nothing yet.
    pub fn new_exit_signal(&self) -> (r: ExitSignal)
        ensures
            !r.observed(),
    {
        ExitSignal { observed: false, broadcast_rx: subscribe(&self.broadcast_tx) }
    }
}

impl ExitSignal {
    /// Whether this receiver has observed the cancellation.
    pub closed spec fn observed(&self) -> bool {
        self.observed
    }

    pub fn has_observed(&self) -> (r: bool)
        ensures
            r == self.observed(),
    {
        self.observed
    }

    /// The receiver's half of the channel, to wait on for the next wake-up.
    pub fn receiver(&mut self) -> (rx: &mut Receiver<()>)
        ensures
            final(self).observed() == old(self).observed(),
    {
        &mut self.broadcast_rx
    }

    /// Looks at the signaler: returns `true` when cancellation is observed
    /// by this look, which happens once, at the first look after the signal.
    pub fn observe(&mut self, signaler: &ExitSignaler) -> (delivered: bool)
        ensures
            (delivered, final(self).observed()) == look(old(self).observed(), signaler.signalled()),
    {
        if signaler.signalled && !self.observed {
            self.observed = true;
            true
        } else {
            false
        }
    }
}

/// What a receiver that has observed `observed` sees in a look at a signaler
/// that has signalled `signalled`: whether the cancellation is delivered, and
/// whether the receiver has observed it afterwards.
pub open spec fn look(observed: bool, signalled: bool) -> (bool, bool) {
    (signalled && !observed, observed || signalled)
}

/// The number of times that the cancellation is delivered to a receiver
/// which looks at the signaler once for each entry of `signalled`, where the
/// entry says whether cancellation was signalled by then.
pub open spec fn deliveries(observed: bool, signalled: Seq<bool>) -> nat
    decreases signalled.len(),
{
    if signalled.len() == 0 {
        0
    } else {
        let (delivered, after) = look(observed, signalled[0]);
        (if delivered {
            1nat
        } else {
            0nat
        }) + deliveries(after, signalled.skip(1))
    }
}

/// A receiver observes at most one cancellation, however often it looks.
pub proof fn lemma_at_most_one_delivery(observed: bool, signalled: Seq<bool>)
    ensures
        deliveries(observed, signalled) <= 1,
        observed ==> deliveries(observed, signalled) == 0,
    decreases signalled.len(),
{
    if signalled.len() > 0 {
        lemma_at_most_one_delivery(look(observed, signalled[0]).1, signalled.skip(1));
    }
}

/// A receiver that has not observed the cancellation and looks at least once
/// after the signal observes exactly one, whether it was made before the
/// signal or after it.
pub proof fn lemma_exactly_one_delivery(signalled: Seq<bool>)
    requires
        signalled.len() > 0,
        signalled.last(),
    ensures
        deliveries(false, signalled) == 1,
    decreases signalled.len(),
{
    if signalled[0] {
        lemma_at_most_one_delivery(true, signalled.skip(1));
    } else {
        assert(signalled.len() > 1);
        assert(signalled.skip(1).last() == signalled.last());
        lemma_exactly_one_delivery(signalled.skip(1));
    }
}

} // verus!
