//! The one-shot readiness barrier: the synchronizer raises it exactly once,
//! after the first `Ready` baseline is fully applied; callers of the pipeline
//! entry point block on it. Raising it twice is impossible by construction,
//! because raising it consumes the signalling half.

use vstd::prelude::*;

verus! {

#[verifier::external_type_specification]
#[verifier::external_body]
#[verifier::reject_recursive_types(T)]
pub struct ExSender<T>(crossbeam_channel::Sender<T>);

#[verifier::external_type_specification]
#[verifier::external_body]
#[verifier::reject_recursive_types(T)]
pub struct ExReceiver<T>(crossbeam_channel::Receiver<T>);

/// The signalling half of the barrier. Held by the synchronizer until the
/// first `Ready` is applied; consumed when raised.
pub struct ReadySignal {
    tx: crossbeam_channel::Sender<()>,
}

/// The waiting half of the barrier.
pub struct ReadyWaiter {
    rx: crossbeam_channel::Receiver<()>,
}

/// A fresh barrier, not yet raised.
/// Relies on `crossbeam_channel::bounded` with one slot: the single message
/// ever sent is buffered, so raising the barrier never blocks.
#[verifier::external_body]
pub fn ready_barrier() -> (r: (ReadySignal, ReadyWaiter)) {
    let (tx, rx) = crossbeam_channel::bounded(1);
    (ReadySignal { tx }, ReadyWaiter { rx })
}

impl ReadySignal {
    /// Raise the barrier. Consuming `self` makes a second raise impossible.
    /// Relies on `crossbeam_channel::Sender::send` into the one-slot channel:
    /// the message is buffered and every write made before this call is
    /// visible to the thread that receives it.
    #[verifier::external_body]
    pub fn signal(self) {
        let _ = self.tx.send(());
    }
}

impl ReadyWaiter {
    /// Block until the barrier is raised (true), or until the signalling half
    /// is dropped without being raised (false). Blocks indefinitely: the core
    /// imposes no timeout.
    /// Relies on `crossbeam_channel::Receiver::recv`: blocks until a message
    /// arrives or every sender is gone.
    #[verifier::external_body]
    pub fn wait(self) -> (r: bool) {
        self.rx.recv().is_ok()
    }
}

} // verus!
