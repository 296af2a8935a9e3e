//! A notification channel between any number of producer threads and one
//! consumer thread. Producers hand messages over through a bounded queue and
//! announce them on one atomic counter; the consumer claims announced messages
//! from that counter and, when there are none, marks itself asleep on it. A
//! producer that finds the consumer asleep is told to trigger the wake signal,
//! so the signal is only used when the consumer really sleeps.
//!
//! - `state`: the counter's values and the two updates on it, as pure steps.
//! - `model`: the channel as all threads together see it, and what holds of
//!   it after every interleaving of their steps.
//! - `queue`: what is assumed of the message queue.
//! - `sync`: what is assumed of the atomic counter and the shared pointer.
//! - `channel`: the handle that producers and the consumer share.

pub mod channel;
pub mod model;
pub mod queue;
pub mod state;
pub mod sync;

pub use channel::Notify;
pub use state::Wake;
