//! A verified core for a small image autoencoder trainer.
//!
//! The library holds the decision logic of the trainer: the fixed network
//! topology and its shape behaviour, the named parameter store that the
//! model builder fills, and the state machine that drives a training run
//! (device probe, optional checkpoint load, ten epochs of batch steps and
//! evaluations, final checkpoint save). The tensor engine, the dataset
//! loader and the filesystem are outside collaborators: a thin driver
//! performs each action the state machine asks for and reports the outcome
//! back as an event.

pub mod store;
pub mod topology;
pub mod trainer;

use vstd::prelude::*;

verus! {

/// Compute devices the trainer can run on: an accelerated parallel device
/// when the runtime reports one, otherwise the default device.
#[derive(Clone, Copy, Debug, PartialEq, Eq, Structural)]
pub enum DeviceKind {
    Accelerated,
    Standard,
}

/// Device selection policy: prefer the accelerated device whenever the
/// runtime reports that one is present. This cannot fail; the absence of
/// acceleration is not an error.
pub fn select_device(accelerated_available: bool) -> (d: DeviceKind)
    ensures
        d == (if accelerated_available {
            DeviceKind::Accelerated
        } else {
            DeviceKind::Standard
        }),
{
    if accelerated_available {
        DeviceKind::Accelerated
    } else {
        DeviceKind::Standard
    }
}

} // verus!
