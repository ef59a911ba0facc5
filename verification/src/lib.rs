//! Takes requests through a prefill worker on their way to decoding.
//!
//! A `router::PrefillRouter` becomes active when the endpoint of the prefill workers is
//! known (`activation`). From then on each request has a prefill executed first
//! (`generation`): started ahead and left to itself where it is known where the prefill
//! worker hands over its results (`bootstrap`), and otherwise waited for (`execution`).
//!
//! Three courses of events reach outside at every step: the activation of the router, the
//! way of a request, and the execution of a prefill. Each is a state that takes an event and
//! gives the next action. The caller performs the action and comes back with its event.
//! What holds of these courses as a whole is stated and proved in `laws`.

pub mod activation;
pub mod bootstrap;
pub mod error;
pub mod execution;
pub mod generation;
pub mod json;
pub mod laws;
pub mod protocol;
pub mod router;

mod shared;
