//! The controller that joins the queue to a carrier.
//!
//! The controller performs no input or output.  It keeps an agenda of things
//! to do; [`engine::QueueRuntime::advance`] takes the first of them and says
//! which action the surrounding program performs, and the program hands back
//! what came of it before it advances again.

pub mod conduct;
pub mod engine;
pub mod laws;
pub mod model;
pub mod recovery;
pub mod state;
pub mod surroundings;
