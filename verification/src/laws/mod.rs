//! What holds of the library as a whole, over all inputs and all runs.

pub mod event_laws;
pub mod input_laws;
pub mod launch_laws;
pub mod model_laws;
pub mod session_laws;
pub mod shutdown_laws;
pub mod turn_laws;
