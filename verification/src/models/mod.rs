pub mod state;

pub use state::{AmrState, StateLog};
