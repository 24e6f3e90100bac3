//! Path handling for the data directory and home expansion, and the root
//! view component's request-selection state machine.
pub mod paths;
pub mod root;
