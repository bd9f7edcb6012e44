//! Supervision of a companion process bundled with a desktop application:
//! the decisions of its lifecycle, and the ordered stream of what it writes.
pub mod setup;
pub mod stream;
pub mod supervisor;
