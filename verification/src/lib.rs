//! Helpers for listening to a Bilibili live room: the wire format of the
//! room's packages, the records written to the room's log, and the decisions
//! taken on each package that the server sends.
pub mod deamon;
pub mod impls;
pub mod utils;

pub use impls::config::Config;
pub use impls::counter::LoopCounter;
pub use impls::package::Package;
