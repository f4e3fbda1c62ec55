//! A windowless sciter host: a pure model of the engine's input messages, the
//! callback bridge that answers the engine's synchronous callbacks, and the
//! session lifecycle that ties them together.

pub mod options;
pub mod message;
pub mod bridge;
pub mod session;
pub mod codec;
pub mod events;
pub mod script;
