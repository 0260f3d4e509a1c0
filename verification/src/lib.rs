//! An actor-model runtime: isolated units of computation that own private
//! state and communicate only through typed mailboxes, with supervised
//! lifecycle management (stop, force-stop, restart) and a layered error
//! taxonomy separating transport failures from application failures.

pub mod error;
pub mod handler;
pub mod log;
pub mod mailbox;
pub mod messaging;
pub mod supervision;

pub use handler::AskHandlerTrait;
pub use handler::TellHandlerTrait;
pub use messaging::bounded_channel;
pub use messaging::unbounded_channel;
pub use supervision::ActorTrait;
pub use supervision::CommandMessage;
