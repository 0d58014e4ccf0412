//! A storage service provider for medical imaging exchanges: text codecs for
//! character repertoires, association negotiation, the framing of command
//! sets, command handling and the per-connection session machine.

pub mod association;
pub mod command_set;
pub mod dimse;
pub mod session;
pub mod text;
