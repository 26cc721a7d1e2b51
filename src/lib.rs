//! Protocol library for a network-attached soundbar: the packed status
//! register, the volume rules, and the command and reply frames of its
//! request/response protocol.

pub mod protocol;
pub mod status;
pub mod volume;
pub mod words;
