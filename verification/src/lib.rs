//! Verified core of the OpenJPEG codec handle: the event manager that routes
//! messages to the handlers a user installed, and the decisions a codec makes
//! before any work is handed to its J2K or JP2 backend.

pub mod event;
pub mod codec;
pub mod laws;
