//! Message layer of a remote-method-call protocol stack: a little-endian
//! binary codec for structured values, the parameter extractors of each
//! method, and the dispatch table that frames responses.

pub mod authentication;
pub mod codec;
pub mod nex_types;
pub mod datastore_types;
pub mod datastore_protocol;
pub mod extract;
pub mod health;
pub mod matchmake_extension;
pub mod monitoring;
pub mod ticket_granting;
pub mod usum_117;
pub mod dispatch;
