//! The core of a WHOIS client: a registry of servers keyed by domain suffix,
//! the text of the query that is sent, and the rules by which a referral in a
//! response is followed. Nothing here opens a socket; the caller carries each
//! request out and hands the response back.

pub mod connect;
pub mod error;
pub mod host;
pub mod json;
pub mod lookup;
pub mod punycode;
pub mod query;
pub mod referral;
pub mod registry;
pub mod response;
pub mod server;
pub mod target;
pub mod text;

pub use crate::connect::ConnectPlan;
pub use crate::error::{Failure, MapFault, WhoIsError};
pub use crate::host::{HostKind, HostLiteral};
pub use crate::json::JsonValue;
pub use crate::lookup::{LookupState, Progress, Request};
pub use crate::registry::WhoIs;
pub use crate::server::WhoIsServerValue;
pub use crate::target::{Target, WhoIsLookupOptions};
