//! Opening a byte stream to a database server and negotiating an upgrade of
//! that stream to an encrypted channel.
pub mod negotiate;
pub mod params;
pub mod stream;
