//! The HTTP side: the local API that other apps push to, and the parts of the
//! chat client that shape requests and read the event stream.
pub mod server;
pub mod client;
