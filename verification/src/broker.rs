//! The broker side of the bridge: the outbound message shape and the
//! connect options the publisher must be created with.

use vstd::prelude::*;

verus! {

/// One message handed to the broker client: fire-and-forget, so the
/// delivery quality is always at-most-once (0) and nothing is retained.
pub struct OutboundMessage {
    /// Hierarchical routing key on the broker.
    pub topic: String,
    /// The bytes to deliver, as UTF-8 text.
    pub payload: String,
    /// Delivery quality; the bridge always publishes at-most-once (0).
    pub qos: u8,
    /// Whether the broker keeps the message for future subscribers; the
    /// bridge never retains.
    pub retained: bool,
}

/// Username and secret attached to the broker handshake.
pub struct BrokerCredentials {
    pub username: String,
    pub password: String,
}

/// Everything the broker connection is established with. Immutable once
/// constructed.
pub struct BrokerConnectOptions {
    /// Keep-alive interval, in seconds.
    pub keep_alive_secs: u64,
    /// Lower bound of the automatic-reconnect backoff, in seconds.
    pub reconnect_min_secs: u64,
    /// Upper bound of the automatic-reconnect backoff, in seconds.
    pub reconnect_max_secs: u64,
    /// Every (re)connect starts a clean session.
    pub clean_session: bool,
    /// How long the initial connect may block before it is treated as a
    /// fatal configuration error, in seconds.
    pub connect_timeout_secs: u64,
    /// `None` connects anonymously; `Some` attaches username and secret.
    pub credentials: Option<BrokerCredentials>,
}

/// Build the connect options for the broker connection: keep-alive of 20
/// seconds, automatic reconnect backing off between 1 and 60 seconds, a
/// clean session on every connect, and a 10 second bound on the initial
/// attempt. An empty username attaches no credential at all; a non-empty
/// one attaches both the username and the secret.
pub fn broker_connect_options(username: &String, password: &String) -> (opts: BrokerConnectOptions)
    ensures
        opts.keep_alive_secs == 20,
        opts.reconnect_min_secs == 1,
        opts.reconnect_max_secs == 60,
        opts.clean_session,
        opts.connect_timeout_secs == 10,
        username@.len() == 0 ==> opts.credentials is None,
        username@.len() > 0 ==> (opts.credentials matches Some(c) && c.username@ == username@
            && c.password@ == password@),
{
    let credentials = if username.as_str().is_empty() {
        None
    } else {
        Some(
            BrokerCredentials {
                username: username.clone(),
                password: password.clone(),
            },
        )
    };
    BrokerConnectOptions {
        keep_alive_secs: 20,
        reconnect_min_secs: 1,
        reconnect_max_secs: 60,
        clean_session: true,
        connect_timeout_secs: 10,
        credentials,
    }
}

} // verus!
