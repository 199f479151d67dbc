//! The making of a connection.
use serde_json::Value;
use url::ParseError;
use vstd::prelude::*;

use crate::address::{parse_url, parsed_url};

verus! {

/// The seconds to wait before another attempt to connect.
pub const CONNECTION_TIME_OUT: u64 = 3;

/// What a connection needs: an address, the source of the updates, and the tree.
pub struct SocketConnector<R> {
    /// The address in its normal form.
    pub socket_url: String,
    pub rx: R,
    pub bt_export: Value,
}

impl<R> SocketConnector<R> {
    /// Prepares a connection. It fails if and only if the text is no address.
    pub fn spawn(socket_url: String, rx: R, bt_export: Value) -> (result: Result<
        SocketConnector<R>,
        ParseError,
    >)
        ensures
            match parsed_url(socket_url@) {
                Ok(address) => {
                    &&& result is Ok
                    &&& result->Ok_0.socket_url@ == address
                    &&& result->Ok_0.rx == rx
                    &&& result->Ok_0.bt_export == bt_export
                },
                Err(err) => result is Err && result->Err_0 == err,
            },
    {
        match parse_url(&socket_url) {
            Ok(address) => Ok(SocketConnector::new(address, rx, bt_export)),
            Err(err) => Err(err),
        }
    }

    pub fn new(socket_url: String, rx: R, bt_export: Value) -> (connector: SocketConnector<R>)
        ensures
            connector == (SocketConnector { socket_url, rx, bt_export }),
    {
        Self { socket_url, rx, bt_export }
    }

    /// How many seconds to wait before the next attempt, after an attempt that went well
    /// or not.
    pub fn wait_for_connect(connected: bool) -> (wait: Option<u64>)
        ensures
            wait == (if connected {
                None
            } else {
                Some(CONNECTION_TIME_OUT)
            }),
    {
        if connected {
            None
        } else {
            Some(CONNECTION_TIME_OUT)
        }
    }
}

} // verus!
