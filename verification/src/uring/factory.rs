//! Makes connections that run on io_uring.

use std::sync::Arc;
use vstd::prelude::*;

use crate::options::ZmtpEngineConfig;
use crate::time::Instant;
use crate::uring::handler::ZmtpUringHandler;

verus! {

/// The protocol of a connection, with its settings.
#[derive(Debug, Clone)]
pub enum ProtocolConfig {
    Zmtp(Arc<ZmtpEngineConfig>),
}

/// Makes the handlers of connections.
pub struct ZmtpHandlerFactory {}

impl ZmtpHandlerFactory {
    /// The name of the protocol that the handlers speak.
    pub fn id(&self) -> (id: &'static str)
        ensures
            id@ == "zmtp-uring/3.1"@,
    {
        "zmtp-uring/3.1"
    }

    /// The handler of a connection over the given descriptor, in the given role.
    pub fn create_handler(
        &self,
        fd: i32,
        protocol_config: &ProtocolConfig,
        is_server_role: bool,
        now: Instant,
    ) -> (handler: Result<ZmtpUringHandler, String>)
        requires
            match protocol_config {
                ProtocolConfig::Zmtp(config) => crate::time::in_range(
                    now,
                    crate::uring::model::handshake_time((**config)@),
                ),
            },
        ensures
            match protocol_config {
                ProtocolConfig::Zmtp(config) => handler matches Ok(handler) && handler@
                    == crate::uring::model::fresh(fd, (**config)@, is_server_role, now)
                    && handler.well_formed(),
            },
    {
        match protocol_config {
            ProtocolConfig::Zmtp(config) => Ok(
                ZmtpUringHandler::new(fd, config.clone(), is_server_role, now),
            ),
        }
    }
}

} // verus!
