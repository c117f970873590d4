//! What is set for a broker.

use vstd::prelude::*;

verus! {

/// Who a broker is.
#[derive(Debug)]
pub struct BrokerIdentity {
    pub broker_cluster_name: String,
}

/// The settings that bear on sending.
#[derive(Debug)]
pub struct BrokerConfig {
    pub broker_identity: BrokerIdentity,
    pub broker_ip1: String,
    pub listen_port: u32,
    pub region_id: String,
    pub trace_on: bool,
    pub async_send_enable: bool,
    pub reject_transaction_message: bool,
    pub start_accept_send_request_time_stamp: i64,
}

/// What a [`BrokerConfig`] holds.
pub struct ConfigView {
    pub cluster_name: Seq<char>,
    pub ip: Seq<char>,
    pub port: u32,
    pub region: Seq<char>,
    pub trace_on: bool,
    pub async_send: bool,
    pub reject_transactions: bool,
    pub start_millis: i64,
}

impl ConfigView {
    /// The address of the broker, in text.
    pub open spec fn address(self) -> Seq<char> {
        self.ip + ":"@ + crate::text::decimal(self.port as nat)
    }
}

impl View for BrokerConfig {
    type V = ConfigView;

    open spec fn view(&self) -> ConfigView {
        ConfigView {
            cluster_name: self.broker_identity.broker_cluster_name@,
            ip: self.broker_ip1@,
            port: self.listen_port,
            region: self.region_id@,
            trace_on: self.trace_on,
            async_send: self.async_send_enable,
            reject_transactions: self.reject_transaction_message,
            start_millis: self.start_accept_send_request_time_stamp,
        }
    }
}

} // verus!
