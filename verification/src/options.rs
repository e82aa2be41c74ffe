//! The aggregate of all parameters of a connection to a broker.

use crate::interval::whole_seconds;
use crate::reconnect::ReconnectOptions;
use crate::tls::TlsOptions;
use std::time::Duration;
use vstd::prelude::*;

verus! {

/// The least keep-alive interval that is accepted, in seconds. A shorter one
/// would flood the broker with pings.
pub const MIN_KEEP_ALIVE_SECS: u16 = 5;

/// The number of bytes in a kilobyte of packet size.
pub const BYTES_PER_KILOBYTE: usize = 1024;

/// The message that the broker publishes for a client that disconnects
/// unexpectedly. Its inside belongs to the codec: a value is only carried to
/// the packet encoder.
#[verifier::external_type_specification]
#[verifier::external_body]
pub struct ExLastWill(mqtt3::LastWill);

/// Everything a connection manager needs to know to reach a broker and to
/// keep the session alive.
pub struct MqttOptions {
    /// broker address that you want to connect to
    pub broker_addr: String,
    /// keep alive time to send pingreq to broker when the connection is idle;
    /// `None` disables the pings
    pub keep_alive: Option<u16>,
    /// clean (or) persistent session
    pub clean_session: bool,
    /// client identifier
    pub client_id: String,
    /// time left for server to send a connection acknowlegment
    pub mqtt_connection_timeout: Duration,
    /// reconnection options
    pub reconnect: ReconnectOptions,
    /// maximum packet size, in bytes
    pub max_packet_size: usize,
    /// mqtt will
    pub last_will: Option<mqtt3::LastWill>,
    /// TLS configuration
    pub tls: Option<TlsOptions>,
}

impl MqttOptions {
    /// Whether a keep-alive interval of `secs` seconds is accepted.
    pub open spec fn valid_keep_alive(secs: u16) -> bool {
        secs >= MIN_KEEP_ALIVE_SECS
    }

    /// The keep-alive interval, where one is set, is an accepted one.
    pub open spec fn wf(self) -> bool {
        self.keep_alive matches Some(secs) ==> Self::valid_keep_alive(secs)
    }

    /// The options that a client named `id` starts from to reach the broker
    /// at `addr`.
    pub open spec fn defaults(id: String, addr: String) -> MqttOptions {
        MqttOptions {
            broker_addr: addr,
            keep_alive: Some(10u16),
            clean_session: true,
            client_id: id,
            mqtt_connection_timeout: whole_seconds(5),
            reconnect: ReconnectOptions::AfterFirstSuccess(whole_seconds(10)),
            max_packet_size: 102400usize,
            last_will: None,
            tls: None,
        }
    }

    /// These options with the keep-alive interval set to `secs` seconds.
    pub open spec fn with_keep_alive(self, secs: u16) -> MqttOptions {
        MqttOptions { keep_alive: Some(secs), ..self }
    }

    /// Whether a limit of `kilobytes` kilobytes can be held as a number of
    /// bytes on this machine.
    pub open spec fn valid_max_packet_size(kilobytes: usize) -> bool {
        kilobytes * BYTES_PER_KILOBYTE <= usize::MAX
    }

    /// These options with the packet size limit set to `kilobytes` kilobytes.
    pub open spec fn with_max_packet_size(self, kilobytes: usize) -> MqttOptions {
        MqttOptions { max_packet_size: (kilobytes * BYTES_PER_KILOBYTE) as usize, ..self }
    }

    /// These options with the session flag set to `clean_session`.
    pub open spec fn with_clean_session(self, clean_session: bool) -> MqttOptions {
        MqttOptions { clean_session, ..self }
    }

    /// These options with the reconnection policy replaced by `policy`.
    pub open spec fn with_reconnect_policy(self, policy: ReconnectOptions) -> MqttOptions {
        MqttOptions { reconnect: policy, ..self }
    }

    /// These options with the TLS settings replaced by `tls`, or cleared.
    pub open spec fn with_tls(self, tls: Option<TlsOptions>) -> MqttOptions {
        MqttOptions { tls, ..self }
    }

    /// These options with the last will replaced by `will`, or cleared.
    pub open spec fn with_last_will(self, will: Option<mqtt3::LastWill>) -> MqttOptions {
        MqttOptions { last_will: will, ..self }
    }

    /// The default options for the client `id` and the broker at `addr`.
    /// Neither string is checked for being well formed.
    pub fn new(id: String, addr: String) -> (opts: MqttOptions)
        ensures
            opts == Self::defaults(id, addr),
            opts.wf(),
    {
        MqttOptions {
            broker_addr: addr,
            keep_alive: Some(10),
            clean_session: true,
            client_id: id,
            mqtt_connection_timeout: Duration::from_secs(5),
            reconnect: ReconnectOptions::AfterFirstSuccess(Duration::from_secs(10)),
            max_packet_size: 100 * BYTES_PER_KILOBYTE,
            last_will: None,
            tls: None,
        }
    }

    /// Tells whether `set_keep_alive` accepts `secs`.
    pub fn accepts_keep_alive(secs: u16) -> (ok: bool)
        ensures
            ok == Self::valid_keep_alive(secs),
    {
        secs >= MIN_KEEP_ALIVE_SECS
    }

    /// Set number of seconds after which client should ping the broker
    /// if there is no other data exchange
    pub fn set_keep_alive(self, secs: u16) -> (opts: MqttOptions)
        requires
            Self::valid_keep_alive(secs),
        ensures
            opts == self.with_keep_alive(secs),
            opts.keep_alive == Some(secs),
            self.wf() ==> opts.wf(),
    {
        let mut opts = self;
        opts.keep_alive = Some(secs);
        opts
    }

    /// Tells whether `set_max_packet_size` accepts `kilobytes`.
    pub fn accepts_max_packet_size(kilobytes: usize) -> (ok: bool)
        ensures
            ok == Self::valid_max_packet_size(kilobytes),
    {
        kilobytes <= usize::MAX / BYTES_PER_KILOBYTE
    }

    /// Set packet size limit (in Kilo Bytes)
    pub fn set_max_packet_size(self, sz: usize) -> (opts: MqttOptions)
        requires
            Self::valid_max_packet_size(sz),
        ensures
            opts == self.with_max_packet_size(sz),
            opts.max_packet_size == sz * 1024,
            self.wf() ==> opts.wf(),
    {
        let mut opts = self;
        opts.max_packet_size = sz * BYTES_PER_KILOBYTE;
        opts
    }

    /// `clean_session = true` removes all the state from queues & instructs the broker
    /// to clean all the client state when client disconnects.
    ///
    /// When set `false`, broker will hold the client state and performs pending
    /// operations on the client when reconnection with same `client_id`
    /// happens. Local queue state is also held to retransmit packets after reconnection.
    ///
    /// So **make sure that you manually set `client_id` when `clean_session` is false**
    pub fn set_clean_session(self, clean_session: bool) -> (opts: MqttOptions)
        ensures
            opts == self.with_clean_session(clean_session),
            self.wf() ==> opts.wf(),
    {
        let mut opts = self;
        opts.clean_session = clean_session;
        opts
    }

    /// Time interval after which client should retry for new
    /// connection if there are any disconnections.
    pub fn set_reconnect_opts(self, opts: ReconnectOptions) -> (updated: MqttOptions)
        ensures
            updated == self.with_reconnect_policy(opts),
            self.wf() ==> updated.wf(),
    {
        let mut updated = self;
        updated.reconnect = opts;
        updated
    }

    /// Set tls option
    /// Supports tls client cert
    pub fn set_tls_opts(self, opts: Option<TlsOptions>) -> (updated: MqttOptions)
        ensures
            updated == self.with_tls(opts),
            self.wf() ==> updated.wf(),
    {
        let mut updated = self;
        updated.tls = opts;
        updated
    }

    /// Set MQTT last will
    /// This message will be emit by the broker on disconnect.
    pub fn set_last_will(self, will: Option<mqtt3::LastWill>) -> (opts: MqttOptions)
        ensures
            opts == self.with_last_will(will),
            self.wf() ==> opts.wf(),
    {
        let mut opts = self;
        opts.last_will = will;
        opts
    }
}

impl MqttOptions {
    /// Each setter touches one field and leaves the others as they were, so
    /// two setters of different fields give the same options in either order.
    pub proof fn lemma_setters_commute(
        self,
        secs: u16,
        kilobytes: usize,
        clean_session: bool,
        policy: ReconnectOptions,
        tls: Option<TlsOptions>,
        will: Option<mqtt3::LastWill>,
    )
        ensures
            self.with_keep_alive(secs).with_max_packet_size(kilobytes) == self.with_max_packet_size(
                kilobytes,
            ).with_keep_alive(secs),
            self.with_keep_alive(secs).with_clean_session(clean_session) == self.with_clean_session(
                clean_session,
            ).with_keep_alive(secs),
            self.with_keep_alive(secs).with_reconnect_policy(policy) == self.with_reconnect_policy(
                policy,
            ).with_keep_alive(secs),
            self.with_keep_alive(secs).with_tls(tls) == self.with_tls(tls).with_keep_alive(secs),
            self.with_keep_alive(secs).with_last_will(will) == self.with_last_will(
                will,
            ).with_keep_alive(secs),
            self.with_max_packet_size(kilobytes).with_clean_session(clean_session)
                == self.with_clean_session(clean_session).with_max_packet_size(kilobytes),
            self.with_max_packet_size(kilobytes).with_reconnect_policy(policy)
                == self.with_reconnect_policy(policy).with_max_packet_size(kilobytes),
            self.with_max_packet_size(kilobytes).with_tls(tls) == self.with_tls(
                tls,
            ).with_max_packet_size(kilobytes),
            self.with_max_packet_size(kilobytes).with_last_will(will) == self.with_last_will(
                will,
            ).with_max_packet_size(kilobytes),
            self.with_clean_session(clean_session).with_reconnect_policy(policy)
                == self.with_reconnect_policy(policy).with_clean_session(clean_session),
            self.with_clean_session(clean_session).with_tls(tls) == self.with_tls(
                tls,
            ).with_clean_session(clean_session),
            self.with_clean_session(clean_session).with_last_will(will) == self.with_last_will(
                will,
            ).with_clean_session(clean_session),
            self.with_reconnect_policy(policy).with_tls(tls) == self.with_tls(
                tls,
            ).with_reconnect_policy(policy),
            self.with_reconnect_policy(policy).with_last_will(will) == self.with_last_will(
                will,
            ).with_reconnect_policy(policy),
            self.with_tls(tls).with_last_will(will) == self.with_last_will(will).with_tls(tls),
    {
    }

    /// The session flag, the packet size limit and the reconnection policy
    /// can be set in any of the six orders: the options that result are the
    /// same, field by field.
    pub proof fn lemma_three_setters_in_any_order(
        self,
        clean_session: bool,
        kilobytes: usize,
        policy: ReconnectOptions,
    )
        ensures
            ({
                let first = self.with_clean_session(clean_session).with_max_packet_size(
                    kilobytes,
                ).with_reconnect_policy(policy);
                &&& first == self.with_clean_session(clean_session).with_reconnect_policy(
                    policy,
                ).with_max_packet_size(kilobytes)
                &&& first == self.with_max_packet_size(kilobytes).with_clean_session(
                    clean_session,
                ).with_reconnect_policy(policy)
                &&& first == self.with_max_packet_size(kilobytes).with_reconnect_policy(
                    policy,
                ).with_clean_session(clean_session)
                &&& first == self.with_reconnect_policy(policy).with_clean_session(
                    clean_session,
                ).with_max_packet_size(kilobytes)
                &&& first == self.with_reconnect_policy(policy).with_max_packet_size(
                    kilobytes,
                ).with_clean_session(clean_session)
                &&& first == (MqttOptions {
                    clean_session,
                    max_packet_size: (kilobytes * BYTES_PER_KILOBYTE) as usize,
                    reconnect: policy,
                    ..self
                })
            }),
    {
    }
}

/// The codec derives `Clone` for its last will, a record of two strings, a
/// quality of service and a flag: the copy has the fields of the value it
/// was made from.
pub assume_specification[ <mqtt3::LastWill as Clone>::clone ](will: &mqtt3::LastWill) -> (copy:
    mqtt3::LastWill)
    ensures
        copy == *will,
;

impl Clone for MqttOptions {
    /// A clone agrees in every field with the options it was made from; its
    /// TLS settings point to the same backend configuration.
    fn clone(&self) -> (opts: MqttOptions)
        ensures
            opts == *self,
    {
        MqttOptions {
            broker_addr: self.broker_addr.clone(),
            keep_alive: self.keep_alive,
            clean_session: self.clean_session,
            client_id: self.client_id.clone(),
            mqtt_connection_timeout: self.mqtt_connection_timeout,
            reconnect: self.reconnect,
            max_packet_size: self.max_packet_size,
            last_will: self.last_will.clone(),
            tls: self.tls.clone(),
        }
    }
}

} // verus!
