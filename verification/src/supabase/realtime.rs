//! Configuration and bookkeeping for real-time channels: the data that a
//! connection is set up with, message references, and the reconnection
//! backoff.

use crate::text::{decimal, decimal_text};
use vstd::prelude::*;
use vstd::string::*;

verus! {

/// The states of a channel.
#[derive(Debug, Clone, PartialEq)]
pub enum ChannelState {
    Closed,
    Joining,
    Joined,
    Leaving,
    Errored,
}

/// The kinds of event a channel carries.
#[derive(Debug, Clone, PartialEq)]
pub enum EventType {
    Broadcast,
    Presence,
    PostgresChanges,
    System,
}

/// How a channel is set up.
#[derive(Debug, Clone)]
pub struct ChannelConfig {
    pub broadcast: BroadcastConfig,
    pub presence: PresenceConfig,
    pub private: bool,
}

/// Whether broadcasts come back to their sender, and whether they are acknowledged.
#[derive(Debug, Clone)]
pub struct BroadcastConfig {
    pub self_send: bool,
    pub ack: bool,
}

/// The key under which a client's presence is tracked.
#[derive(Debug, Clone)]
pub struct PresenceConfig {
    pub key: String,
}

impl Default for ChannelConfig {
    /// A public channel that neither echoes nor acknowledges broadcasts,
    /// with an empty presence key.
    fn default() -> (config: Self)
        ensures
            !config.broadcast.self_send,
            !config.broadcast.ack,
            config.presence.key@ == Seq::<char>::empty(),
            !config.private,
    {
        ChannelConfig {
            broadcast: BroadcastConfig { self_send: false, ack: false },
            presence: PresenceConfig { key: String::new() },
            private: false,
        }
    }
}

/// The kinds of change to a table that can be listened for.
#[derive(Debug, Clone, PartialEq)]
pub enum PostgresChangeEvent {
    Insert,
    Update,
    Delete,
    All,
}

/// Which changes to listen for; `filter` is in PostgREST syntax.
#[derive(Debug, Clone)]
pub struct PostgresChangeFilter {
    pub event: PostgresChangeEvent,
    pub schema: String,
    pub table: String,
    pub filter: Option<String>,
}

/// How a connection is set up.
#[derive(Debug, Clone)]
pub struct RealtimeConfig {
    pub endpoint: String,
    pub api_key: String,
    pub access_token: Option<String>,
    pub heartbeat_interval_ms: u64,
    pub timeout_ms: u64,
    /// The waits before the first, second, ... reconnection attempt.
    pub reconnect_after_ms: Vec<u64>,
}

/// The waits before reconnecting that a connection starts out with.
pub open spec fn default_backoff() -> Seq<u64> {
    seq![1000u64, 2000u64, 5000u64, 10000u64]
}

/// Whether a configuration holds the default timings and no access token.
pub open spec fn has_default_timings(config: RealtimeConfig) -> bool {
    &&& config.access_token is None
    &&& config.heartbeat_interval_ms == 25000
    &&& config.timeout_ms == 10000
    &&& config.reconnect_after_ms@ == default_backoff()
}

impl Default for RealtimeConfig {
    /// The default timings, with an empty endpoint and key.
    fn default() -> (config: Self)
        ensures
            config.endpoint@ == Seq::<char>::empty(),
            config.api_key@ == Seq::<char>::empty(),
            has_default_timings(config),
    {
        let reconnect_after_ms: Vec<u64> = vec![1000, 2000, 5000, 10000];
        assert(reconnect_after_ms@ =~= default_backoff());
        RealtimeConfig {
            endpoint: String::new(),
            api_key: String::new(),
            access_token: None,
            heartbeat_interval_ms: 25000,
            timeout_ms: 10000,
            reconnect_after_ms,
        }
    }
}

/// How a subscription ended.
#[derive(Debug, Clone, PartialEq)]
pub enum SubscriptionStatus {
    Subscribed,
    TimedOut,
    Closed,
    ChannelError,
}

/// A real-time client: so far, its configuration.
pub struct RealtimeClient {
    pub config: RealtimeConfig,
}

impl RealtimeClient {
    /// A client for `endpoint` with the default timings.
    pub fn new(endpoint: String, api_key: String) -> (client: Self)
        ensures
            client.config.endpoint == endpoint,
            client.config.api_key == api_key,
            has_default_timings(client.config),
    {
        let reconnect_after_ms: Vec<u64> = vec![1000, 2000, 5000, 10000];
        assert(reconnect_after_ms@ =~= default_backoff());
        RealtimeClient {
            config: RealtimeConfig {
                endpoint,
                api_key,
                access_token: None,
                heartbeat_interval_ms: 25000,
                timeout_ms: 10000,
                reconnect_after_ms,
            },
        }
    }

    /// The same client with `token` as its access token.
    pub fn with_access_token(self, token: String) -> (client: Self)
        ensures
            client.config == (RealtimeConfig { access_token: Some(token), ..self.config }),
    {
        let mut client = self;
        client.config.access_token = Some(token);
        client
    }

    /// The same client with another heartbeat interval.
    pub fn with_heartbeat_interval(self, interval_ms: u64) -> (client: Self)
        ensures
            client.config == (RealtimeConfig { heartbeat_interval_ms: interval_ms, ..self.config }),
    {
        let mut client = self;
        client.config.heartbeat_interval_ms = interval_ms;
        client
    }
}

/// A channel: its topic, its configuration and its state.
pub struct RealtimeChannel {
    pub topic: String,
    pub config: ChannelConfig,
    pub state: ChannelState,
}

impl RealtimeChannel {
    /// A channel on `topic` that is closed.
    pub fn new(topic: String, config: ChannelConfig) -> (channel: Self)
        ensures
            channel.topic == topic,
            channel.config == config,
            channel.state is Closed,
    {
        RealtimeChannel { topic, config, state: ChannelState::Closed }
    }
}

/// What can go wrong on a connection.
#[derive(Debug)]
pub enum RealtimeError {
    ConnectionError(String),
    ChannelError(String),
    Timeout,
    AuthError(String),
    SerializationError(String),
}

/// The message of an error: what kind it is, then its detail.
pub open spec fn error_text(error: RealtimeError) -> Seq<char> {
    match error {
        RealtimeError::ConnectionError(detail) => "Connection error: "@ + detail@,
        RealtimeError::ChannelError(detail) => "Channel error: "@ + detail@,
        RealtimeError::Timeout => "Operation timed out"@,
        RealtimeError::AuthError(detail) => "Auth error: "@ + detail@,
        RealtimeError::SerializationError(detail) => "Serialization error: "@ + detail@,
    }
}

impl RealtimeError {
    /// The message of this error.
    pub fn message(&self) -> (text: String)
        ensures
            text@ == error_text(*self),
    {
        match self {
            RealtimeError::ConnectionError(detail) => String::from_str("Connection error: ").concat(
                detail.as_str(),
            ),
            RealtimeError::ChannelError(detail) => String::from_str("Channel error: ").concat(
                detail.as_str(),
            ),
            RealtimeError::Timeout => String::from_str("Operation timed out"),
            RealtimeError::AuthError(detail) => String::from_str("Auth error: ").concat(
                detail.as_str(),
            ),
            RealtimeError::SerializationError(detail) => String::from_str(
                "Serialization error: ",
            ).concat(detail.as_str()),
        }
    }
}

/// Advances the counter and gives the new count as the next message
/// reference, in decimal.
pub fn next_ref(counter: &mut u64) -> (reference: String)
    requires
        *old(counter) < u64::MAX,
    ensures
        *final(counter) == *old(counter) + 1,
        reference@ == decimal(*final(counter) as nat),
{
    *counter += 1;
    decimal_text(*counter)
}

/// The wait before reconnection attempt number `tries`, counted from one:
/// the interval at that place, the last interval once the attempts outrun
/// the list, and ten seconds where the list is empty. Attempt zero waits as
/// the first does.
pub open spec fn backoff(tries: nat, intervals: Seq<u64>) -> u64 {
    let place = if tries == 0 {
        0
    } else {
        tries - 1
    };
    if place < intervals.len() {
        intervals[place]
    } else if intervals.len() > 0 {
        intervals.last()
    } else {
        10000
    }
}

/// The wait in milliseconds before reconnection attempt number `tries`.
pub fn reconnect_delay(tries: usize, intervals: &[u64]) -> (delay: u64)
    ensures
        delay == backoff(tries as nat, intervals@),
{
    let place: usize = if tries == 0 {
        0
    } else {
        tries - 1
    };
    if place < intervals.len() {
        intervals[place]
    } else if intervals.len() > 0 {
        intervals[intervals.len() - 1]
    } else {
        10000
    }
}

/// Once the attempts outrun the list, the wait stays at the last interval.
pub proof fn lemma_backoff_saturates(tries: nat, intervals: Seq<u64>)
    requires
        intervals.len() > 0,
        tries >= intervals.len(),
    ensures
        backoff(tries, intervals) == intervals.last(),
{
}

} // verus!
