use vstd::prelude::*;
use crate::channel::Channel;
use crate::resolve_error::ResolveError;

verus! {

/// What an upstream client for one channel is built from: the device it
/// presents, the account, and the long-lived session token.
#[derive(Clone, Debug)]
pub struct GooglePlayClient {
    pub device_name: String,
    pub email: String,
    pub aas_token: String,
    pub channel: Channel,
}

impl GooglePlayClient {
    pub fn new(device_name: &str, email: &str, aas_token: &str, channel: Channel) -> (r: Self)
        ensures
            r.device_name@ == device_name@,
            r.email@ == email@,
            r.aas_token@ == aas_token@,
            r.channel == channel,
    {
        GooglePlayClient {
            device_name: device_name.to_owned(),
            email: email.to_owned(),
            aas_token: aas_token.to_owned(),
            channel,
        }
    }

    /// The error for a failed upstream login, attributed to this channel.
    pub fn login_failed(&self, cause: String) -> (r: ResolveError)
        ensures
            r == (ResolveError::Init { channel: self.channel, cause }),
    {
        ResolveError::Init { channel: self.channel, cause }
    }

    /// The error for a failed upstream request, attributed to this channel.
    pub fn request_failed(&self, cause: String) -> (r: ResolveError)
        ensures
            r == (ResolveError::Upstream { channel: self.channel, cause }),
    {
        ResolveError::Upstream { channel: self.channel, cause }
    }
}

/// Where a channel session stands with its upstream login.
#[derive(Clone, Copy, Debug, PartialEq, Eq, Structural)]
pub enum InitState {
    /// One login attempt is in flight; others wait for it.
    Initializing,
    /// The session is logged in and serves requests.
    Ready,
    /// The last attempt failed; the next access tries again.
    Failed,
}

/// One channel's session: its client, its login state, and the cause of
/// every failed login attempt, in order. Attempts are numbered from 0; the
/// attempt in flight or last made is number `failures.len()` unless the
/// session has failed, in which case it is `failures.len() - 1`.
#[derive(Debug)]
pub struct ChannelSession {
    pub client: GooglePlayClient,
    pub state: InitState,
    pub failures: Vec<String>,
}

impl ChannelSession {
    pub open spec fn wf(&self) -> bool {
        self.state == InitState::Failed ==> self.failures@.len() > 0
    }
}

} // verus!
