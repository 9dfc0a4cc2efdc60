use vstd::prelude::*;
use crate::channel::Channel;
use crate::resolve_error::ResolveError;
use crate::session::{ChannelSession, GooglePlayClient, InitState};

verus! {

/// The account and session token that a channel logs in with.
#[derive(Clone, Debug)]
pub struct Credentials {
    pub email: String,
    pub aas_token: String,
}

/// Per-channel configuration: the device identity shared by all channels and
/// each channel's credentials, where configured.
#[derive(Clone, Debug)]
pub struct RegistryConfig {
    pub device_name: String,
    pub stable: Option<Credentials>,
    pub beta: Option<Credentials>,
    pub alpha: Option<Credentials>,
}

pub open spec fn credentials_for(cfg: RegistryConfig, c: Channel) -> Option<Credentials> {
    match c {
        Channel::Stable => cfg.stable,
        Channel::Beta => cfg.beta,
        Channel::Alpha => cfg.alpha,
    }
}

impl RegistryConfig {
    pub fn credentials(&self, c: Channel) -> (r: Option<&Credentials>)
        ensures
            r matches Some(x) ==> credentials_for(*self, c) == Some(*x),
            r is None ==> credentials_for(*self, c) is None,
    {
        match c {
            Channel::Stable => self.stable.as_ref(),
            Channel::Beta => self.beta.as_ref(),
            Channel::Alpha => self.alpha.as_ref(),
        }
    }
}

/// What a caller asking for a channel's session must do next.
#[derive(Clone, Copy, Debug, PartialEq, Eq, Structural)]
pub enum Access {
    /// The session is logged in: use it.
    Ready,
    /// This caller owns login attempt `attempt`: log in upstream and report
    /// the outcome with `finish_login`.
    Login { attempt: usize },
    /// Attempt `attempt` is in flight for another caller: wait, then read its
    /// outcome with `login_outcome`.
    Wait { attempt: usize },
}

/// Owns at most one session per channel, creates each on first access, and
/// lets at most one login attempt per channel be in flight.
#[derive(Debug)]
pub struct ClientRegistry {
    config: RegistryConfig,
    stable: Option<ChannelSession>,
    beta: Option<ChannelSession>,
    alpha: Option<ChannelSession>,
}

/// The session that a channel's first access creates from the configuration.
pub open spec fn is_fresh_session(s: ChannelSession, cfg: RegistryConfig, c: Channel) -> bool {
    &&& credentials_for(cfg, c) matches Some(cr)
    &&& s.client == (GooglePlayClient {
        device_name: cfg.device_name,
        email: cr.email,
        aas_token: cr.aas_token,
        channel: c,
    })
    &&& s.state == InitState::Initializing
    &&& s.failures@ == Seq::<String>::empty()
}

/// `s` with its login state replaced.
pub open spec fn with_state(s: ChannelSession, st: InitState) -> ChannelSession {
    ChannelSession { state: st, ..s }
}

impl ClientRegistry {
    pub closed spec fn config(&self) -> RegistryConfig {
        self.config
    }

    pub closed spec fn session(&self, c: Channel) -> Option<ChannelSession> {
        match c {
            Channel::Stable => self.stable,
            Channel::Beta => self.beta,
            Channel::Alpha => self.alpha,
        }
    }

    pub open spec fn wf(&self) -> bool {
        forall|c: Channel|
            #![trigger self.session(c)]
            self.session(c) matches Some(s) ==> s.wf() && s.client.channel == c
    }

    /// `post` differs from `self` at most in the session of `c`.
    pub open spec fn same_except(&self, post: ClientRegistry, c: Channel) -> bool {
        &&& post.config() == self.config()
        &&& forall|d: Channel| d != c ==> #[trigger] post.session(d) == self.session(d)
    }

    /// One access to channel `c`: from `self` to `post`, answering `r`.
    pub open spec fn acquire_step(
        &self,
        c: Channel,
        post: ClientRegistry,
        r: Result<Access, ResolveError>,
    ) -> bool {
        match self.session(c) {
            None => match credentials_for(self.config(), c) {
                None => post == *self && r == Err::<Access, ResolveError>(
                    ResolveError::MissingCredentials { channel: c },
                ),
                Some(_) => {
                    &&& self.same_except(post, c)
                    &&& post.session(c) matches Some(s)
                    &&& is_fresh_session(s, self.config(), c)
                    &&& r == Ok::<Access, ResolveError>(Access::Login { attempt: 0 })
                },
            },
            Some(s) => match s.state {
                InitState::Ready => post == *self && r == Ok::<Access, ResolveError>(Access::Ready),
                InitState::Initializing => {
                    &&& post == *self
                    &&& r matches Ok(Access::Wait { attempt })
                    &&& attempt == s.failures@.len()
                },
                InitState::Failed => {
                    &&& self.same_except(post, c)
                    &&& post.session(c) == Some(with_state(s, InitState::Initializing))
                    &&& r matches Ok(Access::Login { attempt })
                    &&& attempt == s.failures@.len()
                },
            },
        }
    }

    /// Whether login attempt `attempt` is the one in flight on `c`.
    pub open spec fn is_in_flight(&self, c: Channel, attempt: int) -> bool {
        &&& self.session(c) matches Some(s)
        &&& s.state == InitState::Initializing
        &&& attempt == s.failures@.len()
    }

    /// Attempt `attempt` on `c` ends with `outcome`: from `self` to `post`,
    /// answering `r`.
    pub open spec fn finish_step(
        &self,
        c: Channel,
        outcome: Result<(), String>,
        post: ClientRegistry,
        r: Result<(), ResolveError>,
    ) -> bool {
        let s = self.session(c).unwrap();
        &&& self.same_except(post, c)
        &&& match outcome {
            Ok(()) => {
                &&& post.session(c) == Some(with_state(s, InitState::Ready))
                &&& r == Ok::<(), ResolveError>(())
            },
            Err(cause) => {
                &&& post.session(c) matches Some(t)
                &&& t.client == s.client
                &&& t.state == InitState::Failed
                &&& t.failures@ == s.failures@.push(cause)
                &&& r == Err::<(), ResolveError>(ResolveError::Init { channel: c, cause })
            },
        }
    }

    /// What a caller that waited on attempt `attempt` of `c` learns: `None`
    /// while it is in flight.
    pub open spec fn outcome_of(&self, c: Channel, attempt: int) -> Option<Result<(), ResolveError>> {
        match self.session(c) {
            None => None,
            Some(s) => if 0 <= attempt < s.failures@.len() {
                Some(Err(ResolveError::Init { channel: c, cause: s.failures@[attempt] }))
            } else if attempt == s.failures@.len() && s.state == InitState::Ready {
                Some(Ok(()))
            } else {
                None
            },
        }
    }

    proof fn lemma_equal_by_sessions(&self, other: ClientRegistry)
        requires
            self.config() == other.config(),
            forall|c: Channel| #[trigger] self.session(c) == other.session(c),
        ensures
            *self == other,
    {
        assert(self.session(Channel::Stable) == other.session(Channel::Stable));
        assert(self.session(Channel::Beta) == other.session(Channel::Beta));
        assert(self.session(Channel::Alpha) == other.session(Channel::Alpha));
    }

    pub fn new(config: RegistryConfig) -> (r: ClientRegistry)
        ensures
            r.wf(),
            r.config() == config,
            forall|c: Channel| r.session(c) is None,
    {
        ClientRegistry { config, stable: None, beta: None, alpha: None }
    }

    fn take_session(&mut self, c: Channel) -> (r: Option<ChannelSession>)
        ensures
            r == old(self).session(c),
            final(self).session(c) is None,
            old(self).same_except(*final(self), c),
    {
        match c {
            Channel::Stable => self.stable.take(),
            Channel::Beta => self.beta.take(),
            Channel::Alpha => self.alpha.take(),
        }
    }

    fn put_session(&mut self, c: Channel, s: ChannelSession)
        ensures
            final(self).session(c) == Some(s),
            old(self).same_except(*final(self), c),
    {
        match c {
            Channel::Stable => self.stable = Some(s),
            Channel::Beta => self.beta = Some(s),
            Channel::Alpha => self.alpha = Some(s),
        }
    }

    fn session_ref(&self, c: Channel) -> (r: Option<&ChannelSession>)
        ensures
            r matches Some(x) ==> self.session(c) == Some(*x),
            r is None ==> self.session(c) is None,
    {
        match c {
            Channel::Stable => self.stable.as_ref(),
            Channel::Beta => self.beta.as_ref(),
            Channel::Alpha => self.alpha.as_ref(),
        }
    }

    /// Finds or creates the session of `c` and says whether it is ready, whether
    /// this caller must log it in, or whether it must wait for a login that is
    /// already in flight. A session is registered before its first login
    /// begins; a failed login is not remembered as final, so the next access
    /// starts a new attempt.
    pub fn get_client(&mut self, channel: Channel) -> (r: Result<Access, ResolveError>)
        requires
            old(self).wf(),
        ensures
            final(self).wf(),
            old(self).acquire_step(channel, *final(self), r),
    {
        match self.take_session(channel) {
            None => {
                match self.config.credentials(channel) {
                    None => {
                        proof {
                            self.lemma_equal_by_sessions(*old(self));
                        }
                        Err(ResolveError::MissingCredentials { channel })
                    },
                    Some(cr) => {
                        let client = GooglePlayClient {
                            device_name: self.config.device_name.clone(),
                            email: cr.email.clone(),
                            aas_token: cr.aas_token.clone(),
                            channel,
                        };
                        let s = ChannelSession {
                            client,
                            state: InitState::Initializing,
                            failures: Vec::new(),
                        };
                        self.put_session(channel, s);
                        Ok(Access::Login { attempt: 0 })
                    },
                }
            },
            Some(s) => {
                let attempt = s.failures.len();
                match s.state {
                    InitState::Ready => {
                        self.put_session(channel, s);
                        proof {
                            self.lemma_equal_by_sessions(*old(self));
                        }
                        Ok(Access::Ready)
                    },
                    InitState::Initializing => {
                        self.put_session(channel, s);
                        proof {
                            self.lemma_equal_by_sessions(*old(self));
                        }
                        Ok(Access::Wait { attempt })
                    },
                    InitState::Failed => {
                        let t = ChannelSession { state: InitState::Initializing, ..s };
                        self.put_session(channel, t);
                        Ok(Access::Login { attempt })
                    },
                }
            },
        }
    }

    /// The attempt in flight on `c`, if any.
    pub fn in_flight(&self, c: Channel) -> (r: Option<usize>)
        ensures
            r matches Some(a) ==> self.is_in_flight(c, a as int),
            r is None ==> forall|a: int| !self.is_in_flight(c, a),
    {
        match self.session_ref(c) {
            Some(s) => if s.state == InitState::Initializing {
                Some(s.failures.len())
            } else {
                None
            },
            None => None,
        }
    }

    /// Records the outcome of the login attempt in flight on `c`. On failure
    /// the upstream cause is kept, attributed to the channel, for the callers
    /// that waited on this attempt.
    pub fn finish_login(&mut self, c: Channel, attempt: usize, outcome: Result<(), String>) -> (r:
        Result<(), ResolveError>)
        requires
            old(self).wf(),
            old(self).is_in_flight(c, attempt as int),
        ensures
            final(self).wf(),
            old(self).finish_step(c, outcome, *final(self), r),
    {
        let s = self.take_session(c).unwrap();
        match outcome {
            Ok(()) => {
                let t = ChannelSession { state: InitState::Ready, ..s };
                self.put_session(c, t);
                Ok(())
            },
            Err(cause) => {
                let mut failures = s.failures;
                failures.push(cause.clone());
                let t = ChannelSession { client: s.client, state: InitState::Failed, failures };
                self.put_session(c, t);
                Err(ResolveError::Init { channel: c, cause })
            },
        }
    }

    /// What a caller that waited on attempt `attempt` of `c` gets: the same
    /// outcome as the caller that made the attempt, or `None` while it is in
    /// flight.
    pub fn login_outcome(&self, c: Channel, attempt: usize) -> (r: Option<Result<(), ResolveError>>)
        ensures
            r == self.outcome_of(c, attempt as int),
    {
        match self.session_ref(c) {
            None => None,
            Some(s) => if attempt < s.failures.len() {
                Some(Err(ResolveError::Init { channel: c, cause: s.failures[attempt].clone() }))
            } else if attempt == s.failures.len() && s.state == InitState::Ready {
                Some(Ok(()))
            } else {
                None
            },
        }
    }

    /// The client of `c`'s session, whatever its login state.
    pub fn client(&self, c: Channel) -> (r: Option<&GooglePlayClient>)
        ensures
            r matches Some(cl) ==> self.session(c) matches Some(s) && *cl == s.client,
            r is None ==> self.session(c) is None,
    {
        match self.session_ref(c) {
            Some(s) => Some(&s.client),
            None => None,
        }
    }

    /// The client of `c`'s session once it is logged in.
    pub fn ready_client(&self, c: Channel) -> (r: Option<&GooglePlayClient>)
        ensures
            r matches Some(cl) ==> self.session(c) matches Some(s) && s.state == InitState::Ready
                && *cl == s.client,
            r is None ==> !(self.session(c) matches Some(s) && s.state == InitState::Ready),
    {
        match self.session_ref(c) {
            Some(s) => if s.state == InitState::Ready {
                Some(&s.client)
            } else {
                None
            },
            None => None,
        }
    }
}

/// Single flight: on a channel that has no session yet, the first access
/// owns login attempt 0; any further access while that attempt is in flight
/// waits on the same attempt and changes nothing; once the owner reports the
/// outcome, every waiter reads exactly the outcome that the owner got.
pub proof fn lemma_single_flight(
    reg: ClientRegistry,
    c: Channel,
    first: ClientRegistry,
    first_r: Result<Access, ResolveError>,
    later: ClientRegistry,
    later_r: Result<Access, ResolveError>,
    outcome: Result<(), String>,
    done: ClientRegistry,
    owner_r: Result<(), ResolveError>,
)
    requires
        reg.wf(),
        reg.session(c) is None,
        credentials_for(reg.config(), c) is Some,
        reg.acquire_step(c, first, first_r),
        first.acquire_step(c, later, later_r),
        later.finish_step(c, outcome, done, owner_r),
    ensures
        first_r == Ok::<Access, ResolveError>(Access::Login { attempt: 0 }),
        first.is_in_flight(c, 0),
        later_r == Ok::<Access, ResolveError>(Access::Wait { attempt: 0 }),
        later == first,
        done.outcome_of(c, 0) == Some(owner_r),
{
}

} // verus!
