use vstd::prelude::*;
use crate::channel::{Channel, is_eligible};
use crate::registry::{Access, ClientRegistry};
use crate::resolve_error::ResolveError;

verus! {

/// What one channel's lookup can come to: details, "the app does not exist
/// here", or an error.
pub type Outcome<D> = Result<Option<D>, ResolveError>;

/// A multi-channel lookup in progress: the channel to query next (`None`
/// once finished), the details collected so far in query order, and the
/// terminal failure, if any.
pub type MultiState<D> = (Option<Channel>, Seq<(Channel, D)>, Option<ResolveError>);

/// The first optional channel after `c`, in precedence order, that serves
/// `package`.
pub open spec fn next_optional(package: Seq<char>, c: Channel) -> Option<Channel> {
    match c {
        Channel::Stable => if is_eligible(Channel::Beta, package) {
            Some(Channel::Beta)
        } else if is_eligible(Channel::Alpha, package) {
            Some(Channel::Alpha)
        } else {
            None
        },
        Channel::Beta => if is_eligible(Channel::Alpha, package) {
            Some(Channel::Alpha)
        } else {
            None
        },
        Channel::Alpha => None,
    }
}

/// Channels left to query, at most.
pub open spec fn rank(next: Option<Channel>) -> nat {
    match next {
        None => 0,
        Some(Channel::Alpha) => 1,
        Some(Channel::Beta) => 2,
        Some(Channel::Stable) => 3,
    }
}

pub open spec fn start_state<D>() -> MultiState<D> {
    (Some(Channel::Stable), Seq::empty(), None)
}

/// The state after the lookup on the pending channel came to `out`. The
/// mandatory channel's absence or error ends the lookup with that failure;
/// an optional channel contributes its details if it found some, and
/// nothing otherwise.
pub open spec fn advance<D>(package: String, st: MultiState<D>, out: Outcome<D>) -> MultiState<D> {
    match st.0 {
        None => st,
        Some(Channel::Stable) => match out {
            Ok(Some(d)) => (
                next_optional(package@, Channel::Stable),
                st.1.push((Channel::Stable, d)),
                st.2,
            ),
            Ok(None) => (None, st.1, Some(ResolveError::NotFound { package })),
            Err(e) => (None, st.1, Some(e)),
        },
        Some(c) => match out {
            Ok(Some(d)) => (next_optional(package@, c), st.1.push((c, d)), st.2),
            _ => (next_optional(package@, c), st.1, st.2),
        },
    }
}

/// The answer of a finished lookup.
pub open spec fn result_of<D>(st: MultiState<D>) -> Result<Seq<(Channel, D)>, ResolveError> {
    match st.2 {
        Some(e) => Err(e),
        None => Ok(st.1),
    }
}

/// The outcome that channel `c` gives, out of one outcome per channel.
pub open spec fn outcome_for<D>(
    c: Channel,
    stable: Outcome<D>,
    beta: Outcome<D>,
    alpha: Outcome<D>,
) -> Outcome<D> {
    match c {
        Channel::Stable => stable,
        Channel::Beta => beta,
        Channel::Alpha => alpha,
    }
}

/// Runs the lookup from `st` to its end, where each channel that is queried
/// comes to its outcome.
pub open spec fn drive<D>(
    package: String,
    st: MultiState<D>,
    stable: Outcome<D>,
    beta: Outcome<D>,
    alpha: Outcome<D>,
) -> MultiState<D>
    decreases rank(st.0),
{
    match st.0 {
        None => st,
        Some(c) => drive(
            package,
            advance(package, st, outcome_for(c, stable, beta, alpha)),
            stable,
            beta,
            alpha,
        ),
    }
}

/// Whether the run from `st` ever queries channel `q`.
pub open spec fn queries<D>(
    package: String,
    st: MultiState<D>,
    stable: Outcome<D>,
    beta: Outcome<D>,
    alpha: Outcome<D>,
    q: Channel,
) -> bool
    decreases rank(st.0),
{
    match st.0 {
        None => false,
        Some(c) => c == q || queries(
            package,
            advance(package, st, outcome_for(c, stable, beta, alpha)),
            stable,
            beta,
            alpha,
            q,
        ),
    }
}

/// The answer of a whole multi-channel lookup of `package`.
pub open spec fn aggregate<D>(
    package: String,
    stable: Outcome<D>,
    beta: Outcome<D>,
    alpha: Outcome<D>,
) -> Result<Seq<(Channel, D)>, ResolveError> {
    result_of(drive(package, start_state(), stable, beta, alpha))
}

/// A multi-channel lookup of one package: the mandatory channel first, then
/// each optional channel that serves the package, in precedence order. The
/// caller runs each single-channel lookup that `next_channel` names and hands
/// its outcome to `record`, until `next_channel` is `None`.
#[derive(Debug)]
pub struct MultiLookup<D> {
    package: String,
    next: Option<Channel>,
    found: Vec<(Channel, D)>,
    failure: Option<ResolveError>,
}

impl<D> MultiLookup<D> {
    pub closed spec fn package(&self) -> String {
        self.package
    }

    pub closed spec fn state(&self) -> MultiState<D> {
        (self.next, self.found@, self.failure)
    }

    pub fn new(package: &str) -> (r: Self)
        ensures
            r.package()@ == package@,
            r.state() == start_state::<D>(),
    {
        let r = MultiLookup {
            package: package.to_owned(),
            next: Some(Channel::Stable),
            found: Vec::new(),
            failure: None,
        };
        proof {
            assert(r.found@ =~= Seq::<(Channel, D)>::empty());
        }
        r
    }

    /// The channel to query next, or `None` once the lookup is over.
    pub fn next_channel(&self) -> (r: Option<Channel>)
        ensures
            r == self.state().0,
    {
        self.next
    }

    /// Takes in the outcome of the lookup on the pending channel.
    pub fn record(&mut self, outcome: Outcome<D>)
        requires
            old(self).state().0 is Some,
        ensures
            final(self).package() == old(self).package(),
            final(self).state() == advance(old(self).package(), old(self).state(), outcome),
    {
        let c = self.next.unwrap();
        match c {
            Channel::Stable => match outcome {
                Ok(Some(d)) => {
                    self.found.push((Channel::Stable, d));
                    self.next = next_optional_channel(self.package.as_str(), Channel::Stable);
                },
                Ok(None) => {
                    self.next = None;
                    self.failure = Some(ResolveError::NotFound { package: self.package.clone() });
                },
                Err(e) => {
                    self.next = None;
                    self.failure = Some(e);
                },
            },
            _ => {
                match outcome {
                    Ok(Some(d)) => {
                        self.found.push((c, d));
                    },
                    _ => {},
                }
                self.next = next_optional_channel(self.package.as_str(), c);
            },
        }
    }

    /// The answer once no channel is left to query: the collected details by
    /// channel, or the mandatory channel's failure.
    pub fn finish(self) -> (r: Result<Vec<(Channel, D)>, ResolveError>)
        requires
            self.state().0 is None,
        ensures
            r matches Ok(v) ==> result_of(self.state()) == Ok::<Seq<(Channel, D)>, ResolveError>(v@),
            r matches Err(e) ==> result_of(self.state()) == Err::<Seq<(Channel, D)>, ResolveError>(e),
    {
        match self.failure {
            Some(e) => Err(e),
            None => Ok(self.found),
        }
    }
}

/// The first optional channel after `c` that serves `package`.
pub fn next_optional_channel(package: &str, c: Channel) -> (r: Option<Channel>)
    ensures
        r == next_optional(package@, c),
{
    match c {
        Channel::Stable => if Channel::Beta.is_available_for_package(package) {
            Some(Channel::Beta)
        } else if Channel::Alpha.is_available_for_package(package) {
            Some(Channel::Alpha)
        } else {
            None
        },
        Channel::Beta => if Channel::Alpha.is_available_for_package(package) {
            Some(Channel::Alpha)
        } else {
            None
        },
        Channel::Alpha => None,
    }
}

/// The single-channel answer once the upstream request on `channel` came back:
/// not found, found on that channel, or the channel's error.
pub fn settle_details<D>(channel: Channel, fetched: Outcome<D>) -> (r: Result<
    Option<(Channel, D)>,
    ResolveError,
>)
    ensures
        match fetched {
            Ok(None) => r == Ok::<Option<(Channel, D)>, ResolveError>(None),
            Ok(Some(d)) => r == Ok::<Option<(Channel, D)>, ResolveError>(Some((channel, d))),
            Err(e) => r == Err::<Option<(Channel, D)>, ResolveError>(e),
        },
{
    match fetched {
        Ok(Some(d)) => Ok(Some((channel, d))),
        Ok(None) => Ok(None),
        Err(e) => Err(e),
    }
}

/// The single-channel answer of a download-info request on `channel`.
pub fn settle_download<I>(channel: Channel, fetched: Result<I, ResolveError>) -> (r: Result<
    Option<(Channel, I)>,
    ResolveError,
>)
    ensures
        match fetched {
            Ok(i) => r == Ok::<Option<(Channel, I)>, ResolveError>(Some((channel, i))),
            Err(e) => r == Err::<Option<(Channel, I)>, ResolveError>(e),
        },
{
    match fetched {
        Ok(i) => Ok(Some((channel, i))),
        Err(e) => Err(e),
    }
}

impl ClientRegistry {
    /// Starts a single-channel details lookup of `package_name` on `channel`.
    /// A channel that does not serve the package is refused before the
    /// registry is touched; otherwise the channel's session is acquired as
    /// `get_client` does. Once the session is ready, the caller fetches the
    /// details and settles them with `settle_details`.
    pub fn get_details_with_fallback(&mut self, package_name: &str, channel: Channel) -> (r:
        Result<Access, ResolveError>)
        requires
            old(self).wf(),
        ensures
            final(self).wf(),
            !is_eligible(channel, package_name@) ==> {
                &&& *final(self) == *old(self)
                &&& r matches Err(ResolveError::ChannelNotAvailable { channel: rc, package })
                &&& rc == channel
                &&& package@ == package_name@
            },
            is_eligible(channel, package_name@) ==> old(self).acquire_step(channel, *final(self), r),
    {
        if !channel.is_available_for_package(package_name) {
            return Err(
                ResolveError::ChannelNotAvailable { channel, package: package_name.to_owned() },
            );
        }
        self.get_client(channel)
    }

    /// Starts a download-info request for `package_name` on `channel`, gated
    /// like `get_details_with_fallback`. Once the session is ready, the caller
    /// fetches the download info and settles it with `settle_download`.
    pub fn get_download_info(&mut self, package_name: &str, channel: Channel) -> (r: Result<
        Access,
        ResolveError,
    >)
        requires
            old(self).wf(),
        ensures
            final(self).wf(),
            !is_eligible(channel, package_name@) ==> {
                &&& *final(self) == *old(self)
                &&& r matches Err(ResolveError::ChannelNotAvailable { channel: rc, package })
                &&& rc == channel
                &&& package@ == package_name@
            },
            is_eligible(channel, package_name@) ==> old(self).acquire_step(channel, *final(self), r),
    {
        self.get_details_with_fallback(package_name, channel)
    }
}

/// The entry that optional channel `c` adds: its details, if it serves the
/// package and found some.
pub open spec fn optional_entry<D>(package: Seq<char>, c: Channel, out: Outcome<D>) -> Seq<(Channel, D)> {
    match out {
        Ok(Some(d)) => if is_eligible(c, package) {
            seq![(c, d)]
        } else {
            Seq::empty()
        },
        _ => Seq::empty(),
    }
}

/// The answer of a multi-channel lookup, stated directly.
pub open spec fn aggregate_direct<D>(
    package: String,
    stable: Outcome<D>,
    beta: Outcome<D>,
    alpha: Outcome<D>,
) -> Result<Seq<(Channel, D)>, ResolveError> {
    match stable {
        Ok(Some(d)) => Ok(
            seq![(Channel::Stable, d)] + optional_entry(package@, Channel::Beta, beta)
                + optional_entry(package@, Channel::Alpha, alpha),
        ),
        Ok(None) => Err(ResolveError::NotFound { package }),
        Err(e) => Err(e),
    }
}

/// The lookup answers with the mandatory channel's details followed by those
/// of each optional channel that serves the package and found some; or with
/// NotFound or the mandatory channel's error.
pub proof fn lemma_aggregate_direct<D>(
    package: String,
    stable: Outcome<D>,
    beta: Outcome<D>,
    alpha: Outcome<D>,
)
    ensures
        aggregate(package, stable, beta, alpha) == aggregate_direct(package, stable, beta, alpha),
{
    reveal_with_fuel(drive, 4);
    let st0 = start_state::<D>();
    let st1 = advance(package, st0, stable);
    let st2 = match st1.0 {
        Some(c) => advance(package, st1, outcome_for(c, stable, beta, alpha)),
        None => st1,
    };
    let st3 = match st2.0 {
        Some(c) => advance(package, st2, outcome_for(c, stable, beta, alpha)),
        None => st2,
    };
    assert(drive(package, st0, stable, beta, alpha) == drive(package, st1, stable, beta, alpha));
    if let Ok(Some(d)) = stable {
        let e = seq![(Channel::Stable, d)];
        assert(st1.1 =~= e);
        assert(drive(package, st1, stable, beta, alpha) == drive(package, st2, stable, beta, alpha));
        assert(drive(package, st2, stable, beta, alpha) == drive(package, st3, stable, beta, alpha));
        assert(st3.0 is None);
        let b = optional_entry(package@, Channel::Beta, beta);
        let a = optional_entry(package@, Channel::Alpha, alpha);
        assert(st3.1 =~= e + b + a);
    }
}

/// When the mandatory channel reports the app absent, the whole lookup fails
/// with NotFound whatever the optional channels would give, and no optional
/// channel is queried.
pub proof fn lemma_mandatory_not_found_is_fatal<D>(package: String, beta: Outcome<D>, alpha: Outcome<D>)
    ensures
        aggregate(package, Ok(None), beta, alpha) == Err::<Seq<(Channel, D)>, ResolveError>(
            ResolveError::NotFound { package },
        ),
        !queries(package, start_state(), Ok(None), beta, alpha, Channel::Beta),
        !queries(package, start_state(), Ok(None), beta, alpha, Channel::Alpha),
{
    reveal_with_fuel(queries, 2);
    lemma_aggregate_direct(package, Ok(None), beta, alpha);
}

/// An error on the mandatory channel ends the lookup with that same error,
/// and no optional channel is queried.
pub proof fn lemma_mandatory_error_is_fatal<D>(
    package: String,
    e: ResolveError,
    beta: Outcome<D>,
    alpha: Outcome<D>,
)
    ensures
        aggregate(package, Err(e), beta, alpha) == Err::<Seq<(Channel, D)>, ResolveError>(e),
        !queries(package, start_state(), Err(e), beta, alpha, Channel::Beta),
        !queries(package, start_state(), Err(e), beta, alpha, Channel::Alpha),
{
    reveal_with_fuel(queries, 2);
    lemma_aggregate_direct(package, Err(e), beta, alpha);
}

/// When the mandatory channel finds the app and an optional channel fails
/// (an error, or no details), the lookup still succeeds: its answer starts
/// with the mandatory channel's details and holds no entry of the failed
/// channel.
pub proof fn lemma_optional_failure_is_contained<D>(
    package: String,
    d: D,
    c: Channel,
    beta: Outcome<D>,
    alpha: Outcome<D>,
)
    requires
        c != Channel::Stable,
        !(outcome_for(c, Ok(Some(d)), beta, alpha) is Ok && outcome_for(
            c,
            Ok(Some(d)),
            beta,
            alpha,
        )->Ok_0 is Some),
    ensures
        aggregate(package, Ok(Some(d)), beta, alpha) matches Ok(m) && m.len() >= 1 && m[0] == (
        Channel::Stable, d) && forall|i: int| 0 <= i < m.len() ==> #[trigger] m[i].0 != c,
{
    lemma_aggregate_direct(package, Ok(Some(d)), beta, alpha);
}

/// An optional channel that does not serve the package is never queried and
/// never appears in the answer.
pub proof fn lemma_ineligible_channel_skipped<D>(
    package: String,
    c: Channel,
    stable: Outcome<D>,
    beta: Outcome<D>,
    alpha: Outcome<D>,
)
    requires
        c != Channel::Stable,
        !is_eligible(c, package@),
    ensures
        !queries(package, start_state(), stable, beta, alpha, c),
        aggregate(package, stable, beta, alpha) matches Ok(m) ==> forall|i: int|
            0 <= i < m.len() ==> #[trigger] m[i].0 != c,
{
    reveal_with_fuel(queries, 4);
    lemma_aggregate_direct(package, stable, beta, alpha);
}

} // verus!
