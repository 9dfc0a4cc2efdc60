use vstd::prelude::*;
use vstd::string::StrSliceExecFns;

verus! {

/// A distribution channel. `Stable` is the mandatory channel; `Beta` and
/// `Alpha` are optional channels, tried in that order.
#[derive(Clone, Copy, Debug, PartialEq, Eq, Hash, Structural)]
pub enum Channel {
    Stable,
    Beta,
    Alpha,
}

/// The lowercase name of a channel.
pub open spec fn channel_name(c: Channel) -> Seq<char> {
    match c {
        Channel::Stable => "stable"@,
        Channel::Beta => "beta"@,
        Channel::Alpha => "alpha"@,
    }
}

/// The channel whose name is exactly `s`, if any.
pub open spec fn channel_named(s: Seq<char>) -> Option<Channel> {
    if s == "stable"@ {
        Some(Channel::Stable)
    } else if s == "beta"@ {
        Some(Channel::Beta)
    } else if s == "alpha"@ {
        Some(Channel::Alpha)
    } else {
        None
    }
}

/// The packages for which an optional channel is available. The table is
/// fixed for the life of the process.
pub open spec fn eligibility_set(c: Channel) -> Set<Seq<char>> {
    match c {
        Channel::Stable => Set::empty(),
        Channel::Beta => set!["com.discord"@],
        Channel::Alpha => set!["com.discord"@],
    }
}

pub open spec fn is_optional(c: Channel) -> bool {
    c != Channel::Stable
}

/// Whether `c` serves the package `package`: the mandatory channel serves
/// every package, an optional one only those in its eligibility set.
pub open spec fn is_eligible(c: Channel, package: Seq<char>) -> bool {
    match c {
        Channel::Stable => true,
        _ => eligibility_set(c).contains(package),
    }
}

/// What `str::to_lowercase` returns for a string.
pub uninterp spec fn lower_of(s: Seq<char>) -> Seq<char>;

/// Relies on `str::to_lowercase`: the result depends on the characters alone.
#[verifier::external_body]
fn lowercase(s: &str) -> (r: String)
    ensures
        r@ == lower_of(s@),
{
    s.to_lowercase()
}

/// Character-wise equality of two strings.
pub fn str_equal(a: &str, b: &str) -> (r: bool)
    ensures
        r == (a@ == b@),
{
    let n = a.unicode_len();
    if n != b.unicode_len() {
        return false;
    }
    let mut i: usize = 0;
    while i < n
        invariant
            n == a@.len(),
            n == b@.len(),
            i <= n,
            forall|j: int| 0 <= j < i ==> a@[j] == b@[j],
        decreases n - i,
    {
        if a.get_char(i) != b.get_char(i) {
            return false;
        }
        i = i + 1;
    }
    proof {
        assert(a@ =~= b@);
    }
    true
}

impl Channel {
    /// The channel named exactly `lowered` (already case-folded), if any.
    pub fn from_lowercase_name(lowered: &str) -> (r: Option<Channel>)
        ensures
            r == channel_named(lowered@),
    {
        proof {
            reveal_strlit("stable");
            reveal_strlit("beta");
            reveal_strlit("alpha");
        }
        if str_equal(lowered, "stable") {
            Some(Channel::Stable)
        } else if str_equal(lowered, "beta") {
            Some(Channel::Beta)
        } else if str_equal(lowered, "alpha") {
            Some(Channel::Alpha)
        } else {
            None
        }
    }

    /// Parses a channel name regardless of case; on failure the error names
    /// the input.
    pub fn from_str(s: &str) -> (r: Result<Channel, String>)
        ensures
            r matches Ok(c) ==> channel_named(lower_of(s@)) == Some(c),
            r matches Err(m) ==> channel_named(lower_of(s@)) is None
                && m@ == "Invalid Channel: "@ + s@,
            (r is Ok) == (channel_named(lower_of(s@)) is Some),
    {
        let lowered = lowercase(s);
        match Channel::from_lowercase_name(lowered.as_str()) {
            Some(c) => Ok(c),
            None => {
                let prefix = String::from_str("Invalid Channel: ");
                proof {
                    reveal_strlit("Invalid Channel: ");
                }
                Err(prefix.concat(s))
            },
        }
    }

    /// The lowercase name of the channel.
    pub fn name(self) -> (r: &'static str)
        ensures
            r@ == channel_name(self),
    {
        proof {
            reveal_strlit("stable");
            reveal_strlit("beta");
            reveal_strlit("alpha");
        }
        match self {
            Channel::Stable => "stable",
            Channel::Beta => "beta",
            Channel::Alpha => "alpha",
        }
    }

    /// Whether the channel serves `package_name`.
    pub fn is_available_for_package(self, package_name: &str) -> (r: bool)
        ensures
            r == is_eligible(self, package_name@),
    {
        proof {
            reveal_strlit("com.discord");
        }
        match self {
            Channel::Stable => true,
            Channel::Beta => str_equal(package_name, "com.discord"),
            Channel::Alpha => str_equal(package_name, "com.discord"),
        }
    }
}

/// The mandatory channel serves every package.
pub proof fn lemma_mandatory_always_eligible(package: Seq<char>)
    ensures
        is_eligible(Channel::Stable, package),
{
}

/// An optional channel serves a package exactly when the package is in that
/// channel's eligibility set.
pub proof fn lemma_optional_eligibility(c: Channel, package: Seq<char>)
    requires
        is_optional(c),
    ensures
        is_eligible(c, package) == eligibility_set(c).contains(package),
{
}

} // verus!
