use vstd::prelude::*;
use crate::channel::{Channel, channel_name};

verus! {

/// Why a lookup on a channel did not produce an answer.
#[derive(Clone, Debug)]
pub enum ResolveError {
    /// The optional channel does not serve the package: a client input error.
    ChannelNotAvailable { channel: Channel, package: String },
    /// The mandatory channel reports that the package does not exist.
    NotFound { package: String },
    /// The configuration holds no credentials for a channel that was accessed.
    MissingCredentials { channel: Channel },
    /// The channel's session could not log in upstream.
    Init { channel: Channel, cause: String },
    /// The upstream request on the channel failed.
    Upstream { channel: Channel, cause: String },
}

/// The text that describes an error to the caller of the gateway.
pub open spec fn error_message(e: ResolveError) -> Seq<char> {
    match e {
        ResolveError::ChannelNotAvailable { channel, package } => "Channel '"@ + channel_name(
            channel,
        ) + "' is not available for package '"@ + package@ + "'"@,
        ResolveError::NotFound { package } => "App '"@ + package@ + "' not found"@,
        ResolveError::MissingCredentials { channel } => "Missing credentials for "@
            + channel_name(channel) + " channel"@,
        ResolveError::Init { channel, cause } => "Login error for "@ + channel_name(channel)
            + " channel: "@ + cause@,
        ResolveError::Upstream { channel, cause } => "API error for "@ + channel_name(channel)
            + " channel: "@ + cause@,
    }
}

impl ResolveError {
    /// The caller-facing description of the error.
    pub fn message(&self) -> (r: String)
        ensures
            r@ == error_message(*self),
    {
        proof {
            reveal_strlit("Channel '");
            reveal_strlit("' is not available for package '");
            reveal_strlit("'");
            reveal_strlit("App '");
            reveal_strlit("' not found");
            reveal_strlit("Missing credentials for ");
            reveal_strlit(" channel");
            reveal_strlit("Login error for ");
            reveal_strlit(" channel: ");
            reveal_strlit("API error for ");
        }
        match self {
            ResolveError::ChannelNotAvailable { channel, package } => {
                let s = String::from_str("Channel '").concat(channel.name());
                let s = s.concat("' is not available for package '");
                s.concat(package.as_str()).concat("'")
            },
            ResolveError::NotFound { package } => {
                String::from_str("App '").concat(package.as_str()).concat("' not found")
            },
            ResolveError::MissingCredentials { channel } => {
                String::from_str("Missing credentials for ").concat(channel.name()).concat(
                    " channel",
                )
            },
            ResolveError::Init { channel, cause } => {
                let s = String::from_str("Login error for ").concat(channel.name());
                s.concat(" channel: ").concat(cause.as_str())
            },
            ResolveError::Upstream { channel, cause } => {
                let s = String::from_str("API error for ").concat(channel.name());
                s.concat(" channel: ").concat(cause.as_str())
            },
        }
    }
}

} // verus!
