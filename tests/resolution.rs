use sniff::channel::Channel;
use sniff::registry::{Access, ClientRegistry, Credentials, RegistryConfig};
use sniff::resolve::{settle_details, settle_download, MultiLookup, Outcome};
use sniff::resolve_error::ResolveError;

fn creds(tag: &str) -> Option<Credentials> {
    Some(Credentials { email: format!("{}@example.com", tag), aas_token: format!("token-{}", tag) })
}

fn full_config() -> RegistryConfig {
    RegistryConfig {
        device_name: "px_7a".to_string(),
        stable: creds("stable"),
        beta: creds("beta"),
        alpha: creds("alpha"),
    }
}

/// Runs one single-channel lookup the way the gateway does: gate, session,
/// login, then the upstream answer given by `upstream`.
fn single(
    reg: &mut ClientRegistry,
    package: &str,
    channel: Channel,
    upstream: &dyn Fn(Channel) -> Outcome<String>,
    calls: &mut Vec<Channel>,
) -> Outcome<String> {
    match reg.get_details_with_fallback(package, channel)? {
        Access::Login { attempt } => reg.finish_login(channel, attempt, Ok(()))?,
        Access::Ready => {}
        Access::Wait { .. } => panic!("no login can be in flight here"),
    }
    let client = reg.ready_client(channel).expect("session is ready");
    assert_eq!(client.channel, channel);
    calls.push(channel);
    settle_details(channel, upstream(channel)).map(|o| o.map(|(_, d)| d))
}

fn run_multi(
    package: &str,
    upstream: &dyn Fn(Channel) -> Outcome<String>,
) -> (Result<Vec<(Channel, String)>, ResolveError>, Vec<Channel>) {
    let mut reg = ClientRegistry::new(full_config());
    let mut lookup: MultiLookup<String> = MultiLookup::new(package);
    let mut calls = Vec::new();
    while let Some(c) = lookup.next_channel() {
        let out = single(&mut reg, package, c, upstream, &mut calls);
        lookup.record(out);
    }
    (lookup.finish(), calls)
}

fn details(c: Channel) -> Outcome<String> {
    Ok(Some(format!("details-{}", c.name())))
}

#[test]
fn mandatory_only_app_gives_one_entry() {
    let (r, calls) = run_multi("com.example.app", &details);
    let m = r.expect("mandatory channel found the app");
    assert_eq!(m, vec![(Channel::Stable, "details-stable".to_string())]);
    assert_eq!(calls, vec![Channel::Stable]);
}

#[test]
fn eligible_app_gets_three_entries() {
    let (r, calls) = run_multi("com.discord", &details);
    let m = r.expect("all channels succeed");
    assert_eq!(
        m,
        vec![
            (Channel::Stable, "details-stable".to_string()),
            (Channel::Beta, "details-beta".to_string()),
            (Channel::Alpha, "details-alpha".to_string()),
        ]
    );
    assert_eq!(calls, vec![Channel::Stable, Channel::Beta, Channel::Alpha]);
}

#[test]
fn optional_error_is_swallowed() {
    let upstream = |c: Channel| -> Outcome<String> {
        if c == Channel::Beta {
            Err(ResolveError::Upstream { channel: c, cause: "timeout".to_string() })
        } else {
            details(c)
        }
    };
    let (r, _) = run_multi("com.discord", &upstream);
    let m = r.expect("an optional failure does not fail the lookup");
    assert_eq!(
        m,
        vec![
            (Channel::Stable, "details-stable".to_string()),
            (Channel::Alpha, "details-alpha".to_string()),
        ]
    );
}

#[test]
fn optional_not_found_is_absent() {
    let upstream = |c: Channel| -> Outcome<String> {
        if c == Channel::Alpha { Ok(None) } else { details(c) }
    };
    let (r, _) = run_multi("com.discord", &upstream);
    let m = r.unwrap();
    assert_eq!(m.len(), 2);
    assert!(m.iter().all(|(c, _)| *c != Channel::Alpha));
}

#[test]
fn mandatory_not_found_is_fatal() {
    let upstream = |c: Channel| -> Outcome<String> {
        if c == Channel::Stable { Ok(None) } else { details(c) }
    };
    let (r, calls) = run_multi("com.discord", &upstream);
    match r {
        Err(ResolveError::NotFound { package }) => assert_eq!(package, "com.discord"),
        other => panic!("expected NotFound, got {:?}", other),
    }
    assert_eq!(calls, vec![Channel::Stable]);
}

#[test]
fn mandatory_error_is_fatal() {
    let upstream = |c: Channel| -> Outcome<String> {
        if c == Channel::Stable {
            Err(ResolveError::Upstream { channel: c, cause: "503".to_string() })
        } else {
            details(c)
        }
    };
    let (r, calls) = run_multi("com.discord", &upstream);
    match r {
        Err(ResolveError::Upstream { channel, cause }) => {
            assert_eq!(channel, Channel::Stable);
            assert_eq!(cause, "503");
        }
        other => panic!("expected the upstream error, got {:?}", other),
    }
    assert_eq!(calls, vec![Channel::Stable]);
}

#[test]
fn ineligible_single_lookup_is_refused_before_any_call() {
    let mut reg = ClientRegistry::new(full_config());
    match reg.get_details_with_fallback("com.example.app", Channel::Beta) {
        Err(e @ ResolveError::ChannelNotAvailable { .. }) => {
            assert_eq!(
                e.message(),
                "Channel 'beta' is not available for package 'com.example.app'"
            );
        }
        other => panic!("expected ChannelNotAvailable, got {:?}", other),
    }
    assert!(reg.in_flight(Channel::Beta).is_none());
    assert!(reg.ready_client(Channel::Beta).is_none());
    // The refusal created no session: the first real access still owns attempt 0.
    assert_eq!(reg.get_client(Channel::Beta).unwrap(), Access::Login { attempt: 0 });
}

#[test]
fn ineligible_download_info_is_refused() {
    let mut reg = ClientRegistry::new(full_config());
    assert!(matches!(
        reg.get_download_info("com.example.app", Channel::Alpha),
        Err(ResolveError::ChannelNotAvailable { channel: Channel::Alpha, .. })
    ));
}

#[test]
fn settle_details_maps_each_outcome() {
    assert!(matches!(settle_details::<u8>(Channel::Beta, Ok(None)), Ok(None)));
    assert!(matches!(settle_details(Channel::Beta, Ok(Some(7u8))), Ok(Some((Channel::Beta, 7)))));
    let e = ResolveError::Upstream { channel: Channel::Beta, cause: "x".to_string() };
    assert!(matches!(settle_details::<u8>(Channel::Beta, Err(e)), Err(ResolveError::Upstream { .. })));
}

#[test]
fn settle_download_tags_channel() {
    assert!(matches!(settle_download(Channel::Alpha, Ok(42u32)), Ok(Some((Channel::Alpha, 42)))));
}
