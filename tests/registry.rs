use sniff::channel::Channel;
use sniff::registry::{Access, ClientRegistry, Credentials, RegistryConfig};
use sniff::resolve_error::ResolveError;

fn config() -> RegistryConfig {
    RegistryConfig {
        device_name: "px_7a".to_string(),
        stable: Some(Credentials { email: "a@example.com".to_string(), aas_token: "t1".to_string() }),
        beta: None,
        alpha: Some(Credentials { email: "b@example.com".to_string(), aas_token: "t2".to_string() }),
    }
}

#[test]
fn concurrent_callers_share_one_login() {
    let mut reg = ClientRegistry::new(config());
    assert_eq!(reg.get_client(Channel::Stable).unwrap(), Access::Login { attempt: 0 });
    assert_eq!(reg.get_client(Channel::Stable).unwrap(), Access::Wait { attempt: 0 });
    assert_eq!(reg.get_client(Channel::Stable).unwrap(), Access::Wait { attempt: 0 });
    assert_eq!(reg.in_flight(Channel::Stable), Some(0));
    assert!(reg.login_outcome(Channel::Stable, 0).is_none());
    // Another channel is not blocked by the login in flight.
    assert_eq!(reg.get_client(Channel::Alpha).unwrap(), Access::Login { attempt: 0 });
    assert!(reg.finish_login(Channel::Stable, 0, Ok(())).is_ok());
    assert!(matches!(reg.login_outcome(Channel::Stable, 0), Some(Ok(()))));
    assert_eq!(reg.get_client(Channel::Stable).unwrap(), Access::Ready);
    let client = reg.ready_client(Channel::Stable).unwrap();
    assert_eq!(client.device_name, "px_7a");
    assert_eq!(client.email, "a@example.com");
    assert_eq!(client.aas_token, "t1");
    assert_eq!(client.channel, Channel::Stable);
}

#[test]
fn waiters_see_the_same_failure_and_next_access_retries() {
    let mut reg = ClientRegistry::new(config());
    assert_eq!(reg.get_client(Channel::Alpha).unwrap(), Access::Login { attempt: 0 });
    assert_eq!(reg.get_client(Channel::Alpha).unwrap(), Access::Wait { attempt: 0 });
    let owner = reg.finish_login(Channel::Alpha, 0, Err("bad token".to_string()));
    match owner {
        Err(ResolveError::Init { channel, cause }) => {
            assert_eq!(channel, Channel::Alpha);
            assert_eq!(cause, "bad token");
        }
        other => panic!("expected Init, got {:?}", other),
    }
    match reg.login_outcome(Channel::Alpha, 0) {
        Some(Err(ResolveError::Init { channel, cause })) => {
            assert_eq!(channel, Channel::Alpha);
            assert_eq!(cause, "bad token");
        }
        other => panic!("expected the owner's failure, got {:?}", other),
    }
    assert!(reg.ready_client(Channel::Alpha).is_none());
    // Failures are not cached: the next access starts attempt 1.
    assert_eq!(reg.get_client(Channel::Alpha).unwrap(), Access::Login { attempt: 1 });
    assert!(reg.finish_login(Channel::Alpha, 1, Ok(())).is_ok());
    assert!(matches!(reg.login_outcome(Channel::Alpha, 1), Some(Ok(()))));
    // A waiter on the first attempt still reads that attempt's failure.
    assert!(matches!(reg.login_outcome(Channel::Alpha, 0), Some(Err(ResolveError::Init { .. }))));
}

#[test]
fn missing_credentials_is_an_error_only_when_accessed() {
    let mut reg = ClientRegistry::new(config());
    assert!(reg.ready_client(Channel::Beta).is_none());
    match reg.get_client(Channel::Beta) {
        Err(e @ ResolveError::MissingCredentials { channel: Channel::Beta }) => {
            assert_eq!(e.message(), "Missing credentials for beta channel");
        }
        other => panic!("expected MissingCredentials, got {:?}", other),
    }
    assert!(reg.in_flight(Channel::Beta).is_none());
}

#[test]
fn error_messages_name_channel_and_cause() {
    let e = ResolveError::Init { channel: Channel::Beta, cause: "denied".to_string() };
    assert_eq!(e.message(), "Login error for beta channel: denied");
    let e = ResolveError::Upstream { channel: Channel::Stable, cause: "reset".to_string() };
    assert_eq!(e.message(), "API error for stable channel: reset");
    let e = ResolveError::NotFound { package: "com.x".to_string() };
    assert_eq!(e.message(), "App 'com.x' not found");
}
