use wire::{Error, NetworkError, Req, Res, SessionError, Target, Targets, TimestampedEvent};

#[derive(Debug, Clone, PartialEq, Eq)]
enum Action {
    Ping,
}

#[test]
fn failed_request_error_echoes_origin_and_correlation_id() {
    let corrid: u128 = 0xfeed_beef;
    let req = Req::new(Target::Anon(7), Action::Ping, corrid);
    let err = Error::new(req.from, NetworkError::InvalidMessage, req.corrid);
    assert_eq!(
        err,
        Error { to: Target::Anon(7), error: NetworkError::InvalidMessage, corrid }
    );
    assert_eq!(err.to, req.from);
    assert_eq!(err.corrid, req.corrid);
}

#[test]
fn request_fields_and_equality() {
    let req = Req::new(Target::Anon(1), Action::Ping, 5);
    assert_eq!(req.from, Target::Anon(1));
    assert_eq!(req.action, Action::Ping);
    assert_eq!(req.corrid, 5);
    assert_eq!(req, req.clone());
    assert_ne!(req, Req::new(Target::Anon(1), Action::Ping, 6));
    assert_ne!(req, Req::new(Target::Anon(2), Action::Ping, 5));
}

#[test]
fn response_equality_ignores_timestamp() {
    let a = Res::new(Targets::All, 3u8);
    let mut b = Res::new(Targets::All, 3u8);
    b.event.timestamp = a.event.timestamp + 1000;
    assert_eq!(a, b);
    assert_ne!(a, Res::new(Targets::Few(vec![]), 3u8));
    assert_ne!(a, Res::new(Targets::All, 4u8));
    assert!(a.event.timestamp > 1_600_000_000_000);
}

#[test]
fn timestamped_event_default_and_new() {
    let e: TimestampedEvent<u32> = TimestampedEvent::default();
    assert_eq!(e.event, 0);
    assert!(e.timestamp > 1_600_000_000_000);
    assert_eq!(TimestampedEvent::new(9u32), TimestampedEvent { timestamp: 0, event: 9u32 });
}

#[test]
fn error_equality_is_field_wise() {
    let e = Error::new(Target::Anon(1), SessionError::NoSuchSession, 1);
    assert_eq!(e, e.clone());
    assert_ne!(e, Error::new(Target::Anon(1), SessionError::Unauthenticated, 1));
    assert_ne!(e, Error::new(Target::Anon(1), SessionError::NoSuchSession, 2));
    assert_ne!(e, Error::new(Target::Anon(2), SessionError::NoSuchSession, 1));
}

#[test]
fn error_messages() {
    assert_eq!(
        SessionError::MaximumSessionsReached.message(),
        "The maximum number of sessions reached."
    );
    assert_eq!(SessionError::NoSuchSession.message(), "The session does not exist.");
    assert_eq!(SessionError::Unauthenticated.message(), "The user is not authenticated.");
    assert_eq!(NetworkError::RateLimited.message(), "The user has been rate-limited.");
    assert_eq!(NetworkError::InvalidMessage.message(), "Invalid message received.");
    assert_eq!(NetworkError::SocketError("reset".to_string()).message(), "Socket error.");
}
