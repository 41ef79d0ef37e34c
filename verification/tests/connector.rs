use reqwest::connector::{HttpsConnector, MaybeHttpsStream, TransportStep};
use reqwest::error::ConnectError;
use reqwest::target::Target;

fn target_for(scheme: Option<&str>, host: Option<&str>, path: &str) -> Target {
    Target::new(
        scheme.map(|s| s.to_owned()),
        host.map(|h| h.to_owned()),
        None,
        path.to_owned(),
        None,
    )
}

#[test]
fn test_non_https_url() {
    let connector = HttpsConnector::new();
    let url = target_for(None, None, "/foo/bar?baz");

    assert_eq!(connector.plan(&url).unwrap_err(), ConnectError::InvalidTarget);
}

#[test]
fn plain_target_completes_without_tls() {
    let connector = HttpsConnector::new();
    let url = target_for(Some("http"), Some("x.y"), "/z");

    let plan = connector.plan(&url).unwrap();
    assert_eq!(plan.host, "x.y");
    assert!(!plan.secure);

    // Stand-in transport value: the connector never looks inside it.
    let step: TransportStep<u32, u8> = connector.after_transport(&plan, Ok(7u32)).unwrap();
    match step {
        TransportStep::Established(MaybeHttpsStream::Http(raw)) => assert_eq!(raw, 7),
        other => panic!("expected a plain established stream, got: {:?}", other),
    }
}

#[test]
fn https_target_is_wrapped_after_handshake() {
    let connector = HttpsConnector::new();
    let url = target_for(Some("https"), Some("x.y"), "/z");

    let plan = connector.plan(&url).unwrap();
    assert_eq!(plan.host, "x.y");
    assert!(plan.secure);

    let step: TransportStep<u32, u8> = connector.after_transport(&plan, Ok(7u32)).unwrap();
    match step {
        TransportStep::NeedsTls { host, transport } => {
            assert_eq!(host, "x.y");
            assert_eq!(transport, 7);
        }
        other => panic!("expected a pending handshake, got: {:?}", other),
    }

    let stream: MaybeHttpsStream<u32, u8> = connector.after_handshake(Ok(9u8)).unwrap();
    match stream {
        MaybeHttpsStream::Https(secured) => assert_eq!(secured, 9),
        other => panic!("expected a secured stream, got: {:?}", other),
    }
}

#[test]
fn unknown_scheme_falls_through_to_plain() {
    let connector = HttpsConnector::new();

    for scheme in [Some("ftp"), Some("HTTPS"), None] {
        let url = target_for(scheme, Some("x.y"), "/z");
        let plan = connector.plan(&url).unwrap();
        assert!(!plan.secure, "scheme {:?} must fall through to plain", scheme);
    }
}

#[test]
fn transport_failure_is_wrapped_verbatim() {
    let connector = HttpsConnector::new();
    let url = target_for(Some("http"), Some("x.y"), "/z");
    let plan = connector.plan(&url).unwrap();

    let step: Result<TransportStep<u32, u8>, _> =
        connector.after_transport(&plan, Err("connection refused".to_owned()));
    assert_eq!(
        step.unwrap_err(),
        ConnectError::Transport("connection refused".to_owned())
    );
}

#[test]
fn both_tls_failure_points_map_to_one_kind() {
    let connector = HttpsConnector::new();

    // The caller funnels a context-construction failure and a handshake
    // failure into the same outcome channel; both come back as `Tls`.
    let context_failure: Result<MaybeHttpsStream<u32, u8>, _> =
        connector.after_handshake(Err("context: no ciphers".to_owned()));
    assert_eq!(
        context_failure.unwrap_err(),
        ConnectError::Tls("context: no ciphers".to_owned())
    );

    let handshake_failure: Result<MaybeHttpsStream<u32, u8>, _> =
        connector.after_handshake(Err("handshake: bad certificate".to_owned()));
    assert_eq!(
        handshake_failure.unwrap_err(),
        ConnectError::Tls("handshake: bad certificate".to_owned())
    );
}

#[test]
fn stream_tag_reports_the_variant() {
    let plain: MaybeHttpsStream<u32, u8> = MaybeHttpsStream::Http(7);
    let secured: MaybeHttpsStream<u32, u8> = MaybeHttpsStream::Https(9);

    assert!(!plain.is_https());
    assert!(secured.is_https());
}

#[test]
fn target_components_are_readable() {
    let url = Target::new(
        Some("https".to_owned()),
        Some("x.y".to_owned()),
        Some(8443),
        "/z".to_owned(),
        Some("q=1".to_owned()),
    );

    assert_eq!(url.scheme().as_deref(), Some("https"));
    assert_eq!(url.host().as_deref(), Some("x.y"));
    assert_eq!(url.port(), Some(8443));
    assert_eq!(url.path(), "/z");
    assert_eq!(url.query().as_deref(), Some("q=1"));
}
