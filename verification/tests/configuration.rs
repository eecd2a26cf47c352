use peer_config::sanitize::sanitize_url;
use peer_config::{
    BundlePolicy, Configuration, ICEServer, ICETransportPolicy, RTCPMuxPolicy, SdpPolicy,
};

#[test]
fn test_configuration_get_iceservers() {
    {
        let expected_server_str = "stun:stun.l.google.com:19302";
        let cfg = Configuration {
            ice_servers: vec![ICEServer {
                urls: vec![expected_server_str.to_owned()],
                ..Default::default()
            }],
            ..Default::default()
        };

        let parsed_urls = cfg.get_ice_servers();
        assert_eq!(expected_server_str, parsed_urls[0].urls[0]);
    }

    {
        // ignore the fact that stun URLs shouldn't have a query
        let server_str = "stun:global.stun.twilio.com:3478?transport=udp";
        let expected_server_str = "stun:global.stun.twilio.com:3478";
        let cfg = Configuration {
            ice_servers: vec![ICEServer {
                urls: vec![server_str.to_owned()],
                ..Default::default()
            }],
            ..Default::default()
        };

        let parsed_urls = cfg.get_ice_servers();
        assert_eq!(expected_server_str, parsed_urls[0].urls[0]);
    }
}

#[test]
fn test_configuration_json() {
    // A structured textual encoding for Configuration is future work; there
    // is nothing to encode, decode or compare here so far.
}

#[test]
fn test_empty_server_list_gives_empty_result() {
    let cfg = Configuration::default();
    assert!(cfg.get_ice_servers().is_empty());
}

#[test]
fn test_turn_url_with_query_unchanged() {
    let cfg = Configuration {
        ice_servers: vec![ICEServer {
            urls: vec!["turn:turn.example.org?x=1".to_owned()],
            ..Default::default()
        }],
        ..Default::default()
    };
    let out = cfg.get_ice_servers();
    assert_eq!(out[0].urls[0], "turn:turn.example.org?x=1");
}

#[test]
fn test_sanitizing_twice_is_fixed_point() {
    let cfg = Configuration {
        ice_servers: vec![ICEServer {
            urls: vec![
                "stun:a.example?x=1".to_owned(),
                "turn:b.example?y=2".to_owned(),
                "stun:c.example".to_owned(),
            ],
            username: "user".to_owned(),
            credential: "secret".to_owned(),
        }],
        ..Default::default()
    };
    let once = cfg.get_ice_servers();
    let again = Configuration {
        ice_servers: once.clone(),
        ..Default::default()
    };
    let twice = again.get_ice_servers();
    assert_eq!(once, twice);
}

#[test]
fn test_get_ice_servers_leaves_stored_list_unchanged() {
    let cfg = Configuration {
        ice_servers: vec![ICEServer {
            urls: vec![
                "stun:example.org?transport=udp".to_owned(),
                "turn:example.org?b=2".to_owned(),
            ],
            username: "user".to_owned(),
            credential: "secret".to_owned(),
        }],
        ..Default::default()
    };
    let before = cfg.ice_servers.clone();
    let sanitized = cfg.get_ice_servers();
    assert_eq!(before, cfg.ice_servers);
    // the returned copy is really sanitized, so it differs from the stored list
    assert_ne!(sanitized, cfg.ice_servers);
}

#[test]
fn test_sanitized_copy_keeps_credentials_and_order() {
    let cfg = Configuration {
        ice_servers: vec![
            ICEServer {
                urls: vec!["stun:first.example?q=1".to_owned()],
                username: "alice".to_owned(),
                credential: "a-secret".to_owned(),
            },
            ICEServer {
                urls: vec!["turn:second.example".to_owned()],
                username: "bob".to_owned(),
                credential: "b-secret".to_owned(),
            },
        ],
        ..Default::default()
    };
    let out = cfg.get_ice_servers();
    assert_eq!(out.len(), 2);
    assert_eq!(out[0].urls, vec!["stun:first.example".to_owned()]);
    assert_eq!(out[0].username, "alice");
    assert_eq!(out[0].credential, "a-secret");
    assert_eq!(out[1].urls, vec!["turn:second.example".to_owned()]);
    assert_eq!(out[1].username, "bob");
    assert_eq!(out[1].credential, "b-secret");
}

#[test]
fn test_default_configuration_values() {
    let cfg = Configuration::default();
    assert_eq!(cfg.ice_candidate_pool_size, 0);
    assert!(cfg.ice_servers.is_empty());
    assert!(cfg.certificates.is_empty());
    assert_eq!(cfg.peer_identity, "");
    assert_eq!(cfg.ice_transport_policy, ICETransportPolicy::All);
    assert_eq!(cfg.bundle_policy, BundlePolicy::Balanced);
    assert_eq!(cfg.rtcp_mux_policy, RTCPMuxPolicy::Negotiate);
    assert_eq!(cfg.sdp_policy, SdpPolicy::UnifiedPlan);
}

#[test]
fn test_sanitize_url_exact_values() {
    assert_eq!(
        sanitize_url("stun:global.stun.twilio.com:3478?transport=udp"),
        "stun:global.stun.twilio.com:3478"
    );
    assert_eq!(
        sanitize_url("stun:stun.l.google.com:19302"),
        "stun:stun.l.google.com:19302"
    );
    assert_eq!(sanitize_url("turn:turn.example.org?x=1"), "turn:turn.example.org?x=1");
    assert_eq!(sanitize_url("turns:turn.example.org"), "turns:turn.example.org");
    assert_eq!(sanitize_url("stuns:host.example?q"), "stuns:host.example");
    // only the part before the first of several `?` survives
    assert_eq!(sanitize_url("stun:host.example?a=1?b=2"), "stun:host.example");
    // a bare `stun` with no colon is still prefix-matched and split
    assert_eq!(sanitize_url("stun?a?b"), "stun");
    assert_eq!(sanitize_url("stun"), "stun");
    // too short for the prefix: passed through, query and all
    assert_eq!(sanitize_url("stu?x"), "stu?x");
    assert_eq!(sanitize_url(""), "");
}
