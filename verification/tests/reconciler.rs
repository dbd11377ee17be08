use zonefile::domain::DomainName;
use zonefile::engine::{ApiRequest, Phase, Reconciler, ZoneFileState, ZoneRef, ZoneState};
use zonefile::linker::{backref_value, link_needed};
use zonefile::render::Record;
use zonefile::{ERROR_REQUEUE_SECONDS, RECONCILE_REQUEUE_SECONDS};

fn zonefile_state(refs: Vec<ZoneRef>) -> ZoneFileState {
    ZoneFileState {
        name: "zf".to_string(),
        namespace: "default".to_string(),
        zone_refs: refs,
        config_map_name: None,
    }
}

fn ready_zone(fqdn: &str, label: Option<&str>) -> ZoneState {
    ZoneState {
        fqdn: Some(DomainName::parse(fqdn).unwrap()),
        entries: vec![Record {
            fqdn: DomainName::parse(fqdn).unwrap(),
            record_type: "A".to_string(),
            class: "IN".to_string(),
            ttl: 300,
            rdata: "192.0.2.1".to_string(),
        }],
        hash: Some("hash-1".to_string()),
        serial: Some(2024010101),
        backref_label: label.map(|l| l.to_string()),
    }
}

#[test]
fn backref_value_joins_name_and_namespace() {
    assert_eq!(backref_value("zf", "default"), "zf.default");
}

#[test]
fn second_link_with_same_value_issues_no_write() {
    let desired = backref_value("zf", "default");

    // A zone without the label: the first invocation writes.
    let mut label: Option<String> = None;
    let mut writes = 0;
    if link_needed(label.as_ref(), &desired) {
        label = Some(desired.clone());
        writes += 1;
    }
    // Same desired value again: no second write.
    if link_needed(label.as_ref(), &desired) {
        label = Some(desired.clone());
        writes += 1;
    }
    assert_eq!(writes, 1);
    assert_eq!(label.as_deref(), Some("zf.default"));
}

#[test]
fn link_needed_when_label_points_elsewhere() {
    let desired = backref_value("zf", "default");
    let other = "other-zonefile.other-ns".to_string();
    assert!(link_needed(Some(&other), &desired));
    assert!(!link_needed(Some(&desired.clone()), &desired));
}

#[test]
fn pass_with_ready_and_unready_zone_publishes_only_ready() {
    // Two referenced zones: one ready, one missing its serial. The artifact
    // and the status maps carry exactly the ready zone's origin.
    let zf = zonefile_state(vec![
        ZoneRef { name: "zone-a".to_string(), namespace: None },
        ZoneRef { name: "zone-b".to_string(), namespace: Some("dns".to_string()) },
    ]);
    let mut engine = Reconciler::new(zf);

    match engine.current_action() {
        ApiRequest::FetchZone { namespace, name } => {
            assert_eq!(namespace, "default");
            assert_eq!(name, "zone-a");
        }
        other => panic!("expected a fetch, got {:?}", other),
    }
    // zone-a carries no back-reference label yet: it must be stamped first.
    engine.on_zone_fetched(ready_zone("a.example.org.", None));
    match engine.current_action() {
        ApiRequest::WriteBackref { namespace, zone_name, label_value } => {
            assert_eq!(namespace, "default");
            assert_eq!(zone_name, "zone-a");
            assert_eq!(label_value, "zf.default");
        }
        other => panic!("expected a back-reference write, got {:?}", other),
    }
    engine.on_backref_written();

    match engine.current_action() {
        ApiRequest::FetchZone { namespace, name } => {
            assert_eq!(namespace, "dns");
            assert_eq!(name, "zone-b");
        }
        other => panic!("expected a fetch, got {:?}", other),
    }
    // zone-b is already stamped but has no serial yet: soft skip, no error.
    let mut unready = ready_zone("b.example.org.", Some("zf.default"));
    unready.serial = None;
    engine.on_zone_fetched(unready);

    match engine.current_action() {
        ApiRequest::PublishArtifact { namespace, name, data } => {
            assert_eq!(namespace, "default");
            assert_eq!(name, "zf");
            assert_eq!(data.len(), 1);
            assert_eq!(data[0].0, "a.example.org.");
            assert!(data[0].1.starts_with("$ORIGIN a.example.org.\n\n"));
        }
        other => panic!("expected the artifact publish, got {:?}", other),
    }
    engine.on_artifact_published();

    match engine.current_action() {
        ApiRequest::PublishStatus { namespace, name, hashes, serials } => {
            assert_eq!(namespace, "default");
            assert_eq!(name, "zf");
            assert_eq!(hashes, vec![("a.example.org.".to_string(), "hash-1".to_string())]);
            assert_eq!(serials, vec![("a.example.org.".to_string(), 2024010101)]);
        }
        other => panic!("expected the status publish, got {:?}", other),
    }
    engine.on_status_published();

    match engine.current_action() {
        ApiRequest::Requeue { seconds } => assert_eq!(seconds, RECONCILE_REQUEUE_SECONDS),
        other => panic!("expected a requeue, got {:?}", other),
    }
}

#[test]
fn origin_ready_last_pass_but_unready_now_is_dropped() {
    // First pass: the zone is ready and its origin is published.
    let zone_refs = || vec![ZoneRef { name: "zone-a".to_string(), namespace: None }];
    let mut first = Reconciler::new(zonefile_state(zone_refs()));
    first.on_zone_fetched(ready_zone("a.example.org.", Some("zf.default")));
    match first.current_action() {
        ApiRequest::PublishArtifact { data, .. } => {
            assert_eq!(data.len(), 1);
            assert_eq!(data[0].0, "a.example.org.");
        }
        other => panic!("expected the artifact publish, got {:?}", other),
    }

    // Next pass: the same zone lost its hash. The maps are rebuilt from this
    // pass alone, so the origin is gone from artifact and status.
    let mut second = Reconciler::new(zonefile_state(zone_refs()));
    let mut regressed = ready_zone("a.example.org.", Some("zf.default"));
    regressed.hash = None;
    second.on_zone_fetched(regressed);
    match second.current_action() {
        ApiRequest::PublishArtifact { data, .. } => assert!(data.is_empty()),
        other => panic!("expected the artifact publish, got {:?}", other),
    }
    second.on_artifact_published();
    match second.current_action() {
        ApiRequest::PublishStatus { hashes, serials, .. } => {
            assert!(hashes.is_empty());
            assert!(serials.is_empty());
        }
        other => panic!("expected the status publish, got {:?}", other),
    }
}

#[test]
fn zone_missing_any_readiness_field_is_skipped() {
    for strip in 0..3 {
        let zf = zonefile_state(vec![ZoneRef { name: "zone-a".to_string(), namespace: None }]);
        let mut engine = Reconciler::new(zf);
        let mut zone = ready_zone("a.example.org.", Some("zf.default"));
        match strip {
            0 => zone.fqdn = None,
            1 => zone.hash = None,
            _ => zone.serial = None,
        }
        engine.on_zone_fetched(zone);
        // The pass carries on to publishing — no error — with nothing rendered.
        match engine.current_action() {
            ApiRequest::PublishArtifact { data, .. } => assert!(data.is_empty()),
            other => panic!("expected the artifact publish, got {:?}", other),
        }
    }
}

#[test]
fn stamped_zone_is_not_stamped_again() {
    let zf = zonefile_state(vec![ZoneRef { name: "zone-a".to_string(), namespace: None }]);
    let mut engine = Reconciler::new(zf);
    // The label already holds "zf.default": no write request appears.
    engine.on_zone_fetched(ready_zone("a.example.org.", Some("zf.default")));
    assert_eq!(engine.phase, Phase::PublishingArtifact);
}

#[test]
fn api_error_aborts_pass_with_retry_delay() {
    let zf = zonefile_state(vec![ZoneRef { name: "zone-a".to_string(), namespace: None }]);
    let mut engine = Reconciler::new(zf);
    // The fetch failed: the pass aborts; nothing is published, and the next
    // attempt is scheduled after the error delay.
    engine.on_api_error();
    match engine.current_action() {
        ApiRequest::Requeue { seconds } => assert_eq!(seconds, ERROR_REQUEUE_SECONDS),
        other => panic!("expected a requeue, got {:?}", other),
    }
}

#[test]
fn no_references_publishes_empty_artifact() {
    let mut engine = Reconciler::new(zonefile_state(vec![]));
    match engine.current_action() {
        ApiRequest::PublishArtifact { data, .. } => assert!(data.is_empty()),
        other => panic!("expected the artifact publish, got {:?}", other),
    }
    engine.on_artifact_published();
    engine.on_status_published();
    match engine.current_action() {
        ApiRequest::Requeue { seconds } => assert_eq!(seconds, 300),
        other => panic!("expected a requeue, got {:?}", other),
    }
}

#[test]
fn configured_artifact_name_overrides_zonefile_name() {
    let mut zf = zonefile_state(vec![]);
    zf.config_map_name = Some("custom-map".to_string());
    let engine = Reconciler::new(zf);
    match engine.current_action() {
        ApiRequest::PublishArtifact { name, .. } => assert_eq!(name, "custom-map"),
        other => panic!("expected the artifact publish, got {:?}", other),
    }
}

#[test]
fn later_reference_with_same_origin_wins() {
    // Two references resolving to zones that share one origin: both renderings
    // are published in order, so a map built from them keeps the later one.
    let zf = zonefile_state(vec![
        ZoneRef { name: "zone-a".to_string(), namespace: None },
        ZoneRef { name: "zone-b".to_string(), namespace: None },
    ]);
    let mut engine = Reconciler::new(zf);
    let mut first = ready_zone("a.example.org.", Some("zf.default"));
    first.hash = Some("hash-first".to_string());
    engine.on_zone_fetched(first);
    let mut second = ready_zone("a.example.org.", Some("zf.default"));
    second.hash = Some("hash-second".to_string());
    engine.on_zone_fetched(second);
    engine.on_artifact_published();
    match engine.current_action() {
        ApiRequest::PublishStatus { hashes, .. } => {
            assert_eq!(hashes.len(), 2);
            assert_eq!(hashes[0], ("a.example.org.".to_string(), "hash-first".to_string()));
            assert_eq!(hashes[1], ("a.example.org.".to_string(), "hash-second".to_string()));
            let merged: std::collections::BTreeMap<String, String> = hashes.into_iter().collect();
            assert_eq!(merged["a.example.org."], "hash-second");
        }
        other => panic!("expected the status publish, got {:?}", other),
    }
}
