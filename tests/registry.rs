use world_registry::certificate::{validity_period, validity_period_at, DAY_SECONDS};
use world_registry::document::build_document;
use world_registry::identity::{
    bootstrap, did_for_address, Bootstrap, IdentityError, IdentityRecord, StoredIdentity,
};
use world_registry::registrar::{
    next_step, protocol_version, register_once, MemoryStore, Registrar, RegistrarAction,
    RegistrarEvent, RegistrarState, StoreError,
};
use world_registry::schema::{definition_from_members, json_to_definition, SchemaError};

const SCHEMA: &str = r#"{
  "protocol": "https://example.org/world-registry",
  "structure": { "world": { "$actions": [] } },
  "types": { "world": { "dataFormats": ["application/json"] } }
}"#;

fn file_after(stored: StoredIdentity<String>, b: &Bootstrap<String>) -> StoredIdentity<String> {
    if b.save {
        StoredIdentity::Present(IdentityRecord {
            did: b.agent.record.did.clone(),
            vc_key: b.agent.record.vc_key.clone(),
        })
    } else if b.delete_stale {
        StoredIdentity::Absent
    } else {
        stored
    }
}

fn public_part(key: &String) -> String {
    format!("public({})", key)
}

#[test]
fn did_is_bound_to_address() {
    assert_eq!(did_for_address("example.org"), "did:web:example.org");
    assert_eq!(did_for_address(""), "did:web:");
}

#[test]
fn fresh_start_creates_identity() {
    let b = bootstrap("example.org", StoredIdentity::Absent, "key-a".to_string()).ok().unwrap();
    assert_eq!(b.agent.record.did, "did:web:example.org");
    assert_eq!(b.agent.record.vc_key, "key-a");
    assert!(b.save);
    assert!(!b.delete_stale);
    assert_eq!(b.agent.attestation(), b.agent.authorization());
}

#[test]
fn corrupt_file_is_an_error() {
    let r = bootstrap("example.org", StoredIdentity::<String>::Corrupt, "key-a".to_string());
    assert!(matches!(r, Err(IdentityError::Corrupt)));
}

#[test]
fn restart_with_same_address_keeps_identity() {
    let first = bootstrap("example.org", StoredIdentity::Absent, "key-a".to_string()).ok().unwrap();
    let stored = file_after(StoredIdentity::Absent, &first);
    let second = bootstrap("example.org", stored, "key-b".to_string()).ok().unwrap();
    assert_eq!(second.agent.did(), "did:web:example.org");
    assert_eq!(second.agent.record.vc_key, "key-a");
    assert!(!second.save);
    assert!(!second.delete_stale);
}

#[test]
fn restart_with_new_address_regenerates() {
    let first = bootstrap("a.example", StoredIdentity::Absent, "key-a".to_string()).ok().unwrap();
    let stored = file_after(StoredIdentity::Absent, &first);
    let second = bootstrap("b.example", stored, "key-b".to_string()).ok().unwrap();
    assert_eq!(second.agent.record.did, "did:web:b.example");
    assert_eq!(second.agent.record.vc_key, "key-b");
    assert!(second.delete_stale);
    assert!(second.save);
}

#[test]
fn document_has_one_key_for_both_roles() {
    let b = bootstrap("example.org", StoredIdentity::Absent, "secret".to_string()).ok().unwrap();
    let d = build_document(&b.agent, public_part);
    assert_eq!(d.id, "did:web:example.org");
    assert_eq!(d.verification_method.len(), 1);
    let m = &d.verification_method[0];
    assert_eq!(m.id, "did:web:example.org#key-0");
    assert_eq!(m.controller, "did:web:example.org");
    assert_eq!(m.type_, "JsonWebKey2020");
    assert_eq!(m.public_key_jwk, "public(secret)");
    assert_eq!(d.assertion_method, vec!["key-0".to_string()]);
    assert_eq!(d.authentication, vec!["key-0".to_string()]);
}

#[test]
fn document_is_deterministic() {
    let b = bootstrap("example.org", StoredIdentity::Absent, "secret".to_string()).ok().unwrap();
    let d1 = build_document(&b.agent, public_part);
    let d2 = build_document(&b.agent, public_part);
    assert_eq!(d1.id, d2.id);
    assert_eq!(d1.verification_method[0].id, d2.verification_method[0].id);
    assert_eq!(d1.verification_method[0].public_key_jwk, d2.verification_method[0].public_key_jwk);
    assert_eq!(d1.assertion_method, d2.assertion_method);
    assert_eq!(d1.authentication, d2.authentication);
}

#[test]
fn schema_is_read_with_serde_json() {
    let d = json_to_definition(SCHEMA).ok().unwrap();
    assert_eq!(d.protocol, "https://example.org/world-registry");
    assert!(d.published);
    assert_eq!(d.structure.len(), 1);
    assert_eq!(d.structure[0].0, "world");
    assert_eq!(d.structure[0].1, r#"{"$actions":[]}"#);
    assert_eq!(d.types[0].0, "world");
}

#[test]
fn schema_errors() {
    assert!(matches!(json_to_definition("not json"), Err(SchemaError::MissingProtocol)));
    assert!(matches!(json_to_definition(r#"{"protocol": 3}"#), Err(SchemaError::MissingProtocol)));
    assert!(matches!(
        json_to_definition(r#"{"protocol": "p", "types": {}}"#),
        Err(SchemaError::MissingStructure)
    ));
    assert!(matches!(
        json_to_definition(r#"{"protocol": "p", "structure": {}}"#),
        Err(SchemaError::MissingTypes)
    ));
    assert!(matches!(
        definition_from_members(Some("p".to_string()), Some(vec![]), None),
        Err(SchemaError::MissingTypes)
    ));
}

#[test]
fn version_is_fixed() {
    assert_eq!(protocol_version(), "0.0.1");
    let r = Registrar::from_schema(SCHEMA).ok().unwrap();
    assert_eq!(r.version, "0.0.1");
    let f = r.filter();
    assert_eq!(f.protocol, "https://example.org/world-registry");
    assert_eq!(f.versions, vec!["0.0.1".to_string()]);
}

#[test]
fn state_machine_transitions() {
    assert_eq!(
        next_step(RegistrarState::NotChecked, RegistrarEvent::Started),
        (RegistrarState::Checking, RegistrarAction::Query)
    );
    assert_eq!(
        next_step(RegistrarState::Checking, RegistrarEvent::QueryAnswered(2)),
        (RegistrarState::AlreadyPresent, RegistrarAction::Finish)
    );
    assert_eq!(
        next_step(RegistrarState::Checking, RegistrarEvent::QueryAnswered(0)),
        (RegistrarState::Registering, RegistrarAction::Register)
    );
    assert_eq!(
        next_step(RegistrarState::Checking, RegistrarEvent::QueryFailed),
        (RegistrarState::Failed, RegistrarAction::Abort(StoreError::Query))
    );
    assert_eq!(
        next_step(RegistrarState::Registering, RegistrarEvent::WriteFailed),
        (RegistrarState::Failed, RegistrarAction::Abort(StoreError::Write))
    );
    assert_eq!(
        next_step(RegistrarState::Registering, RegistrarEvent::WriteAccepted),
        (RegistrarState::Registered, RegistrarAction::Finish)
    );
    assert_eq!(
        next_step(RegistrarState::Registered, RegistrarEvent::Started),
        (RegistrarState::Registered, RegistrarAction::Ignore)
    );
}

#[test]
fn registering_twice_stores_one_definition() {
    let mut store = MemoryStore::new();
    let mut first = Registrar::from_schema(SCHEMA).ok().unwrap();
    assert_eq!(register_once(&mut store, &mut first), 1);
    assert_eq!(first.state, RegistrarState::Registered);
    let mut second = Registrar::from_schema(SCHEMA).ok().unwrap();
    assert_eq!(register_once(&mut store, &mut second), 0);
    assert_eq!(second.state, RegistrarState::AlreadyPresent);
    let protocol = "https://example.org/world-registry".to_string();
    assert_eq!(store.query(&protocol, &"0.0.1".to_string()), 1);
    assert_eq!(store.entries.len(), 1);
}

#[test]
fn present_definition_means_no_write() {
    let mut store = MemoryStore::new();
    store.insert("https://example.org/world-registry".to_string(), "0.0.1".to_string());
    store.insert("other".to_string(), "0.0.1".to_string());
    let mut task = Registrar::from_schema(SCHEMA).ok().unwrap();
    assert_eq!(register_once(&mut store, &mut task), 0);
    assert_eq!(store.entries.len(), 2);
}

#[test]
fn other_version_does_not_count() {
    let mut store = MemoryStore::new();
    store.insert("https://example.org/world-registry".to_string(), "0.0.2".to_string());
    let mut task = Registrar::from_schema(SCHEMA).ok().unwrap();
    assert_eq!(register_once(&mut store, &mut task), 1);
    assert_eq!(store.entries.len(), 2);
}

#[test]
fn example_org_scenario() {
    let mut store = MemoryStore::new();
    let first = bootstrap("example.org", StoredIdentity::Absent, "jwk".to_string()).ok().unwrap();
    assert_eq!(first.agent.record.did, "did:web:example.org");
    assert!(first.save);
    let mut task = Registrar::from_schema(SCHEMA).ok().unwrap();
    assert_eq!(register_once(&mut store, &mut task), 1);
    assert_eq!(store.entries.len(), 1);

    let stored = file_after(StoredIdentity::Absent, &first);
    let second = bootstrap("example.org", stored, "other".to_string()).ok().unwrap();
    assert!(!second.save);
    assert!(!second.delete_stale);
    assert_eq!(second.agent.record.vc_key, "jwk");
    let mut task = Registrar::from_schema(SCHEMA).ok().unwrap();
    assert_eq!(register_once(&mut store, &mut task), 0);
    assert_eq!(store.entries.len(), 1);
    let d = build_document(&second.agent, public_part);
    assert_eq!(d.verification_method[0].id, "did:web:example.org#key-0");
}

#[test]
fn validity_window_is_two_days() {
    assert_eq!(validity_period_at(0), Some((-86400, 86400)));
    assert_eq!(validity_period_at(i64::MAX), None);
    assert_eq!(validity_period_at(i64::MIN), None);
    let (from, to) = validity_period().unwrap();
    assert_eq!(to - from, 2 * DAY_SECONDS);
    assert!(from > 0);
}
