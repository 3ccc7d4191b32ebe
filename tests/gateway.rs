use holo_auto_installer::eligibility::{HostCredentials, KycLevel};
use holo_auto_installer::hbs::{
    credentials_or_default, next_auth_step, signature_header_value, AuthAction, AuthEvent,
    AuthState,
};
use holo_auto_installer::registry::{
    get_all_published_hosted_happs, is_zero_fuel, PresentedHappBundle, PublisherJurisdictionCache,
};
use holo_auto_installer::reconcile::HostSettings;
use holo_auto_installer::unique::unique_ids;
use holo_auto_installer::clock::{micros_of, millis_of};
use holo_auto_installer::zome_call::{
    provisioned_cell, CellError, CellInfo,
    build_zome_call, call_expiry, fresh_nonce, nonce_at, zome_call_result, AppResponse, CallError,
    CellId, CALL_LIFETIME_MICROS,
};

#[test]
fn nonces_are_fresh_and_expire_in_five_minutes() {
    let (a, ea) = fresh_nonce().unwrap();
    let (b, eb) = fresh_nonce().unwrap();
    assert_ne!(a, b);
    assert!(ea >= CALL_LIFETIME_MICROS && eb >= CALL_LIFETIME_MICROS);
    assert_eq!(CALL_LIFETIME_MICROS, 5 * 60 * 1_000_000);
    assert_eq!(nonce_at([7u8; 32], 1_000), Ok(([7u8; 32], 300_001_000)));
    assert_eq!(call_expiry(0), Ok(300_000_000));
    assert_eq!(call_expiry(i64::MAX - 299_999_999), Err(CallError::ClockOverflow));
    assert_eq!(call_expiry(i64::MAX - 300_000_000), Ok(i64::MAX));
}

#[test]
fn unsigned_call_carries_cell_agent_and_payload() {
    let cell = CellId { dna_hash: vec![1, 2], agent_pubkey: vec![9, 9] };
    let call = build_zome_call(&cell, "hha".to_string(), "get_happs".to_string(), vec![0xc0]).unwrap();
    assert_eq!(call.cell_id.dna_hash, vec![1, 2]);
    assert_eq!(call.provenance, vec![9, 9]);
    assert_eq!(call.zome_name, "hha");
    assert_eq!(call.fn_name, "get_happs");
    assert_eq!(call.payload, vec![0xc0]);
    assert!(call.cap_secret.is_none());
    assert!(call.expires_at >= CALL_LIFETIME_MICROS);
}

#[test]
fn responses_map_to_results_and_errors() {
    assert_eq!(zome_call_result(AppResponse::ZomeCalled(vec![1, 2])), Ok(vec![1, 2]));
    assert_eq!(zome_call_result(AppResponse::Error("boom".to_string())), Err(CallError::RemoteError));
    assert_eq!(zome_call_result(AppResponse::Other("AppInfo".to_string())), Err(CallError::UnexpectedResponse));
}

#[test]
fn gateway_timeout_is_retried_once_then_defaults() {
    let timeout = || AuthEvent::Body("<html>error code: 504</html>".to_string());
    let (s, a) = next_auth_step(AuthState::FirstAttempt, timeout());
    assert_eq!(s, AuthState::Retried);
    assert!(matches!(a, AuthAction::Retry));
    let (s, a) = next_auth_step(s, timeout());
    assert_eq!(s, AuthState::Retried);
    assert!(matches!(a, AuthAction::UseDefault));
    let (s, a) = next_auth_step(AuthState::Retried, AuthEvent::Body("{\"kyc\":\"holo_kyc_2\"}".to_string()));
    assert_eq!(s, AuthState::Retried);
    match a {
        AuthAction::Decode(b) => assert_eq!(b, "{\"kyc\":\"holo_kyc_2\"}"),
        _ => panic!("expected a body to decode"),
    }
    let (_, a) = next_auth_step(AuthState::FirstAttempt, AuthEvent::Failed);
    assert!(matches!(a, AuthAction::UseDefault));
}

#[test]
fn missing_credentials_fall_back_to_level1() {
    let d = credentials_or_default(None);
    assert_eq!(d.kyc, KycLevel::Level1);
    assert!(d.jurisdiction.is_none());
    let c = HostCredentials { access_token: Some("t".to_string()), id: None, jurisdiction: Some("DE".to_string()), kyc: KycLevel::Level2 };
    let r = credentials_or_default(Some(c));
    assert_eq!(r.kyc, KycLevel::Level2);
    assert_eq!(r.jurisdiction, Some("DE".to_string()));
    assert_eq!(KycLevel::default(), KycLevel::Level1);
}

#[test]
fn signature_header_is_standard_base64() {
    assert_eq!(signature_header_value(&b"hello".to_vec()), "aGVsbG8=");
    assert_eq!(signature_header_value(&vec![0xff, 0xfe, 0xfd]), "//79");
    assert_eq!(signature_header_value(&vec![]), "");
}

#[test]
fn publisher_cache_remembers_answers() {
    let mut cache = PublisherJurisdictionCache::new();
    assert_eq!(cache.get("uhCAkA"), None);
    cache.insert("uhCAkA".to_string(), Some("US".to_string()));
    cache.insert("uhCAkB".to_string(), None);
    assert_eq!(cache.get("uhCAkA"), Some(Some("US".to_string())));
    assert_eq!(cache.get("uhCAkB"), Some(None));
    cache.insert("uhCAkA".to_string(), Some("DE".to_string()));
    assert_eq!(cache.get("uhCAkA"), Some(Some("DE".to_string())));
}

#[test]
fn zero_fuel_amounts() {
    assert!(is_zero_fuel("0"));
    assert!(is_zero_fuel("0.000"));
    assert!(!is_zero_fuel("0.025"));
    assert!(!is_zero_fuel(""));
    assert!(!is_zero_fuel("."));
    assert!(!is_zero_fuel("-0"));
    assert!(!is_zero_fuel("0.0.0"));
    assert!(!is_zero_fuel("0."));
    assert!(!is_zero_fuel(".0"));
    assert!(is_zero_fuel("00.00"));
}

#[test]
fn unique_keeps_first_occurrences() {
    let v: Vec<String> = ["b", "a", "b", "c", "a"].iter().map(|s| s.to_string()).collect();
    assert_eq!(unique_ids(&v), vec!["b".to_string(), "a".to_string(), "c".to_string()]);
    assert!(unique_ids(&vec![]).is_empty());
}

#[test]
fn listing_maps_to_bundles_in_order() {
    let entry = |id: &str, paused: bool| PresentedHappBundle {
        id: id.to_string(),
        provider_pubkey: "uhCAkp".to_string(),
        is_draft: false,
        is_paused: paused,
        uid: Some("seed".to_string()),
        bundle_url: format!("https://x/{}.happ", id),
        name: id.to_string(),
        categories: vec!["c".to_string()],
        jurisdictions: vec!["j".to_string()],
        exclude_jurisdictions: true,
        special_installed_app_id: None,
        host_settings: HostSettings { is_enabled: true, is_host_disabled: false, is_auto_disabled: false },
    };
    let out = get_all_published_hosted_happs(vec![entry("one", false), entry("two", true)]);
    assert_eq!(out.len(), 2);
    assert_eq!(out[0].happ_id, "one");
    assert_eq!(out[1].happ_id, "two");
    assert!(out[1].is_paused);
    assert_eq!(out[0].network_seed, Some("seed".to_string()));
    assert_eq!(out[0].bundle_url, "https://x/one.happ");
}

#[test]
fn clock_readings_convert_exactly() {
    assert_eq!(millis_of(Some((1_700_000_000, 123_456_789))), Some(1_700_000_000_123));
    assert_eq!(micros_of(Some((1_700_000_000, 123_456_789))), Some(1_700_000_000_123_456));
    assert_eq!(millis_of(Some((0, 999_999_999))), Some(999));
    assert_eq!(millis_of(None), None);
    assert_eq!(micros_of(None), None);
    assert_eq!(millis_of(Some((9_223_372_036_854_774, 999_999_999))), Some(9_223_372_036_854_774_999));
    assert_eq!(millis_of(Some((9_223_372_036_854_775, 0))), None);
    assert_eq!(micros_of(Some((9_223_372_036_854, 0))), None);
}

#[test]
fn role_cell_must_be_provisioned() {
    let cell = CellId { dna_hash: vec![1], agent_pubkey: vec![2] };
    let cells = vec![CellInfo::Provisioned(cell.clone()), CellInfo::Stem];
    let got = provisioned_cell(Some(&cells)).unwrap();
    assert_eq!((got.dna_hash, got.agent_pubkey), (vec![1], vec![2]));
    assert_eq!(provisioned_cell(None).err(), Some(CellError::RoleMissing));
    assert_eq!(provisioned_cell(Some(&vec![])).err(), Some(CellError::RoleMissing));
    let cloned = vec![CellInfo::Cloned(cell), CellInfo::Stem];
    assert_eq!(provisioned_cell(Some(&cloned)).err(), Some(CellError::NotProvisioned));
}
