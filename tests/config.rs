use holo_auto_installer::config::{
    installed_id_from_name, read_only_membrane_proofs, Config, Happ, HappsFile,
    DEFAULT_ADMIN_PORT, DEFAULT_HAPP_PORT,
};

#[test]
fn verify_install_app_id_format() {
    let cfg = Happ {
        bundle_path: Some("my/path/to/elemental_chat.1.0001.happ".to_string()),
        bundle_url: None,
        ui_url: None,
        ui_path: None,
    };
    assert_eq!(cfg.id(None), Some(String::from("elemental_chat:1:0001")));
    let cfg = Happ {
        bundle_path: None,
        bundle_url: Some("https://github.com/holochain/elemental-chat/releases/download/v0.1.0-alpha1/elemental_chat.1.0001.happ".to_string()),
        ui_url: None,
        ui_path: None,
    };
    assert_eq!(cfg.id(None), Some(String::from("elemental_chat:1:0001")));
}

#[test]
fn installed_id_appends_dev_uid() {
    let cfg = Happ {
        bundle_path: Some("/bundles/core-app.0.1.happ".to_string()),
        bundle_url: None,
        ui_url: None,
        ui_path: None,
    };
    assert_eq!(cfg.id(Some("abc".to_string())), Some("core-app:0:1::abc".to_string()));
}

#[test]
fn installed_id_without_source_is_placeholder() {
    let cfg = Happ { bundle_path: None, bundle_url: None, ui_url: None, ui_path: None };
    assert_eq!(cfg.id(None), Some("unreabable".to_string()));
}

#[test]
fn installed_id_of_path_without_file_name() {
    let cfg = Happ { bundle_path: Some("/".to_string()), bundle_url: None, ui_url: None, ui_path: None };
    assert_eq!(cfg.id(None), None);
}

#[test]
fn installed_id_strips_every_extension() {
    assert_eq!(installed_id_from_name("a.happ.b.happ"), "a:b");
    assert_eq!(installed_id_from_name("plain"), "plain");
    assert_eq!(installed_id_from_name(""), "");
}

#[test]
fn config_load_applies_defaults() {
    let c = Config::load(None, None, "unix:///lair".to_string(), "/etc/happs.yaml".to_string());
    assert_eq!(c.admin_port, DEFAULT_ADMIN_PORT);
    assert_eq!(c.happ_port, DEFAULT_HAPP_PORT);
    assert_eq!(c.admin_port, 4444);
    assert_eq!(c.happ_port, 42233);
    let c = Config::load(Some(1), Some(2), "l".to_string(), "p".to_string());
    assert_eq!((c.admin_port, c.happ_port), (1, 2));
    assert_eq!(c.lair_url, "l");
    assert_eq!(c.happs_file_path, "p");
}

#[test]
fn core_app_is_first_core_named_entry() {
    let happ = |p: &str| Happ { bundle_path: Some(p.to_string()), bundle_url: None, ui_url: None, ui_path: None };
    let file = HappsFile {
        self_hosted_happs: vec![],
        core_happs: vec![happ("/b/servicelogger.0.1.happ"), happ("/b/core-app.0.2.happ"), happ("/b/core-app.0.3.happ")],
    };
    let core = file.core_app(&None).unwrap();
    assert_eq!(core.bundle_path, Some("/b/core-app.0.2.happ".to_string()));
    let none = HappsFile { self_hosted_happs: vec![], core_happs: vec![happ("/b/other.happ")] };
    assert!(none.core_app(&None).is_none());
}

#[test]
fn membrane_proofs_are_read_only_placeholders() {
    let roles = vec!["chat".to_string(), "profiles".to_string()];
    let proofs = read_only_membrane_proofs(&roles);
    assert_eq!(proofs, vec![("chat".to_string(), vec![0u8]), ("profiles".to_string(), vec![0u8])]);
    assert!(read_only_membrane_proofs(&vec![]).is_empty());
}
