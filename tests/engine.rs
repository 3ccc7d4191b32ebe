use holo_auto_installer::eligibility::{
    should_be_enabled, ExclusivePreferences, HappPreferences, HostCredentials, KycLevel,
    PublishedHappDetails,
};
use holo_auto_installer::reconcile::{
    handle_ineligible_happs, install_holo_hosted_happs, plan_reconciliation, validate_published,
    EligibilityContext,
    HappBundle, HostSettings, InstanceAction, PublishedHapp,
};
use holo_auto_installer::registry::published_happ;
use holo_auto_installer::registry::ServiceloggerHappPreferences;
use holo_auto_installer::transaction::{
    get_suspended_happs, InvoiceNote, InvoicedItems, PendingTransaction, Transaction,
    TransactionDirection, TransactionStatus, TransactionType, POS,
};

fn id53(tag: char) -> String {
    let mut s = "uhCkk".to_string();
    while s.len() < 53 {
        s.push(tag);
    }
    s
}

fn host_prefs(jurisdiction: Option<ExclusivePreferences>, categories: Option<ExclusivePreferences>) -> HappPreferences {
    HappPreferences {
        max_fuel_before_invoice: "1000".to_string(),
        max_time_before_invoice_secs: 0,
        price_compute: "0.025".to_string(),
        price_storage: "0.025".to_string(),
        price_bandwidth: "0.025".to_string(),
        invoice_due_in_days: 7,
        jurisdiction_prefs: jurisdiction,
        categories_prefs: categories,
    }
}

fn creds(kyc: KycLevel, jurisdiction: Option<&str>) -> HostCredentials {
    HostCredentials { access_token: None, id: None, jurisdiction: jurisdiction.map(|j| j.to_string()), kyc }
}

fn prefs(list: &[&str], is_exclusion: bool) -> ExclusivePreferences {
    ExclusivePreferences { value: list.iter().map(|s| s.to_string()).collect(), is_exclusion }
}

fn pricing(price: &str) -> ServiceloggerHappPreferences {
    ServiceloggerHappPreferences {
        provider_pubkey: "uhCAkpublisher".to_string(),
        max_fuel_before_invoice: "1000".to_string(),
        price_compute: price.to_string(),
        price_storage: price.to_string(),
        price_bandwidth: price.to_string(),
        max_time_before_invoice_secs: 0,
        invoice_due_in_days: 7,
    }
}

fn bundle(id: &str) -> HappBundle {
    HappBundle {
        happ_id: id.to_string(),
        bundle_url: format!("https://example.org/{}.happ", id),
        is_paused: false,
        special_installed_app_id: None,
        jurisdictions: vec![],
        exclude_jurisdictions: true,
        categories: vec![],
        host_settings: HostSettings { is_enabled: false, is_host_disabled: false, is_auto_disabled: false },
        provider_pubkey: "uhCAkpublisher".to_string(),
        network_seed: None,
    }
}

fn app(id: &str, price: &str, publisher_jurisdiction: Option<&str>) -> PublishedHapp {
    published_happ(bundle(id), publisher_jurisdiction.map(|j| j.to_string()), &pricing(price))
}

fn ctx(suspended: Vec<String>, credentials: HostCredentials, preferences: HappPreferences) -> EligibilityContext {
    EligibilityContext { suspended_happs: suspended, host_credentials: credentials, host_happ_preferences: preferences }
}

fn details(free: bool) -> PublishedHappDetails {
    PublishedHappDetails {
        publisher_jurisdiction: Some("DE".to_string()),
        happ_jurisdictions: vec![],
        should_exclude_happ_jurisdictions: true,
        happ_categories: vec!["games".to_string()],
        is_disabled_by_host: false,
        is_free: free,
    }
}

/// Applies a plan as the conductor and the registry would: removed ids go,
/// installs add the application and its companion, and hosting is switched
/// on for them.
fn apply(published: &Vec<PublishedHapp>, enabled: &Vec<String>, c: &EligibilityContext) -> (Vec<PublishedHapp>, Vec<String>) {
    assert!(validate_published(published));
    let plan = plan_reconciliation(published, enabled, c);
    let mut next: Vec<String> = plan
        .ineligible
        .enabled_happ_ids
        .iter()
        .zip(plan.ineligible.actions.iter())
        .filter(|(_, a)| **a == InstanceAction::Keep)
        .map(|(id, _)| id.clone())
        .collect();
    let mut after = published.clone();
    for i in plan.installs {
        let id = published[i].bundle.happ_id.clone();
        next.push(format!("{}::servicelogger", id));
        if published[i].bundle.special_installed_app_id.is_none() {
            next.push(id);
        }
        after[i].bundle.host_settings.is_enabled = true;
    }
    for id in plan.ineligible.holo_disable {
        for p in after.iter_mut() {
            if p.bundle.happ_id == id {
                p.bundle.host_settings.is_enabled = false;
            }
        }
    }
    (after, next)
}

#[test]
fn suspended_happ_is_never_enabled() {
    let id = id53('s');
    let c = creds(KycLevel::Level2, Some("DE"));
    let p = host_prefs(None, None);
    assert!(should_be_enabled(&id, &vec![], &c, &p, &details(true)));
    assert!(!should_be_enabled(&id, &vec![id.clone()], &c, &p, &details(true)));
    assert!(!should_be_enabled(&id, &vec!["other".to_string(), id.clone()], &c, &p, &details(false)));
}

#[test]
fn jurisdiction_lists_both_branches() {
    let list = vec!["US".to_string(), "DE".to_string()];
    let de = creds(KycLevel::Level2, Some("DE"));
    let fr = creds(KycLevel::Level2, Some("FR"));
    assert!(de.is_host_in_valid_jurisdiction(false, &list));
    assert!(!fr.is_host_in_valid_jurisdiction(false, &list));
    assert!(!de.is_host_in_valid_jurisdiction(true, &list));
    assert!(fr.is_host_in_valid_jurisdiction(true, &list));
    assert!(!creds(KycLevel::Level2, None).is_host_in_valid_jurisdiction(true, &list));

    let allow = host_prefs(Some(prefs(&["US", "DE"], false)), None);
    let exclude = host_prefs(Some(prefs(&["US", "DE"], true)), None);
    let us = Some("US".to_string());
    let fr = Some("FR".to_string());
    assert!(allow.is_happ_publisher_in_valid_jurisdiction(&us));
    assert!(!allow.is_happ_publisher_in_valid_jurisdiction(&fr));
    assert!(!exclude.is_happ_publisher_in_valid_jurisdiction(&us));
    assert!(exclude.is_happ_publisher_in_valid_jurisdiction(&fr));
    assert!(!exclude.is_happ_publisher_in_valid_jurisdiction(&None));
    assert!(host_prefs(None, None).is_happ_publisher_in_valid_jurisdiction(&None));
}

#[test]
fn category_lists_both_branches() {
    let cats = vec!["games".to_string(), "chat".to_string()];
    assert!(host_prefs(None, Some(prefs(&["chat"], false))).is_happ_valid_category(&cats));
    assert!(!host_prefs(None, Some(prefs(&["news"], false))).is_happ_valid_category(&cats));
    assert!(!host_prefs(None, Some(prefs(&["chat"], true))).is_happ_valid_category(&cats));
    assert!(host_prefs(None, Some(prefs(&["news"], true))).is_happ_valid_category(&cats));
    assert!(host_prefs(None, None).is_happ_valid_category(&cats));
    assert!(!host_prefs(None, Some(prefs(&["chat"], false))).is_happ_valid_category(&vec![]));
}

#[test]
fn unverified_host_runs_only_free_happs() {
    let id = id53('f');
    let p = host_prefs(None, None);
    let level1 = creds(KycLevel::Level1, Some("DE"));
    assert!(should_be_enabled(&id, &vec![], &level1, &p, &details(true)));
    assert!(!should_be_enabled(&id, &vec![], &level1, &p, &details(false)));
    let mut disabled = details(true);
    disabled.is_disabled_by_host = true;
    assert!(!should_be_enabled(&id, &vec![], &creds(KycLevel::Level2, Some("DE")), &p, &disabled));
}

#[test]
fn free_happ_installs_anonymously_for_level1_host() {
    let x = id53('x');
    let published = vec![app(&x, "0", None)];
    let c = ctx(vec![], creds(KycLevel::Level1, Some("DE")), host_prefs(None, None));
    assert_eq!(install_holo_hosted_happs(&published, &vec![], &c), vec![0]);
    let (published, after) = apply(&published, &vec![], &c);
    assert!(after.contains(&x));
    let plan = handle_ineligible_happs(&published, &after, &c);
    assert!(plan.actions.iter().all(|a| *a == InstanceAction::Keep));
    assert!(install_holo_hosted_happs(&published, &after, &c).is_empty());
}

#[test]
fn excluded_publisher_jurisdiction_is_never_hosted() {
    let y = id53('y');
    let published = vec![app(&y, "0.5", Some("US"))];
    let c = ctx(vec![], creds(KycLevel::Level2, Some("DE")), host_prefs(Some(prefs(&["US"], true)), None));
    assert!(install_holo_hosted_happs(&published, &vec![], &c).is_empty());
    let identified = format!("{}::uhCAkagent", y);
    let enabled = vec![y.clone(), identified.clone(), "core-app:0_1".to_string()];
    let plan = handle_ineligible_happs(&published, &enabled, &c);
    assert_eq!(plan.enabled_happ_ids, enabled);
    assert_eq!(plan.actions, vec![InstanceAction::Disable, InstanceAction::Uninstall, InstanceAction::Keep]);
    assert_eq!(plan.holo_disable, vec![y.clone()]);
}

fn hosting_invoice(happ_id_note: &str, expiration: Option<i64>) -> Transaction {
    Transaction {
        id: "uhCEkinvoice".to_string(),
        amount: "1.5".to_string(),
        fee: "0".to_string(),
        created_date: 0,
        completed_date: None,
        transaction_type: TransactionType::Request,
        counterparty: "uhCAkpublisher".to_string(),
        direction: TransactionDirection::Incoming,
        status: TransactionStatus::Pending,
        note: Some(format!("hha_id: {}", happ_id_note)),
        proof_of_service: Some(POS::Hosting(vec![1, 2, 3])),
        url: None,
        expiration_date: expiration,
    }
}

fn note(id: &str) -> Option<InvoiceNote> {
    Some(InvoiceNote {
        hha_id: id.to_string(),
        invoice_period_start: 0,
        invoice_period_end: 10,
        invoiced_items: InvoicedItems { quantity: "q".to_string(), prices: "p".to_string() },
    })
}

fn pending(invoices: Vec<Transaction>) -> PendingTransaction {
    PendingTransaction {
        invoice_pending: invoices,
        promise_pending: vec![],
        invoice_declined: vec![],
        promise_declined: vec![],
        accepted: vec![],
    }
}

#[test]
fn overdue_invoice_suspends_and_disables() {
    let z = id53('z');
    let now = 1_000_000;
    let txs = pending(vec![hosting_invoice(&z, Some(now - 1))]);
    let suspended = get_suspended_happs(&txs, &vec![note(&z)], now);
    assert_eq!(suspended, vec![z.clone()]);
    let published = vec![app(&z, "0", None)];
    let c = ctx(suspended, creds(KycLevel::Level2, Some("DE")), host_prefs(None, None));
    let plan = handle_ineligible_happs(&published, &vec![z.clone()], &c);
    assert_eq!(plan.actions, vec![InstanceAction::Disable]);
    assert_eq!(plan.holo_disable, vec![z.clone()]);
    assert!(install_holo_hosted_happs(&published, &vec![], &c).is_empty());
}

#[test]
fn suspension_skips_unexpired_undecoded_and_other_invoices() {
    let a = id53('a');
    let now = 5_000;
    let mut redemption = hosting_invoice(&a, Some(0));
    redemption.proof_of_service = Some(POS::Redemption("wallet".to_string()));
    let mut no_note = hosting_invoice(&a, Some(0));
    no_note.note = None;
    let txs = pending(vec![
        hosting_invoice(&a, Some(now)),
        hosting_invoice(&a, None),
        hosting_invoice(&a, Some(0)),
        redemption,
        no_note,
    ]);
    let notes = vec![note(&a), note(&a), None, note(&a), note(&a)];
    assert!(get_suspended_happs(&txs, &notes, now).is_empty());
}

#[test]
fn suspension_list_has_no_repeats() {
    let a = id53('a');
    let b = id53('b');
    let txs = pending(vec![hosting_invoice(&a, Some(1)), hosting_invoice(&b, Some(1)), hosting_invoice(&a, Some(1))]);
    let notes = vec![note(&a), note(&b), note(&a)];
    assert_eq!(get_suspended_happs(&txs, &notes, 2), vec![a, b]);
    assert!(get_suspended_happs(&txs, &vec![], 2).is_empty());
}

#[test]
fn second_run_changes_nothing() {
    let free = id53('f');
    let paid = id53('p');
    let paused = id53('u');
    let special = id53('c');
    let mut published = vec![app(&free, "0", None), app(&paid, "1", Some("US")), app(&paused, "0", None), app(&special, "0", None)];
    published[2].bundle.is_paused = true;
    published[3].bundle.special_installed_app_id = Some("core-app".to_string());
    let c = ctx(vec![], creds(KycLevel::Level1, Some("DE")), host_prefs(None, None));
    let enabled = vec![
        paid.clone(),
        format!("{}::uhCAkagent", paid),
        paused.clone(),
        "core-app:0_1".to_string(),
        id53('s'),
        "uhCkkstale::uhCAkagent".to_string(),
    ];
    let first = plan_reconciliation(&published, &enabled, &c);
    assert_eq!(first.installs, vec![0, 3]);
    assert_eq!(
        first.ineligible.actions,
        vec![
            InstanceAction::Disable,
            InstanceAction::Uninstall,
            InstanceAction::Disable,
            InstanceAction::Keep,
            InstanceAction::Disable,
            InstanceAction::Uninstall,
        ]
    );
    let (published, after) = apply(&published, &enabled, &c);
    let second = plan_reconciliation(&published, &after, &c);
    assert!(second.installs.is_empty());
    assert!(second.ineligible.actions.iter().all(|a| *a == InstanceAction::Keep));
    assert!(second.ineligible.holo_disable.is_empty());
}

#[test]
fn paused_happ_anonymous_instance_is_disabled_identified_kept() {
    let x = id53('x');
    let mut published = vec![app(&x, "0", None)];
    published[0].bundle.is_paused = true;
    let c = ctx(vec![], creds(KycLevel::Level2, Some("DE")), host_prefs(None, None));
    let ident = format!("{}::uhCAkagent", x);
    let plan = handle_ineligible_happs(&published, &vec![x.clone(), ident, x.clone()], &c);
    assert_eq!(plan.actions, vec![InstanceAction::Disable, InstanceAction::Keep]);
    assert!(plan.holo_disable.is_empty());
}

#[test]
fn companion_goes_with_its_parent() {
    let y = id53('y');
    let x = id53('x');
    let gone = id53('g');
    let published = vec![app(&y, "0.5", Some("US")), app(&x, "0", Some("DE"))];
    let c = ctx(vec![], creds(KycLevel::Level2, Some("DE")), host_prefs(Some(prefs(&["US"], true)), None));
    let enabled = vec![
        format!("{}::servicelogger", y),
        format!("{}::servicelogger", x),
        format!("{}::servicelogger", gone),
        "uhCkkshort::servicelogger".to_string(),
        "servicelogger:0_2_1::servicelogger".to_string(),
    ];
    let plan = handle_ineligible_happs(&published, &enabled, &c);
    assert_eq!(
        plan.actions,
        vec![
            InstanceAction::Disable,
            InstanceAction::Keep,
            InstanceAction::Disable,
            InstanceAction::Uninstall,
            InstanceAction::Keep,
        ]
    );
    assert!(plan.holo_disable.is_empty());
}

#[test]
fn running_app_with_hosting_off_is_installed_again() {
    let x = id53('x');
    let mut published = vec![app(&x, "0", None)];
    let c = ctx(vec![], creds(KycLevel::Level2, Some("DE")), host_prefs(None, None));
    assert_eq!(install_holo_hosted_happs(&published, &vec![x.clone()], &c), vec![0]);
    published[0].bundle.host_settings.is_enabled = true;
    assert!(install_holo_hosted_happs(&published, &vec![x.clone()], &c).is_empty());
}

#[test]
fn published_list_validity() {
    let a = id53('a');
    let good = vec![app(&a, "0", None), app(&id53('b'), "0", None)];
    assert!(validate_published(&good));
    let dup = vec![app(&a, "0", None), app(&a, "1", None)];
    assert!(!validate_published(&dup));
    let sep = vec![app("uhCkkA::B", "0", None)];
    assert!(!validate_published(&sep));
    let colon = vec![app("uhCkkB", "0", None), app("uhCkkB:", "0", None)];
    assert!(!validate_published(&colon));
    let mut inconsistent = vec![app(&a, "0", None)];
    inconsistent[0].details.happ_categories = vec!["games".to_string()];
    assert!(!validate_published(&inconsistent));
    assert!(validate_published(&vec![]));
}

#[test]
fn suspended_happ_identified_instance_is_uninstalled() {
    let z = id53('z');
    let published = vec![app(&z, "0", None)];
    let c = ctx(vec![z.clone()], creds(KycLevel::Level2, Some("DE")), host_prefs(None, None));
    let enabled = vec![z.clone(), format!("{}::uhCAkagent", z), format!("{}::servicelogger", z)];
    let plan = handle_ineligible_happs(&published, &enabled, &c);
    assert_eq!(plan.actions, vec![InstanceAction::Disable, InstanceAction::Uninstall, InstanceAction::Disable]);
    assert_eq!(plan.holo_disable, vec![z]);
}
