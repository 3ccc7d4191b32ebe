//! What the run gathers from the registry: per-application pricing, the
//! publishers' jurisdictions (looked up once per publisher), and the
//! published applications with the details that the rules read.
use vstd::prelude::*;
use crate::eligibility::PublishedHappDetails;
use crate::reconcile::{happ_consistent, HappBundle, HostSettings, PublishedHapp};
use crate::text::same_text;

verus! {

/// An amount of fuel, as decimal text, is zero: zeros, optionally split by
/// one decimal point with a zero on each side of it.
pub open spec fn spec_is_zero_fuel(amount: Seq<char>) -> bool {
    &&& amount.len() > 0
    &&& amount[0] == '0'
    &&& amount[amount.len() - 1] == '0'
    &&& forall|i: int| 0 <= i < amount.len() ==> amount[i] == '0' || amount[i] == '.'
    &&& forall|i: int, j: int|
        0 <= i < amount.len() && 0 <= j < amount.len() && amount[i] == '.' && amount[j] == '.'
            ==> i == j
}

/// Whether the decimal text `amount` is zero.
pub fn is_zero_fuel(amount: &str) -> (r: bool)
    ensures
        r == spec_is_zero_fuel(amount@),
{
    let n = amount.unicode_len();
    if n == 0 {
        return false;
    }
    if amount.get_char(0) != '0' || amount.get_char(n - 1) != '0' {
        return false;
    }
    let mut dot: Option<usize> = None;
    let mut i: usize = 0;
    while i < n
        invariant
            n == amount@.len(),
            n > 0,
            amount@[0] == '0',
            amount@[n - 1] == '0',
            i <= n,
            forall|k: int| 0 <= k < i ==> amount@[k] == '0' || amount@[k] == '.',
            match dot {
                Some(d) => d < i && amount@[d as int] == '.' && forall|k: int|
                    0 <= k < i && amount@[k] == '.' ==> k == d,
                None => forall|k: int| 0 <= k < i ==> amount@[k] != '.',
            },
        decreases n - i,
    {
        let c = amount.get_char(i);
        if c != '0' && c != '.' {
            return false;
        }
        if c == '.' {
            if dot.is_some() {
                return false;
            }
            dot = Some(i);
        }
        i = i + 1;
    }
    true
}

/// The publisher's pricing and invoicing settings for one application.
/// Amounts of fuel are decimal text.
#[derive(Clone, Debug)]
pub struct ServiceloggerHappPreferences {
    pub provider_pubkey: String,
    pub max_fuel_before_invoice: String,
    pub price_compute: String,
    pub price_storage: String,
    pub price_bandwidth: String,
    pub max_time_before_invoice_secs: u64,
    /// How many days after an invoice is created it is due.
    pub invoice_due_in_days: u8,
}

impl ServiceloggerHappPreferences {
    pub open spec fn spec_is_free(&self) -> bool {
        spec_is_zero_fuel(self.price_compute@) && spec_is_zero_fuel(self.price_storage@)
            && spec_is_zero_fuel(self.price_bandwidth@)
    }

    /// Whether every price is zero.
    pub fn is_free(&self) -> (r: bool)
        ensures
            r == self.spec_is_free(),
    {
        is_zero_fuel(self.price_compute.as_str()) && is_zero_fuel(self.price_storage.as_str())
            && is_zero_fuel(self.price_bandwidth.as_str())
    }
}

/// The registry's answer for one publisher: its jurisdiction, if known.
pub open spec fn jurisdiction_view(j: Option<String>) -> Option<Seq<char>> {
    match j {
        Some(s) => Some(s@),
        None => None,
    }
}

/// Publishers' jurisdictions already fetched in this run.
pub struct PublisherJurisdictionCache {
    entries: Vec<(String, Option<String>)>,
}

impl View for PublisherJurisdictionCache {
    type V = Map<Seq<char>, Option<Seq<char>>>;

    closed spec fn view(&self) -> Map<Seq<char>, Option<Seq<char>>> {
        Map::new(
            |k: Seq<char>| exists|i: int| 0 <= i < self.entries@.len() && (#[trigger] self.entries@[i]).0@ == k,
            |k: Seq<char>|
                jurisdiction_view(
                    self.entries@[choose|i: int|
                        0 <= i < self.entries@.len() && (#[trigger] self.entries@[i]).0@ == k].1,
                ),
        )
    }
}

impl PublisherJurisdictionCache {
    /// Each publisher appears once.
    pub closed spec fn wf(&self) -> bool {
        forall|i: int, j: int|
            0 <= i < self.entries@.len() && 0 <= j < self.entries@.len() && i != j ==> (
            #[trigger] self.entries@[i]).0@ != (#[trigger] self.entries@[j]).0@
    }

    pub fn new() -> (r: PublisherJurisdictionCache)
        ensures
            r.wf(),
            r@ == Map::<Seq<char>, Option<Seq<char>>>::empty(),
    {
        let r = PublisherJurisdictionCache { entries: Vec::new() };
        assert(r@ =~= Map::<Seq<char>, Option<Seq<char>>>::empty());
        r
    }

    fn position(&self, publisher: &str) -> (r: Option<usize>)
        requires
            self.wf(),
        ensures
            match r {
                Some(i) => i < self.entries@.len() && self.entries@[i as int].0@ == publisher@,
                None => !self@.contains_key(publisher@),
            },
    {
        let mut i: usize = 0;
        while i < self.entries.len()
            invariant
                i <= self.entries@.len(),
                forall|k: int| 0 <= k < i ==> (#[trigger] self.entries@[k]).0@ != publisher@,
            decreases self.entries@.len() - i,
        {
            if same_text(self.entries[i].0.as_str(), publisher) {
                return Some(i);
            }
            i = i + 1;
        }
        None
    }

    /// The jurisdiction fetched for `publisher`, if it was fetched.
    pub fn get(&self, publisher: &str) -> (r: Option<Option<String>>)
        requires
            self.wf(),
        ensures
            r.is_some() == self@.contains_key(publisher@),
            r matches Some(j) ==> jurisdiction_view(j) == self@[publisher@],
    {
        match self.position(publisher) {
            Some(i) => {
                let j = self.entries[i].1.clone();
                proof {
                    let k = choose|k: int|
                        0 <= k < self.entries@.len() && (#[trigger] self.entries@[k]).0@
                            == publisher@;
                    assert(k == i);
                }
                assert(self@.contains_key(publisher@));
                Some(j)
            },
            None => None,
        }
    }

    /// Records what the registry said of `publisher`, replacing any earlier
    /// answer.
    pub fn insert(&mut self, publisher: String, jurisdiction: Option<String>)
        requires
            old(self).wf(),
        ensures
            final(self).wf(),
            final(self)@ == old(self)@.insert(publisher@, jurisdiction_view(jurisdiction)),
    {
        let ghost old_map = self@;
        let ghost key = publisher@;
        let ghost val = jurisdiction_view(jurisdiction);
        match self.position(publisher.as_str()) {
            Some(i) => {
                let ghost before = self.entries@;
                self.entries.set(i, (publisher, jurisdiction));
                proof {
                    assert forall|k: Seq<char>| #[trigger] self@.contains_key(k) == old_map.insert(key, val).contains_key(k) by {
                        if old_map.contains_key(k) {
                            let m = choose|m: int| 0 <= m < before.len() && (#[trigger] before[m]).0@ == k;
                            assert(self.entries@[m].0@ == k);
                        }
                        if self@.contains_key(k) {
                            let m = choose|m: int| 0 <= m < self.entries@.len() && (#[trigger] self.entries@[m]).0@ == k;
                            if m != i {
                                assert(before[m].0@ == k);
                            }
                        }
                    }
                    assert forall|k: Seq<char>| #[trigger] self@.contains_key(k) implies self@[k] == old_map.insert(key, val)[k] by {
                        let m = choose|m: int| 0 <= m < self.entries@.len() && (#[trigger] self.entries@[m]).0@ == k;
                        if k != key {
                            assert(m != i);
                            assert(before[m].0@ == k);
                            let m2 = choose|m2: int| 0 <= m2 < before.len() && (#[trigger] before[m2]).0@ == k;
                            assert(m2 == m);
                        } else {
                            assert(m == i);
                        }
                    }
                    assert(self@ =~= old_map.insert(key, val));
                }
            },
            None => {
                let ghost before = self.entries@;
                self.entries.push((publisher, jurisdiction));
                proof {
                    let n = before.len() as int;
                    assert forall|k: Seq<char>| #[trigger] self@.contains_key(k) == old_map.insert(key, val).contains_key(k) by {
                        if old_map.contains_key(k) {
                            let m = choose|m: int| 0 <= m < before.len() && (#[trigger] before[m]).0@ == k;
                            assert(self.entries@[m].0@ == k);
                        }
                        if k == key {
                            assert(self.entries@[n].0@ == k);
                        }
                        if self@.contains_key(k) {
                            let m = choose|m: int| 0 <= m < self.entries@.len() && (#[trigger] self.entries@[m]).0@ == k;
                            if m != n {
                                assert(before[m].0@ == k);
                            }
                        }
                    }
                    assert forall|k: Seq<char>| #[trigger] self@.contains_key(k) implies self@[k] == old_map.insert(key, val)[k] by {
                        let m = choose|m: int| 0 <= m < self.entries@.len() && (#[trigger] self.entries@[m]).0@ == k;
                        if k != key {
                            assert(m != n);
                            assert(before[m].0@ == k);
                            let m2 = choose|m2: int| 0 <= m2 < before.len() && (#[trigger] before[m2]).0@ == k;
                            assert(m2 == m);
                        } else {
                            assert(m == n);
                        }
                    }
                    assert(self@ =~= old_map.insert(key, val));
                }
            },
        }
    }
}

/// A published application with the details that the rules read: its
/// jurisdictions and categories, the host's switch, the publisher's
/// jurisdiction and whether it is free.
pub fn published_happ(
    bundle: HappBundle,
    publisher_jurisdiction: Option<String>,
    happ_preferences: &ServiceloggerHappPreferences,
) -> (r: PublishedHapp)
    ensures
        r.bundle == bundle,
        r.details.publisher_jurisdiction == publisher_jurisdiction,
        r.details.happ_jurisdictions@ == bundle.jurisdictions@,
        r.details.should_exclude_happ_jurisdictions == bundle.exclude_jurisdictions,
        r.details.happ_categories@ == bundle.categories@,
        r.details.is_disabled_by_host == bundle.host_settings.is_host_disabled,
        r.details.is_free == happ_preferences.spec_is_free(),
        happ_consistent(r),
{
    let details = PublishedHappDetails {
        publisher_jurisdiction,
        happ_jurisdictions: clone_ids(&bundle.jurisdictions),
        should_exclude_happ_jurisdictions: bundle.exclude_jurisdictions,
        happ_categories: clone_ids(&bundle.categories),
        is_disabled_by_host: bundle.host_settings.is_host_disabled,
        is_free: happ_preferences.is_free(),
    };
    PublishedHapp { bundle, details }
}

/// A copy of a list of strings.
pub fn clone_ids(ids: &Vec<String>) -> (r: Vec<String>)
    ensures
        r@ == ids@,
{
    let mut r: Vec<String> = Vec::new();
    let mut i: usize = 0;
    while i < ids.len()
        invariant
            i <= ids@.len(),
            r@ == ids@.subrange(0, i as int),
        decreases ids@.len() - i,
    {
        r.push(ids[i].clone());
        assert(r@ =~= ids@.subrange(0, i + 1));
        i = i + 1;
    }
    assert(r@ =~= ids@);
    r
}

/// A published application as the registry's listing presents it.
#[derive(Clone, Debug)]
pub struct PresentedHappBundle {
    pub id: String,
    pub provider_pubkey: String,
    pub is_draft: bool,
    pub is_paused: bool,
    pub uid: Option<String>,
    pub bundle_url: String,
    pub name: String,
    pub categories: Vec<String>,
    pub jurisdictions: Vec<String>,
    pub exclude_jurisdictions: bool,
    pub special_installed_app_id: Option<String>,
    pub host_settings: HostSettings,
}

/// The listing entry as a bundle to host: the same fields, the network
/// seed taken from `uid`.
pub open spec fn spec_bundle_of(h: PresentedHappBundle) -> HappBundle {
    HappBundle {
        happ_id: h.id,
        bundle_url: h.bundle_url,
        is_paused: h.is_paused,
        special_installed_app_id: h.special_installed_app_id,
        jurisdictions: h.jurisdictions,
        exclude_jurisdictions: h.exclude_jurisdictions,
        categories: h.categories,
        host_settings: h.host_settings,
        provider_pubkey: h.provider_pubkey,
        network_seed: h.uid,
    }
}

/// The published applications of the registry's listing, in its order.
pub fn get_all_published_hosted_happs(happ_bundles: Vec<PresentedHappBundle>) -> (r: Vec<
    HappBundle,
>)
    ensures
        r@.len() == happ_bundles@.len(),
        forall|i: int| 0 <= i < r@.len() ==> #[trigger] r@[i] == spec_bundle_of(happ_bundles@[i]),
{
    let ghost all = happ_bundles@;
    let mut rest = happ_bundles;
    let mut reversed: Vec<PresentedHappBundle> = Vec::new();
    while rest.len() > 0
        invariant
            reversed@.len() + rest@.len() == all.len(),
            rest@ == all.subrange(0, rest@.len() as int),
            forall|i: int|
                0 <= i < reversed@.len() ==> #[trigger] reversed@[i] == all[all.len() - 1 - i],
        decreases rest@.len(),
    {
        let h = rest.pop().unwrap();
        reversed.push(h);
        assert(rest@ =~= all.subrange(0, rest@.len() as int));
    }
    let mut r: Vec<HappBundle> = Vec::new();
    while reversed.len() > 0
        invariant
            reversed@.len() + r@.len() == all.len(),
            forall|i: int|
                0 <= i < reversed@.len() ==> #[trigger] reversed@[i] == all[all.len() - 1 - i],
            forall|i: int| 0 <= i < r@.len() ==> #[trigger] r@[i] == spec_bundle_of(all[i]),
        decreases reversed@.len(),
    {
        let h = reversed.pop().unwrap();
        r.push(HappBundle {
            happ_id: h.id,
            bundle_url: h.bundle_url,
            is_paused: h.is_paused,
            special_installed_app_id: h.special_installed_app_id,
            jurisdictions: h.jurisdictions,
            exclude_jurisdictions: h.exclude_jurisdictions,
            categories: h.categories,
            host_settings: h.host_settings,
            provider_pubkey: h.provider_pubkey,
            network_seed: h.uid,
        });
    }
    r
}

} // verus!
