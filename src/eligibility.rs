//! The eligibility rules: whether an instance of a published application may
//! stay enabled on this host.
use vstd::prelude::*;
use crate::text::same_text;

verus! {

/// Whether some entry of `list` holds the characters `x`.
pub open spec fn list_has(list: Seq<String>, x: Seq<char>) -> bool {
    exists|i: int| 0 <= i < list.len() && (#[trigger] list[i])@ == x
}

/// Membership in an allow list (`is_exclusion == false`) or a deny list.
pub open spec fn list_admits(list: Seq<String>, is_exclusion: bool, x: Seq<char>) -> bool {
    if is_exclusion {
        !list_has(list, x)
    } else {
        list_has(list, x)
    }
}

/// Some entry of `items` is also an entry of `list`.
pub open spec fn lists_overlap(items: Seq<String>, list: Seq<String>) -> bool {
    exists|i: int| 0 <= i < items.len() && list_has(list, (#[trigger] items[i])@)
}

/// Whether `list` holds an entry equal to `x`.
pub fn list_contains(list: &Vec<String>, x: &str) -> (r: bool)
    ensures
        r == list_has(list@, x@),
{
    let mut i: usize = 0;
    while i < list.len()
        invariant
            i <= list@.len(),
            forall|k: int| 0 <= k < i ==> (#[trigger] list@[k])@ != x@,
        decreases list@.len() - i,
    {
        if same_text(list[i].as_str(), x) {
            return true;
        }
        i = i + 1;
    }
    false
}

/// Whether some entry of `items` is also an entry of `list`.
pub fn lists_intersect(items: &Vec<String>, list: &Vec<String>) -> (r: bool)
    ensures
        r == lists_overlap(items@, list@),
{
    let mut i: usize = 0;
    while i < items.len()
        invariant
            i <= items@.len(),
            forall|k: int| 0 <= k < i ==> !list_has(list@, (#[trigger] items@[k])@),
        decreases items@.len() - i,
    {
        if list_contains(list, items[i].as_str()) {
            return true;
        }
        i = i + 1;
    }
    false
}

/// An allow list or a deny list of jurisdictions or categories.
#[derive(Clone, Debug)]
pub struct ExclusivePreferences {
    pub value: Vec<String>,
    pub is_exclusion: bool,
}

/// The same list, as the registry's hosting preferences name it.
pub type JurisdictionAndCategoryPreferences = ExclusivePreferences;

/// Verification level of the host: `Level2` is verified.
#[derive(PartialEq, Eq, Structural, Clone, Copy, Debug)]
pub enum KycLevel {
    Level1,
    Level2,
}

impl Default for KycLevel {
    fn default() -> (r: KycLevel)
        ensures
            r == KycLevel::Level1,
    {
        KycLevel::Level1
    }
}

/// The host's verification level and jurisdiction, as the billing service
/// reports them.
#[derive(Clone, Debug)]
pub struct HostCredentials {
    pub access_token: Option<String>,
    pub id: Option<String>,
    pub jurisdiction: Option<String>,
    pub kyc: KycLevel,
}

impl Default for HostCredentials {
    /// The restrictive fallback: unverified, no jurisdiction.
    fn default() -> (r: HostCredentials)
        ensures
            r.kyc == KycLevel::Level1,
            r.jurisdiction.is_none(),
            r.access_token.is_none(),
            r.id.is_none(),
    {
        HostCredentials { access_token: None, id: None, jurisdiction: None, kyc: KycLevel::Level1 }
    }
}

/// The host's own jurisdiction is admitted by an application's jurisdiction
/// list; a host without a jurisdiction is admitted by none.
pub open spec fn spec_host_in_valid_jurisdiction(
    host_jurisdiction: Option<String>,
    should_exclude_happ_jurisdictions: bool,
    happ_jurisdictions: Seq<String>,
) -> bool {
    match host_jurisdiction {
        None => false,
        Some(j) => list_admits(happ_jurisdictions, should_exclude_happ_jurisdictions, j@),
    }
}

impl HostCredentials {
    /// Whether the application's jurisdiction list lets it run in the host's
    /// jurisdiction.
    pub fn is_host_in_valid_jurisdiction(
        &self,
        should_exclude_happ_jurisdictions: bool,
        happ_jurisdictions: &Vec<String>,
    ) -> (r: bool)
        ensures
            r == spec_host_in_valid_jurisdiction(
                self.jurisdiction,
                should_exclude_happ_jurisdictions,
                happ_jurisdictions@,
            ),
    {
        match &self.jurisdiction {
            None => false,
            Some(j) => {
                let found = list_contains(happ_jurisdictions, j.as_str());
                if should_exclude_happ_jurisdictions {
                    !found
                } else {
                    found
                }
            },
        }
    }
}

/// The hosting preferences that the host operator sets in the registry.
/// Amounts of fuel are decimal text.
#[derive(Clone, Debug)]
pub struct HappPreferences {
    pub max_fuel_before_invoice: String,
    pub max_time_before_invoice_secs: u64,
    pub price_compute: String,
    pub price_storage: String,
    pub price_bandwidth: String,
    pub invoice_due_in_days: u8,
    pub jurisdiction_prefs: Option<ExclusivePreferences>,
    pub categories_prefs: Option<ExclusivePreferences>,
}

/// The publisher's jurisdiction is admitted by the host's jurisdiction
/// preference. Without a preference every publisher is admitted; with one,
/// a publisher of unknown jurisdiction is not.
pub open spec fn spec_publisher_in_valid_jurisdiction(
    jurisdiction_prefs: Option<ExclusivePreferences>,
    publisher_jurisdiction: Option<String>,
) -> bool {
    match jurisdiction_prefs {
        None => true,
        Some(p) => match publisher_jurisdiction {
            None => false,
            Some(j) => list_admits(p.value@, p.is_exclusion, j@),
        },
    }
}

/// The application's categories are admitted by the host's category
/// preference: an allow list must share a category with them, a deny list
/// must share none. Without a preference every application is admitted.
pub open spec fn spec_valid_category(
    categories_prefs: Option<ExclusivePreferences>,
    happ_categories: Seq<String>,
) -> bool {
    match categories_prefs {
        None => true,
        Some(p) => if p.is_exclusion {
            !lists_overlap(happ_categories, p.value@)
        } else {
            lists_overlap(happ_categories, p.value@)
        },
    }
}

impl HappPreferences {
    /// Whether the host's jurisdiction preference admits the publisher.
    pub fn is_happ_publisher_in_valid_jurisdiction(
        &self,
        maybe_publisher_jurisdiction: &Option<String>,
    ) -> (r: bool)
        ensures
            r == spec_publisher_in_valid_jurisdiction(
                self.jurisdiction_prefs,
                *maybe_publisher_jurisdiction,
            ),
    {
        match &self.jurisdiction_prefs {
            None => true,
            Some(p) => match maybe_publisher_jurisdiction {
                None => false,
                Some(j) => {
                    let found = list_contains(&p.value, j.as_str());
                    if p.is_exclusion {
                        !found
                    } else {
                        found
                    }
                },
            },
        }
    }

    /// Whether the host's category preference admits the application.
    pub fn is_happ_valid_category(&self, happ_categories: &Vec<String>) -> (r: bool)
        ensures
            r == spec_valid_category(self.categories_prefs, happ_categories@),
    {
        match &self.categories_prefs {
            None => true,
            Some(p) => {
                let found = lists_intersect(happ_categories, &p.value);
                if p.is_exclusion {
                    !found
                } else {
                    found
                }
            },
        }
    }
}

/// What the registry says of one published application that the rules read.
#[derive(Clone, Debug)]
pub struct PublishedHappDetails {
    pub publisher_jurisdiction: Option<String>,
    pub happ_jurisdictions: Vec<String>,
    pub should_exclude_happ_jurisdictions: bool,
    pub happ_categories: Vec<String>,
    pub is_disabled_by_host: bool,
    /// All prices that the publisher set for the application are zero.
    pub is_free: bool,
}

/// The same preferences, as the registry's transaction types name them.
pub type HostingPreferences = HappPreferences;

/// The eligibility rule for an instance of the published application
/// `happ_id`. A suspended application is never eligible; then the
/// publisher's and the host's jurisdictions, the categories and the host's
/// own switch must admit it; last, the host must be verified unless the
/// application is free.
pub open spec fn spec_should_be_enabled(
    happ_id: Seq<char>,
    suspended_happs: Seq<String>,
    host_credentials: HostCredentials,
    host_happ_preferences: HappPreferences,
    details: PublishedHappDetails,
) -> bool {
    &&& !list_has(suspended_happs, happ_id)
    &&& spec_publisher_in_valid_jurisdiction(
        host_happ_preferences.jurisdiction_prefs,
        details.publisher_jurisdiction,
    )
    &&& spec_host_in_valid_jurisdiction(
        host_credentials.jurisdiction,
        details.should_exclude_happ_jurisdictions,
        details.happ_jurisdictions@,
    )
    &&& spec_valid_category(host_happ_preferences.categories_prefs, details.happ_categories@)
    &&& !details.is_disabled_by_host
    &&& (host_credentials.kyc == KycLevel::Level2 || details.is_free)
}

/// Whether an instance of the published application `happ_id`, described
/// by `details`, should stay enabled on this host.
pub fn should_be_enabled(
    happ_id: &str,
    suspended_happs: &Vec<String>,
    host_credentials: &HostCredentials,
    host_happ_preferences: &HappPreferences,
    details: &PublishedHappDetails,
) -> (r: bool)
    ensures
        r == spec_should_be_enabled(
            happ_id@,
            suspended_happs@,
            *host_credentials,
            *host_happ_preferences,
            *details,
        ),
{
    if list_contains(suspended_happs, happ_id) {
        return false;
    }
    if !host_happ_preferences.is_happ_publisher_in_valid_jurisdiction(
        &details.publisher_jurisdiction,
    ) {
        return false;
    }
    if !host_credentials.is_host_in_valid_jurisdiction(
        details.should_exclude_happ_jurisdictions,
        &details.happ_jurisdictions,
    ) {
        return false;
    }
    if !host_happ_preferences.is_happ_valid_category(&details.happ_categories) {
        return false;
    }
    if details.is_disabled_by_host {
        return false;
    }
    host_credentials.kyc == KycLevel::Level2 || details.is_free
}

/// A suspended application is never eligible, whatever the host's
/// credentials and preferences and the application's details.
pub proof fn lemma_suspension_precedence(
    happ_id: Seq<char>,
    suspended_happs: Seq<String>,
    host_credentials: HostCredentials,
    host_happ_preferences: HappPreferences,
    details: PublishedHappDetails,
)
    requires
        list_has(suspended_happs, happ_id),
    ensures
        !spec_should_be_enabled(
            happ_id,
            suspended_happs,
            host_credentials,
            host_happ_preferences,
            details,
        ),
{
}

/// Jurisdiction lists: an allow list admits exactly its entries, a deny list
/// exactly the others, both for the host's jurisdiction against an
/// application's list and for a publisher's jurisdiction against the host's
/// preference.
pub proof fn lemma_jurisdiction_symmetry(list: Vec<String>, j: String)
    ensures
        spec_host_in_valid_jurisdiction(Some(j), false, list@) == list_has(list@, j@),
        spec_host_in_valid_jurisdiction(Some(j), true, list@) == !list_has(list@, j@),
        spec_publisher_in_valid_jurisdiction(
            Some((ExclusivePreferences { value: list, is_exclusion: false })),
            Some(j),
        ) == list_has(list@, j@),
        spec_publisher_in_valid_jurisdiction(
            Some((ExclusivePreferences { value: list, is_exclusion: true })),
            Some(j),
        ) == !list_has(list@, j@),
{
}

} // verus!
