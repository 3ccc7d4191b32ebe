//! The reconciliation engine: from the published applications, the
//! eligibility context and one snapshot of the enabled installed ids, the
//! installs, disables, uninstalls and registry disables that bring the host
//! in line.
use vstd::prelude::*;
use crate::text::{
    has_prefix, has_suffix, has_infix, occurs_at, lemma_prefix_concat, matches_at, starts_with,
    ends_with,
};
use crate::instance::{
    SERVICELOGGER_SUFFIX, servicelogger_suffix, instance_separator, servicelogger_id,
    spec_is_hosted_happ, spec_is_anonymous_instance, spec_is_instance_of_happ, is_hosted_happ,
    is_anonymous_instance, is_instance_of_happ, lemma_markers,
    HOSTED_PREFIX, hosted_prefix,
};
use crate::eligibility::{
    list_has, lemma_suspension_precedence, HostCredentials, HappPreferences, PublishedHappDetails, spec_should_be_enabled,
    should_be_enabled,
};
use crate::text::same_text;
use crate::unique::{id_views, dedup_first, lemma_dedup_first, unique_ids};

verus! {

/// The host's switches for one application in the registry.
#[derive(Clone, Copy, Debug, PartialEq, Eq, Structural)]
pub struct HostSettings {
    pub is_enabled: bool,
    pub is_host_disabled: bool,
    pub is_auto_disabled: bool,
}

/// A published application as the registry lists it.
#[derive(Clone, Debug)]
pub struct HappBundle {
    pub happ_id: String,
    pub bundle_url: String,
    pub is_paused: bool,
    /// Set for applications that run on the core infrastructure instance;
    /// only their service-logging companion is installed for them.
    pub special_installed_app_id: Option<String>,
    pub jurisdictions: Vec<String>,
    pub exclude_jurisdictions: bool,
    pub categories: Vec<String>,
    pub host_settings: HostSettings,
    pub provider_pubkey: String,
    pub network_seed: Option<String>,
}

/// A published application with what the eligibility rules read of it.
#[derive(Clone, Debug)]
pub struct PublishedHapp {
    pub bundle: HappBundle,
    pub details: PublishedHappDetails,
}

/// What a run knows of the host: the suspended applications, the host's
/// credentials and its hosting preferences.
#[derive(Clone, Debug)]
pub struct EligibilityContext {
    pub suspended_happs: Vec<String>,
    pub host_credentials: HostCredentials,
    pub host_happ_preferences: HappPreferences,
}

/// What to do with one enabled installed id.
#[derive(Clone, Copy, Debug, PartialEq, Eq, Structural)]
pub enum InstanceAction {
    Keep,
    Disable,
    Uninstall,
}

/// The details of a published application repeat what its bundle says of
/// jurisdictions, categories and the host's switch.
pub open spec fn happ_consistent(p: PublishedHapp) -> bool {
    &&& id_views(p.details.happ_jurisdictions@) == id_views(p.bundle.jurisdictions@)
    &&& p.details.should_exclude_happ_jurisdictions == p.bundle.exclude_jurisdictions
    &&& id_views(p.details.happ_categories@) == id_views(p.bundle.categories@)
    &&& p.details.is_disabled_by_host == p.bundle.host_settings.is_host_disabled
}

/// No character of `s` is a colon.
pub open spec fn colon_free(s: Seq<char>) -> bool {
    forall|k: int| 0 <= k < s.len() ==> s[k] != ':'
}

/// A colon-free id holds no instance separator.
pub proof fn lemma_colon_free_no_separator(s: Seq<char>)
    requires
        colon_free(s),
    ensures
        !has_infix(s, instance_separator()),
{
    assert forall|i: int| !occurs_at(s, instance_separator(), i) by {
        if occurs_at(s, instance_separator(), i) {
            assert(s.subrange(i, i + 2)[0] == s[i]);
        }
    }
}

/// Whether no character of `s` is a colon.
pub fn is_colon_free(s: &str) -> (r: bool)
    ensures
        r == colon_free(s@),
{
    let n = s.unicode_len();
    let mut i: usize = 0;
    while i < n
        invariant
            n == s@.len(),
            i <= n,
            forall|k: int| 0 <= k < i ==> s@[k] != ':',
        decreases n - i,
    {
        if s.get_char(i) == ':' {
            return false;
        }
        i = i + 1;
    }
    true
}

/// A valid list of published applications: each is consistent, their ids
/// are distinct (they key the registry's records), and no id holds a colon,
/// so that an installed id is an instance of one application at most.
pub open spec fn published_well_formed(published: Seq<PublishedHapp>) -> bool {
    &&& forall|i: int| 0 <= i < published.len() ==> happ_consistent(#[trigger] published[i])
    &&& forall|i: int, j: int|
        0 <= i < published.len() && 0 <= j < published.len() && i != j ==> (
        #[trigger] published[i]).bundle.happ_id@ != (#[trigger] published[j]).bundle.happ_id@
    &&& forall|i: int| 0 <= i < published.len() ==> colon_free((#[trigger] published[i]).bundle.happ_id@)
}

pub open spec fn spec_eligible(p: PublishedHapp, ctx: EligibilityContext) -> bool {
    spec_should_be_enabled(
        p.bundle.happ_id@,
        ctx.suspended_happs@,
        ctx.host_credentials,
        ctx.host_happ_preferences,
        p.details,
    )
}

/// The application should be running here: eligible and not paused by its
/// publisher.
pub open spec fn spec_wants_running(p: PublishedHapp, ctx: EligibilityContext) -> bool {
    spec_eligible(p, ctx) && !p.bundle.is_paused
}

/// The installed id whose presence shows that the application runs here:
/// its anonymous instance, or for an application on the core instance its
/// service-logging companion.
pub open spec fn presence_id(b: HappBundle) -> Seq<char> {
    if b.special_installed_app_id.is_some() {
        servicelogger_id(b.happ_id@)
    } else {
        b.happ_id@
    }
}

/// The application runs here: its presence id is enabled on the conductor
/// and hosting is switched on for it in the registry.
pub open spec fn spec_running(p: PublishedHapp, enabled: Set<Seq<char>>) -> bool {
    enabled.contains(presence_id(p.bundle)) && p.bundle.host_settings.is_enabled
}

/// The application should run and does not.
pub open spec fn spec_install_needed(
    p: PublishedHapp,
    enabled: Set<Seq<char>>,
    ctx: EligibilityContext,
) -> bool {
    spec_wants_running(p, ctx) && !spec_running(p, enabled)
}

/// The first of the first `n` published applications of which `id` is an
/// instance.
pub open spec fn match_index(published: Seq<PublishedHapp>, id: Seq<char>, n: int) -> Option<int>
    decreases n,
{
    if n <= 0 {
        None
    } else {
        match match_index(published, id, n - 1) {
            Some(i) => Some(i),
            None => if spec_is_instance_of_happ(published[n - 1].bundle.happ_id@, id) {
                Some(n - 1)
            } else {
                None
            },
        }
    }
}

/// A match found among the first `k` entries stays the match among more.
pub proof fn lemma_match_index_stable(published: Seq<PublishedHapp>, id: Seq<char>, k: int, n: int)
    requires
        k <= n,
        match_index(published, id, k).is_some(),
    ensures
        match_index(published, id, n) == match_index(published, id, k),
    decreases n - k,
{
    if k < n {
        lemma_match_index_stable(published, id, k, n - 1);
    }
}

/// A match among the first `n` entries is one of them.
pub proof fn lemma_match_index_range(published: Seq<PublishedHapp>, id: Seq<char>, n: int)
    ensures
        match match_index(published, id, n) {
            Some(i) => 0 <= i < n && spec_is_instance_of_happ(published[i].bundle.happ_id@, id),
            None => forall|j: int|
                0 <= j < n ==> !spec_is_instance_of_happ(published[j].bundle.happ_id@, id),
        },
    decreases n,
{
    if n > 0 {
        lemma_match_index_range(published, id, n - 1);
    }
}

pub open spec fn published_match(published: Seq<PublishedHapp>, id: Seq<char>) -> Option<int> {
    match_index(published, id, published.len() as int)
}

/// The first of the first `n` published applications whose id is `id`.
pub open spec fn id_index(published: Seq<PublishedHapp>, id: Seq<char>, n: int) -> Option<int>
    decreases n,
{
    if n <= 0 {
        None
    } else {
        match id_index(published, id, n - 1) {
            Some(i) => Some(i),
            None => if published[n - 1].bundle.happ_id@ == id {
                Some(n - 1)
            } else {
                None
            },
        }
    }
}

pub open spec fn published_index(published: Seq<PublishedHapp>, id: Seq<char>) -> Option<int> {
    id_index(published, id, published.len() as int)
}

/// The parent of a service-logging companion: an id that ends in the
/// companion marker, with the marker taken off.
pub open spec fn companion_parent(id: Seq<char>) -> Option<Seq<char>> {
    if has_suffix(id, servicelogger_suffix()) {
        Some(id.subrange(0, id.len() - servicelogger_suffix().len()))
    } else {
        None
    }
}

/// How an id of no published application goes when it is removed: an id
/// of the anonymous shape is disabled, any other uninstalled.
pub open spec fn removal_of(id: Seq<char>) -> InstanceAction {
    if spec_is_anonymous_instance(id) {
        InstanceAction::Disable
    } else {
        InstanceAction::Uninstall
    }
}

/// The action for an enabled id.
/// - An instance of a published application that is not eligible goes: its
///   anonymous instance (the published id itself) is disabled, an
///   identified one uninstalled. The anonymous instance of a paused
///   application is disabled. Other instances are kept.
/// - A service-logging companion goes with its parent: disabled when the
///   parent is published and not eligible (its anonymous instance is then
///   disabled); when the parent is no longer published, removed as the
///   parent would be if it carries the hosted prefix; kept otherwise.
/// - Any other id is kept if it is infrastructure, else removed by its
///   shape.
pub open spec fn spec_instance_action(
    published: Seq<PublishedHapp>,
    id: Seq<char>,
    ctx: EligibilityContext,
) -> InstanceAction {
    match published_match(published, id) {
        Some(i) => if !spec_eligible(published[i], ctx) {
            if id == published[i].bundle.happ_id@ {
                InstanceAction::Disable
            } else {
                InstanceAction::Uninstall
            }
        } else if published[i].bundle.is_paused && id == published[i].bundle.happ_id@ {
            InstanceAction::Disable
        } else {
            InstanceAction::Keep
        },
        None => match companion_parent(id) {
            Some(h) => match published_index(published, h) {
                Some(i) => if !spec_eligible(published[i], ctx) {
                    InstanceAction::Disable
                } else {
                    InstanceAction::Keep
                },
                None => if has_prefix(id, hosted_prefix()) {
                    removal_of(h)
                } else {
                    InstanceAction::Keep
                },
            },
            None => if !spec_is_hosted_happ(id) {
                InstanceAction::Keep
            } else {
                removal_of(id)
            },
        },
    }
}

/// The ids of a list, as a set.
pub open spec fn id_set(ids: Seq<String>) -> Set<Seq<char>> {
    Set::new(|x: Seq<char>| id_views(ids).contains(x))
}

/// The index of the first published application of which `installed_app_id`
/// is an instance.
pub fn find_published_happ(published: &Vec<PublishedHapp>, installed_app_id: &str) -> (r: Option<
    usize,
>)
    ensures
        match published_match(published@, installed_app_id@) {
            Some(i) => r == Some(i as usize),
            None => r.is_none(),
        },
        r matches Some(i) ==> i < published@.len() && published_match(published@, installed_app_id@)
            == Some(i as int),
{
    let mut i: usize = 0;
    while i < published.len()
        invariant
            i <= published@.len(),
            match_index(published@, installed_app_id@, i as int).is_none(),
        decreases published@.len() - i,
    {
        if is_instance_of_happ(published[i].bundle.happ_id.as_str(), installed_app_id) {
            proof {
                lemma_match_index_stable(
                    published@,
                    installed_app_id@,
                    i + 1,
                    published@.len() as int,
                );
            }
            return Some(i);
        }
        i = i + 1;
    }
    None
}

/// A match by id found among the first `k` entries stays the match among
/// more.
pub proof fn lemma_id_index_stable(published: Seq<PublishedHapp>, id: Seq<char>, k: int, n: int)
    requires
        k <= n,
        id_index(published, id, k).is_some(),
    ensures
        id_index(published, id, n) == id_index(published, id, k),
    decreases n - k,
{
    if k < n {
        lemma_id_index_stable(published, id, k, n - 1);
    }
}

/// A match by id among the first `n` entries is one of them.
pub proof fn lemma_id_index_range(published: Seq<PublishedHapp>, id: Seq<char>, n: int)
    ensures
        match id_index(published, id, n) {
            Some(i) => 0 <= i < n && published[i].bundle.happ_id@ == id,
            None => forall|j: int| 0 <= j < n ==> published[j].bundle.happ_id@ != id,
        },
    decreases n,
{
    if n > 0 {
        lemma_id_index_range(published, id, n - 1);
    }
}

/// The index of the first published application whose id is `id`.
pub fn find_published_id(published: &Vec<PublishedHapp>, id: &str) -> (r: Option<usize>)
    ensures
        match published_index(published@, id@) {
            Some(i) => r == Some(i as usize),
            None => r.is_none(),
        },
        r matches Some(i) ==> i < published@.len() && published_index(published@, id@) == Some(
            i as int,
        ),
{
    let mut i: usize = 0;
    while i < published.len()
        invariant
            i <= published@.len(),
            id_index(published@, id@, i as int).is_none(),
        decreases published@.len() - i,
    {
        if same_text(published[i].bundle.happ_id.as_str(), id) {
            proof {
                lemma_id_index_stable(published@, id@, i + 1, published@.len() as int);
            }
            return Some(i);
        }
        i = i + 1;
    }
    None
}

/// The parent of `installed_app_id` if it is a service-logging companion.
pub fn companion_parent_of<'a>(installed_app_id: &'a str) -> (r: Option<&'a str>)
    ensures
        match companion_parent(installed_app_id@) {
            Some(h) => r matches Some(x) && x@ == h,
            None => r.is_none(),
        },
{
    proof {
        lemma_markers();
    }
    if ends_with(installed_app_id, SERVICELOGGER_SUFFIX) {
        let n = installed_app_id.unicode_len();
        let k = SERVICELOGGER_SUFFIX.unicode_len();
        Some(installed_app_id.substring_char(0, n - k))
    } else {
        None
    }
}

/// How an unpublished id goes when it is removed.
pub fn removal_by_shape(id: &str) -> (r: InstanceAction)
    ensures
        r == removal_of(id@),
{
    if is_anonymous_instance(id) {
        InstanceAction::Disable
    } else {
        InstanceAction::Uninstall
    }
}

/// Whether the application is eligible under the run's context.
pub fn is_eligible(p: &PublishedHapp, ctx: &EligibilityContext) -> (r: bool)
    ensures
        r == spec_eligible(*p, *ctx),
{
    should_be_enabled(
        p.bundle.happ_id.as_str(),
        &ctx.suspended_happs,
        &ctx.host_credentials,
        &ctx.host_happ_preferences,
        &p.details,
    )
}

/// What to do with the enabled installed id `installed_app_id`.
pub fn instance_action(
    published: &Vec<PublishedHapp>,
    installed_app_id: &str,
    ctx: &EligibilityContext,
) -> (r: InstanceAction)
    ensures
        r == spec_instance_action(published@, installed_app_id@, *ctx),
{
    proof {
        lemma_markers();
    }
    match find_published_happ(published, installed_app_id) {
        Some(i) => {
            let p = &published[i];
            assert(published_match(published@, installed_app_id@) == Some(i as int));
            assert(*p == published@[i as int]);
            let anonymous = same_text(installed_app_id, p.bundle.happ_id.as_str());
            if !is_eligible(p, ctx) {
                if anonymous {
                    InstanceAction::Disable
                } else {
                    InstanceAction::Uninstall
                }
            } else if p.bundle.is_paused && anonymous {
                InstanceAction::Disable
            } else {
                InstanceAction::Keep
            }
        },
        None => match companion_parent_of(installed_app_id) {
            Some(h) => match find_published_id(published, h) {
                Some(i) => {
                    if !is_eligible(&published[i], ctx) {
                        InstanceAction::Disable
                    } else {
                        InstanceAction::Keep
                    }
                },
                None => {
                    if starts_with(installed_app_id, HOSTED_PREFIX) {
                        removal_by_shape(h)
                    } else {
                        InstanceAction::Keep
                    }
                },
            },
            None => {
                if !is_hosted_happ(installed_app_id) {
                    InstanceAction::Keep
                } else {
                    removal_by_shape(installed_app_id)
                }
            },
        },
    }
}

/// Whether `installed_app_id` is the service-logging companion of `happ_id`.
pub fn is_servicelogger_of(happ_id: &str, installed_app_id: &str) -> (r: bool)
    ensures
        r == (installed_app_id@ == servicelogger_id(happ_id@)),
{
    proof {
        lemma_markers();
        lemma_prefix_concat(installed_app_id@, happ_id@, servicelogger_suffix());
    }
    let n = installed_app_id.unicode_len();
    let m = happ_id.unicode_len();
    let k = SERVICELOGGER_SUFFIX.unicode_len();
    if n < m || n - m != k {
        assert(installed_app_id@.len() != servicelogger_id(happ_id@).len());
        return false;
    }
    let r = starts_with(installed_app_id, happ_id) && matches_at(
        installed_app_id,
        SERVICELOGGER_SUFFIX,
        m,
    );
    proof {
        assert(installed_app_id@.subrange(0, n as int) =~= installed_app_id@);
        assert(servicelogger_id(happ_id@).len() == n);
    }
    r
}

/// Whether the application runs here: its presence id is in the enabled
/// snapshot and hosting is switched on for it in the registry.
pub fn is_present(bundle: &HappBundle, enabled_happ_ids: &Vec<String>) -> (r: bool)
    ensures
        r == (id_set(enabled_happ_ids@).contains(presence_id(*bundle))
            && bundle.host_settings.is_enabled),
{
    if !bundle.host_settings.is_enabled {
        return false;
    }
    let special = bundle.special_installed_app_id.is_some();
    let mut i: usize = 0;
    while i < enabled_happ_ids.len()
        invariant
            i <= enabled_happ_ids@.len(),
            special == bundle.special_installed_app_id.is_some(),
            bundle.host_settings.is_enabled,
            forall|k: int| 0 <= k < i ==> (#[trigger] enabled_happ_ids@[k])@ != presence_id(*bundle),
        decreases enabled_happ_ids@.len() - i,
    {
        let id = enabled_happ_ids[i].as_str();
        let hit = if special {
            is_servicelogger_of(bundle.happ_id.as_str(), id)
        } else {
            same_text(id, bundle.happ_id.as_str())
        };
        if hit {
            assert(id_views(enabled_happ_ids@)[i as int] == presence_id(*bundle));
            return true;
        }
        i = i + 1;
    }
    assert(!id_views(enabled_happ_ids@).contains(presence_id(*bundle))) by {
        if id_views(enabled_happ_ids@).contains(presence_id(*bundle)) {
            let k = choose|k: int|
                0 <= k < id_views(enabled_happ_ids@).len() && id_views(enabled_happ_ids@)[k]
                    == presence_id(*bundle);
            assert(enabled_happ_ids@[k]@ == presence_id(*bundle));
        }
    }
    false
}

/// The indices of the published applications that need an install, in
/// order. An installed application that its publisher paused is not
/// installed again here; the disable of its anonymous instance is planned by
/// `handle_ineligible_happs` (see `spec_instance_action`).
pub fn install_holo_hosted_happs(
    published: &Vec<PublishedHapp>,
    enabled_happ_ids: &Vec<String>,
    ctx: &EligibilityContext,
) -> (r: Vec<usize>)
    ensures
        forall|k: int|
            0 <= k < r@.len() ==> (#[trigger] r@[k]) < published@.len() && spec_install_needed(
                published@[r@[k] as int],
                id_set(enabled_happ_ids@),
                *ctx,
            ),
        forall|k: int, l: int| 0 <= k < l < r@.len() ==> r@[k] < r@[l],
        forall|i: int|
            0 <= i < published@.len() && spec_install_needed(
                #[trigger] published@[i],
                id_set(enabled_happ_ids@),
                *ctx,
            ) ==> r@.contains(i as usize),
{
    let mut r: Vec<usize> = Vec::new();
    let mut i: usize = 0;
    while i < published.len()
        invariant
            i <= published@.len(),
            forall|k: int|
                0 <= k < r@.len() ==> (#[trigger] r@[k]) < i && spec_install_needed(
                    published@[r@[k] as int],
                    id_set(enabled_happ_ids@),
                    *ctx,
                ),
            forall|k: int, l: int| 0 <= k < l < r@.len() ==> r@[k] < r@[l],
            forall|j: int|
                0 <= j < i && spec_install_needed(
                    #[trigger] published@[j],
                    id_set(enabled_happ_ids@),
                    *ctx,
                ) ==> r@.contains(j as usize),
        decreases published@.len() - i,
    {
        let p = &published[i];
        let ghost old_r = r@;
        if is_eligible(p, ctx) && !p.bundle.is_paused && !is_present(&p.bundle, enabled_happ_ids) {
            r.push(i);
            assert(r@[r@.len() - 1] == i);
        }
        assert forall|j: int|
            0 <= j < i + 1 && spec_install_needed(
                #[trigger] published@[j],
                id_set(enabled_happ_ids@),
                *ctx,
            ) implies r@.contains(j as usize) by {
            if j == i {
                assert(r@[r@.len() - 1] == i);
            } else {
                let k = choose|k: int| 0 <= k < old_r.len() && old_r[k] == j as usize;
                assert(r@[k] == old_r[k]);
            }
        }
        i = i + 1;
    }
    r
}

/// The published applications to disable in the registry, one for each
/// enabled id among the first `k` that is an instance of an ineligible one.
pub open spec fn holo_disable_upto(
    published: Seq<PublishedHapp>,
    ids: Seq<String>,
    ctx: EligibilityContext,
    k: int,
) -> Seq<Seq<char>>
    decreases k,
{
    if k <= 0 {
        Seq::empty()
    } else {
        let prev = holo_disable_upto(published, ids, ctx, k - 1);
        match published_match(published, ids[k - 1]@) {
            Some(i) => if !spec_eligible(published[i], ctx) {
                prev.push(published[i].bundle.happ_id@)
            } else {
                prev
            },
            None => prev,
        }
    }
}

/// What to do with each enabled id, and which applications to disable in
/// the registry.
#[derive(Clone, Debug)]
pub struct IneligiblePlan {
    /// The enabled ids of the snapshot, without repeats.
    pub enabled_happ_ids: Vec<String>,
    /// `actions[k]` is for `enabled_happ_ids[k]`.
    pub actions: Vec<InstanceAction>,
    /// Ineligible applications with an enabled instance, without repeats.
    pub holo_disable: Vec<String>,
}

/// The removal of ineligible instances, from one snapshot of the enabled
/// installed ids.
pub fn handle_ineligible_happs(
    published: &Vec<PublishedHapp>,
    enabled_happ_ids: &Vec<String>,
    ctx: &EligibilityContext,
) -> (r: IneligiblePlan)
    ensures
        id_views(r.enabled_happ_ids@) == dedup_first(id_views(enabled_happ_ids@)),
        r.actions@.len() == r.enabled_happ_ids@.len(),
        forall|k: int|
            0 <= k < r.actions@.len() ==> #[trigger] r.actions@[k] == spec_instance_action(
                published@,
                r.enabled_happ_ids@[k]@,
                *ctx,
            ),
        id_views(r.holo_disable@) == dedup_first(
            holo_disable_upto(
                published@,
                r.enabled_happ_ids@,
                *ctx,
                r.enabled_happ_ids@.len() as int,
            ),
        ),
{
    let ids = unique_ids(enabled_happ_ids);
    let mut actions: Vec<InstanceAction> = Vec::new();
    let mut disable: Vec<String> = Vec::new();
    let mut k: usize = 0;
    while k < ids.len()
        invariant
            k <= ids@.len(),
            actions@.len() == k,
            forall|j: int|
                0 <= j < k ==> #[trigger] actions@[j] == spec_instance_action(
                    published@,
                    ids@[j]@,
                    *ctx,
                ),
            id_views(disable@) == holo_disable_upto(published@, ids@, *ctx, k as int),
        decreases ids@.len() - k,
    {
        let id = ids[k].as_str();
        actions.push(instance_action(published, id, ctx));
        match find_published_happ(published, id) {
            Some(i) => {
                if !is_eligible(&published[i], ctx) {
                    disable.push(published[i].bundle.happ_id.clone());
                }
            },
            None => {},
        }
        assert(id_views(disable@) =~= holo_disable_upto(published@, ids@, *ctx, k + 1));
        k = k + 1;
    }
    let holo_disable = unique_ids(&disable);
    IneligiblePlan { enabled_happ_ids: ids, actions, holo_disable }
}

/// Every change of one run: the installs, then the removals.
#[derive(Clone, Debug)]
pub struct ReconciliationPlan {
    /// Indices of the published applications to install and enable.
    pub installs: Vec<usize>,
    pub ineligible: IneligiblePlan,
}

/// Whether two lists hold the same ids in the same order.
pub fn same_ids(a: &Vec<String>, b: &Vec<String>) -> (r: bool)
    ensures
        r == (id_views(a@) == id_views(b@)),
{
    if a.len() != b.len() {
        assert(id_views(a@).len() != id_views(b@).len());
        return false;
    }
    let mut i: usize = 0;
    while i < a.len()
        invariant
            a@.len() == b@.len(),
            i <= a@.len(),
            forall|k: int| 0 <= k < i ==> (#[trigger] a@[k])@ == b@[k]@,
        decreases a@.len() - i,
    {
        if !same_text(a[i].as_str(), b[i].as_str()) {
            assert(id_views(a@)[i as int] != id_views(b@)[i as int]);
            return false;
        }
        i = i + 1;
    }
    assert(id_views(a@) =~= id_views(b@));
    true
}

/// Whether the details of `p` repeat what its bundle says.
pub fn is_consistent(p: &PublishedHapp) -> (r: bool)
    ensures
        r == happ_consistent(*p),
{
    same_ids(&p.details.happ_jurisdictions, &p.bundle.jurisdictions)
        && p.details.should_exclude_happ_jurisdictions == p.bundle.exclude_jurisdictions
        && same_ids(&p.details.happ_categories, &p.bundle.categories)
        && p.details.is_disabled_by_host == p.bundle.host_settings.is_host_disabled
}

/// Whether the list of published applications is valid.
pub fn validate_published(published: &Vec<PublishedHapp>) -> (r: bool)
    ensures
        r == published_well_formed(published@),
{
    let n = published.len();
    let mut i: usize = 0;
    while i < n
        invariant
            n == published@.len(),
            i <= n,
            forall|k: int| 0 <= k < i ==> happ_consistent(#[trigger] published@[k]),
            forall|k: int| 0 <= k < i ==> colon_free((#[trigger] published@[k]).bundle.happ_id@),
            forall|k: int, l: int|
                0 <= k < i && 0 <= l < n && k != l ==> (#[trigger] published@[k]).bundle.happ_id@
                    != (#[trigger] published@[l]).bundle.happ_id@,
        decreases n - i,
    {
        let p = &published[i];
        if !is_consistent(p) {
            return false;
        }
        if !is_colon_free(p.bundle.happ_id.as_str()) {
            return false;
        }
        let mut j: usize = 0;
        while j < n
            invariant
                n == published@.len(),
                i < n,
                j <= n,
                *p == published@[i as int],
                forall|l: int|
                    0 <= l < j && l != i ==> published@[i as int].bundle.happ_id@
                        != (#[trigger] published@[l]).bundle.happ_id@,
            decreases n - j,
        {
            if j != i && same_text(p.bundle.happ_id.as_str(), published[j].bundle.happ_id.as_str()) {
                return false;
            }
            j = j + 1;
        }
        i = i + 1;
    }
    true
}

/// The plan of one run, both parts from the same snapshot of enabled ids.
/// The caller establishes that the published list is valid
/// (`validate_published`).
pub fn plan_reconciliation(
    published: &Vec<PublishedHapp>,
    enabled_happ_ids: &Vec<String>,
    ctx: &EligibilityContext,
) -> (r: ReconciliationPlan)
    requires
        published_well_formed(published@),
    ensures
        forall|k: int| 0 <= k < r.installs@.len() ==> (#[trigger] r.installs@[k]) < published@.len(),
        forall|k: int, l: int| 0 <= k < l < r.installs@.len() ==> r.installs@[k] < r.installs@[l],
        forall|i: usize|
            i < published@.len() ==> (r.installs@.contains(i) <==> spec_install_needed(
                #[trigger] published@[i as int],
                id_set(enabled_happ_ids@),
                *ctx,
            )),
        id_set(r.ineligible.enabled_happ_ids@) == id_set(enabled_happ_ids@),
        r.ineligible.actions@.len() == r.ineligible.enabled_happ_ids@.len(),
        forall|k: int|
            0 <= k < r.ineligible.actions@.len() ==> #[trigger] r.ineligible.actions@[k]
                == spec_instance_action(published@, r.ineligible.enabled_happ_ids@[k]@, *ctx),
        id_views(r.ineligible.holo_disable@) == dedup_first(
            holo_disable_upto(
                published@,
                r.ineligible.enabled_happ_ids@,
                *ctx,
                r.ineligible.enabled_happ_ids@.len() as int,
            ),
        ),
{
    let installs = install_holo_hosted_happs(published, enabled_happ_ids, ctx);
    let ineligible = handle_ineligible_happs(published, enabled_happ_ids, ctx);
    proof {
        lemma_dedup_first(id_views(enabled_happ_ids@));
        assert(id_set(ineligible.enabled_happ_ids@) =~= id_set(enabled_happ_ids@));
        assert forall|i: usize|
            i < published@.len() && #[trigger] installs@.contains(i) implies spec_install_needed(
            published@[i as int],
            id_set(enabled_happ_ids@),
            *ctx,
        ) by {
            let k = choose|k: int| 0 <= k < installs@.len() && installs@[k] == i;
            assert(installs@[k] < published@.len());
        }
        assert forall|i: usize|
            i < published@.len() && spec_install_needed(
                #[trigger] published@[i as int],
                id_set(enabled_happ_ids@),
                *ctx,
            ) implies installs@.contains(i) by {
            assert(installs@.contains((i as int) as usize));
        }
    }
    ReconciliationPlan { installs, ineligible }
}

/// The enabled ids after a run on `enabled` has been carried out: the ids
/// kept, and for each install the application's presence id and its
/// service-logging companion.
pub open spec fn spec_state_after(
    published: Seq<PublishedHapp>,
    enabled: Set<Seq<char>>,
    ctx: EligibilityContext,
) -> Set<Seq<char>> {
    Set::new(
        |x: Seq<char>|
            (enabled.contains(x) && spec_instance_action(published, x, ctx) == InstanceAction::Keep)
                || exists|i: int|
                0 <= i < published.len() && spec_install_needed(#[trigger] published[i], enabled, ctx)
                    && (x == presence_id(published[i].bundle) || x == servicelogger_id(
                    published[i].bundle.happ_id@,
                ))
    )
}

/// The id of a published application is an instance of that application
/// alone.
proof fn lemma_own_id_matches(published: Seq<PublishedHapp>, i: int)
    requires
        published_well_formed(published),
        0 <= i < published.len(),
    ensures
        published_match(published, published[i].bundle.happ_id@) == Some(i),
{
    let id = published[i].bundle.happ_id@;
    assert forall|j: int|
        0 <= j < published.len() && spec_is_instance_of_happ(
            #[trigger] published[j].bundle.happ_id@,
            id,
        ) implies j == i by {
        if j != i {
            let h = published[j].bundle.happ_id@;
            lemma_colon_free_no_separator(id);
            lemma_prefix_concat(id, h, instance_separator());
            assert(occurs_at(id, instance_separator(), h.len() as int));
        }
    }
    lemma_match_index_range(published, id, published.len() as int);
}

/// A service-logging companion is an instance of no published application,
/// and is not a hosted application.
proof fn lemma_companion_unmatched(published: Seq<PublishedHapp>, h: Seq<char>)
    requires
        published_well_formed(published),
    ensures
        published_match(published, servicelogger_id(h)).is_none(),
        !spec_is_hosted_happ(servicelogger_id(h)),
{
    let x = servicelogger_id(h);
    let sl = servicelogger_suffix();
    assert(x.subrange(h.len() as int, h.len() + 2int) =~= instance_separator());
    assert(occurs_at(x, instance_separator(), h.len() as int));
    assert(x.subrange(x.len() - sl.len(), x.len() as int) =~= sl);
    assert(has_suffix(x, sl));
    assert(x.subrange(h.len() as int, (h.len() + sl.len()) as int) =~= sl);
    assert(occurs_at(x, sl, h.len() as int));
    assert forall|j: int|
        0 <= j < published.len() implies !spec_is_instance_of_happ(
        #[trigger] published[j].bundle.happ_id@,
        x,
    ) by {
        if published[j].bundle.happ_id@ == x {
            lemma_colon_free_no_separator(published[j].bundle.happ_id@);
            assert(has_infix(published[j].bundle.happ_id@, instance_separator()));
        }
    }
    lemma_match_index_range(published, x, published.len() as int);
}

/// The service-logging companion of an application that should run is
/// kept.
proof fn lemma_companion_kept(published: Seq<PublishedHapp>, i: int, ctx: EligibilityContext)
    requires
        published_well_formed(published),
        0 <= i < published.len(),
        spec_eligible(published[i], ctx),
    ensures
        spec_instance_action(published, servicelogger_id(published[i].bundle.happ_id@), ctx)
            == InstanceAction::Keep,
{
    let h = published[i].bundle.happ_id@;
    let x = servicelogger_id(h);
    lemma_companion_unmatched(published, h);
    assert(x.subrange(0, x.len() - servicelogger_suffix().len()) =~= h);
    lemma_id_index_range(published, h, published.len() as int);
    if published_index(published, h).is_none() {
        assert(published[i].bundle.happ_id@ == h);
    }
}

/// The presence id of an application that should run is kept.
pub proof fn lemma_presence_kept(published: Seq<PublishedHapp>, i: int, ctx: EligibilityContext)
    requires
        published_well_formed(published),
        0 <= i < published.len(),
        spec_wants_running(published[i], ctx),
    ensures
        spec_instance_action(published, presence_id(published[i].bundle), ctx)
            == InstanceAction::Keep,
        spec_instance_action(published, servicelogger_id(published[i].bundle.happ_id@), ctx)
            == InstanceAction::Keep,
{
    lemma_companion_kept(published, i, ctx);
    if published[i].bundle.special_installed_app_id.is_none() {
        lemma_own_id_matches(published, i);
    }
}

/// The published application `i` is disabled in the registry by a run on
/// `enabled`: it is not eligible and some enabled id is an instance of it.
pub open spec fn spec_holo_disabled(
    published: Seq<PublishedHapp>,
    enabled: Set<Seq<char>>,
    ctx: EligibilityContext,
    i: int,
) -> bool {
    !spec_eligible(published[i], ctx) && exists|x: Seq<char>|
        enabled.contains(x) && #[trigger] published_match(published, x) == Some(i)
}

/// The application with hosting switched on or off in the registry.
pub open spec fn with_hosting(p: PublishedHapp, on: bool) -> PublishedHapp {
    PublishedHapp {
        bundle: HappBundle {
            host_settings: HostSettings { is_enabled: on, ..p.bundle.host_settings },
            ..p.bundle
        },
        ..p
    }
}

/// The published applications after a run on `enabled`: hosting is switched
/// on for each install and off for each application disabled in the
/// registry.
pub open spec fn spec_published_after(
    published: Seq<PublishedHapp>,
    enabled: Set<Seq<char>>,
    ctx: EligibilityContext,
) -> Seq<PublishedHapp> {
    Seq::new(
        published.len(),
        |i: int|
            if spec_install_needed(published[i], enabled, ctx) {
                with_hosting(published[i], true)
            } else if spec_holo_disabled(published, enabled, ctx, i) {
                with_hosting(published[i], false)
            } else {
                published[i]
            },
    )
}

/// Two lists of published applications that differ at most in the
/// registry's hosting switch.
pub open spec fn same_but_hosting(a: Seq<PublishedHapp>, b: Seq<PublishedHapp>) -> bool {
    &&& a.len() == b.len()
    &&& forall|i: int|
        0 <= i < a.len() ==> {
            &&& (#[trigger] a[i]).bundle.happ_id@ == b[i].bundle.happ_id@
            &&& a[i].details == b[i].details
            &&& a[i].bundle.is_paused == b[i].bundle.is_paused
            &&& a[i].bundle.special_installed_app_id == b[i].bundle.special_installed_app_id
        }
}

proof fn lemma_same_but_hosting_index(
    a: Seq<PublishedHapp>,
    b: Seq<PublishedHapp>,
    id: Seq<char>,
    n: int,
)
    requires
        same_but_hosting(a, b),
        n <= a.len(),
    ensures
        match_index(a, id, n) == match_index(b, id, n),
        id_index(a, id, n) == id_index(b, id, n),
    decreases n,
{
    if n > 0 {
        lemma_same_but_hosting_index(a, b, id, n - 1);
        assert(a[n - 1].bundle.happ_id@ == b[n - 1].bundle.happ_id@);
    }
}

/// The registry's hosting switch does not change the action for any id.
pub proof fn lemma_action_ignores_hosting(
    a: Seq<PublishedHapp>,
    b: Seq<PublishedHapp>,
    x: Seq<char>,
    ctx: EligibilityContext,
)
    requires
        same_but_hosting(a, b),
    ensures
        spec_instance_action(a, x, ctx) == spec_instance_action(b, x, ctx),
{
    lemma_same_but_hosting_index(a, b, x, a.len() as int);
    match companion_parent(x) {
        Some(h) => lemma_same_but_hosting_index(a, b, h, a.len() as int),
        None => {},
    }
    match published_match(a, x) {
        Some(i) => {
            lemma_match_index_range(a, x, a.len() as int);
            assert(a[i].bundle.happ_id@ == b[i].bundle.happ_id@);
        },
        None => {},
    }
    match companion_parent(x) {
        Some(h) => {
            lemma_id_index_range(a, h, a.len() as int);
            match published_index(a, h) {
                Some(i) => {
                    assert(a[i].bundle.happ_id@ == b[i].bundle.happ_id@);
                },
                None => {},
            }
        },
        None => {},
    }
}

/// Running the engine again on what a run left (the enabled ids it leaves
/// on the conductor and the hosting switches it leaves in the registry),
/// with the same applications otherwise and the same context, changes
/// nothing: every enabled id is kept and no application needs an install
/// (so no application is disabled in the registry either).
pub proof fn lemma_reconciliation_idempotent(
    published: Seq<PublishedHapp>,
    enabled: Set<Seq<char>>,
    ctx: EligibilityContext,
)
    requires
        published_well_formed(published),
    ensures
        published_well_formed(spec_published_after(published, enabled, ctx)),
        forall|x: Seq<char>|
            #[trigger] spec_state_after(published, enabled, ctx).contains(x) ==> spec_instance_action(
                spec_published_after(published, enabled, ctx),
                x,
                ctx,
            ) == InstanceAction::Keep,
        forall|i: int|
            0 <= i < published.len() ==> !spec_install_needed(
                #[trigger] spec_published_after(published, enabled, ctx)[i],
                spec_state_after(published, enabled, ctx),
                ctx,
            ),
{
    let after = spec_state_after(published, enabled, ctx);
    let p2 = spec_published_after(published, enabled, ctx);
    assert(same_but_hosting(published, p2));
    assert forall|i: int| 0 <= i < p2.len() implies happ_consistent(#[trigger] p2[i]) by {
        assert(happ_consistent(published[i]));
    }
    assert forall|i: int, j: int|
        0 <= i < p2.len() && 0 <= j < p2.len() && i != j implies (#[trigger] p2[i]).bundle.happ_id@
        != (#[trigger] p2[j]).bundle.happ_id@ by {
        assert(published[i].bundle.happ_id@ != published[j].bundle.happ_id@);
    }
    assert forall|i: int| 0 <= i < p2.len() implies colon_free((#[trigger] p2[i]).bundle.happ_id@) by {
        assert(colon_free(published[i].bundle.happ_id@));
    }
    assert forall|x: Seq<char>| #[trigger] after.contains(x) implies spec_instance_action(
        p2,
        x,
        ctx,
    ) == InstanceAction::Keep by {
        lemma_action_ignores_hosting(published, p2, x, ctx);
        if !(enabled.contains(x) && spec_instance_action(published, x, ctx)
            == InstanceAction::Keep) {
            let i = choose|i: int|
                0 <= i < published.len() && spec_install_needed(#[trigger] published[i], enabled, ctx)
                    && (x == presence_id(published[i].bundle) || x == servicelogger_id(
                    published[i].bundle.happ_id@,
                ));
            lemma_presence_kept(published, i, ctx);
        }
    }
    assert forall|i: int| 0 <= i < published.len() implies !spec_install_needed(
        #[trigger] p2[i],
        after,
        ctx,
    ) by {
        assert(spec_wants_running(p2[i], ctx) == spec_wants_running(published[i], ctx));
        if spec_wants_running(published[i], ctx) {
            lemma_presence_kept(published, i, ctx);
            let x = presence_id(published[i].bundle);
            assert(presence_id(p2[i].bundle) == x);
            if spec_install_needed(published[i], enabled, ctx) {
                assert(after.contains(x));
            } else {
                assert(p2[i] == published[i]);
                assert(after.contains(x));
            }
        }
    }
}

/// Where every enabled id is kept, no application is disabled in the
/// registry.
pub proof fn lemma_kept_ids_disable_nothing(
    published: Seq<PublishedHapp>,
    ids: Seq<String>,
    ctx: EligibilityContext,
    k: int,
)
    requires
        k <= ids.len(),
        forall|j: int|
            0 <= j < k ==> spec_instance_action(published, (#[trigger] ids[j])@, ctx)
                == InstanceAction::Keep,
    ensures
        holo_disable_upto(published, ids, ctx, k) == Seq::<Seq<char>>::empty(),
    decreases k,
{
    if k > 0 {
        lemma_kept_ids_disable_nothing(published, ids, ctx, k - 1);
        assert(spec_instance_action(published, ids[k - 1]@, ctx) == InstanceAction::Keep);
    }
}

/// A run never works against itself: no instance of an application that it
/// installs is disabled or uninstalled in the same run, and no application
/// that already runs is installed again.
pub proof fn lemma_no_conflicting_actions(
    published: Seq<PublishedHapp>,
    enabled: Set<Seq<char>>,
    ctx: EligibilityContext,
    i: int,
    x: Seq<char>,
)
    requires
        0 <= i < published.len(),
        spec_install_needed(published[i], enabled, ctx),
        published_match(published, x) == Some(i),
    ensures
        spec_instance_action(published, x, ctx) == InstanceAction::Keep,
        !spec_running(published[i], enabled),
{
}

/// Every enabled instance of an application that is not eligible goes, and
/// so does its service-logging companion: the anonymous instance and the
/// companion are disabled, every identified instance is uninstalled.
pub proof fn lemma_ineligible_app_removed(
    published: Seq<PublishedHapp>,
    ctx: EligibilityContext,
    i: int,
    x: Seq<char>,
)
    requires
        published_well_formed(published),
        0 <= i < published.len(),
        !spec_eligible(published[i], ctx),
        x == servicelogger_id(published[i].bundle.happ_id@) || spec_is_instance_of_happ(
            published[i].bundle.happ_id@,
            x,
        ),
    ensures
        x == published[i].bundle.happ_id@ || x == servicelogger_id(published[i].bundle.happ_id@)
            ==> spec_instance_action(published, x, ctx) == InstanceAction::Disable,
        spec_is_instance_of_happ(published[i].bundle.happ_id@, x) && x != published[i].bundle.happ_id@
            ==> spec_instance_action(published, x, ctx) == InstanceAction::Uninstall,
{
    let h = published[i].bundle.happ_id@;
    if spec_is_instance_of_happ(h, x) {
        lemma_match_unique(published, x, i);
        if x == servicelogger_id(h) {
            let sl = servicelogger_suffix();
            assert(x.subrange(x.len() - sl.len(), x.len() as int) =~= sl);
            assert(x.subrange(0, h.len() as int) =~= h);
        }
    } else {
        lemma_companion_unmatched(published, h);
        assert(x.subrange(0, x.len() - servicelogger_suffix().len()) =~= h);
        assert(x.subrange(x.len() - servicelogger_suffix().len(), x.len() as int)
            =~= servicelogger_suffix());
        lemma_id_index_range(published, h, published.len() as int);
        if published_index(published, h).is_none() {
            assert(published[i].bundle.happ_id@ == h);
        }
    }
}

/// Every enabled instance of a suspended application goes, with its
/// service-logging companion, whatever the host's credentials, preferences
/// and the application's details.
pub proof fn lemma_suspended_app_removed(
    published: Seq<PublishedHapp>,
    ctx: EligibilityContext,
    i: int,
    x: Seq<char>,
)
    requires
        published_well_formed(published),
        0 <= i < published.len(),
        list_has(ctx.suspended_happs@, published[i].bundle.happ_id@),
        x == servicelogger_id(published[i].bundle.happ_id@) || spec_is_instance_of_happ(
            published[i].bundle.happ_id@,
            x,
        ),
    ensures
        spec_instance_action(published, x, ctx) != InstanceAction::Keep,
{
    lemma_suspension_precedence(
        published[i].bundle.happ_id@,
        ctx.suspended_happs@,
        ctx.host_credentials,
        ctx.host_happ_preferences,
        published[i].details,
    );
    lemma_ineligible_app_removed(published, ctx, i, x);
}

/// In a valid list an installed id is an instance of one published
/// application at most, and the engine matches it to that one.
pub proof fn lemma_match_unique(published: Seq<PublishedHapp>, x: Seq<char>, i: int)
    requires
        published_well_formed(published),
        0 <= i < published.len(),
        spec_is_instance_of_happ(published[i].bundle.happ_id@, x),
    ensures
        published_match(published, x) == Some(i),
{
    assert forall|j: int|
        0 <= j < published.len() && spec_is_instance_of_happ(
            #[trigger] published[j].bundle.happ_id@,
            x,
        ) implies j == i by {
        if j != i {
            let a = published[i].bundle.happ_id@;
            let b = published[j].bundle.happ_id@;
            let la = a.len() as int;
            let lb = b.len() as int;
            lemma_colon_free_no_separator(a);
            lemma_colon_free_no_separator(b);
            lemma_prefix_concat(x, a, instance_separator());
            lemma_prefix_concat(x, b, instance_separator());
            if x != a && x != b {
                assert(x.subrange(la, la + 2)[0] == x[la]);
                assert(x.subrange(lb, lb + 2)[0] == x[lb]);
                if la < lb {
                    assert(x.subrange(0, lb)[la] == x[la]);
                    assert(b[la] == ':');
                } else if lb < la {
                    assert(x.subrange(0, la)[lb] == x[lb]);
                    assert(a[lb] == ':');
                } else {
                    assert(a == b);
                }
            } else if x == a {
                assert(occurs_at(a, instance_separator(), lb));
            } else {
                assert(occurs_at(b, instance_separator(), la));
            }
        }
    }
    lemma_match_index_range(published, x, published.len() as int);
}

/// The applications that a plan disables in the registry are exactly the
/// ineligible applications of which some enabled id is an instance.
pub proof fn lemma_holo_disable_exact(
    published: Seq<PublishedHapp>,
    ids: Seq<String>,
    ctx: EligibilityContext,
    n: int,
)
    requires
        published_well_formed(published),
        0 <= n <= ids.len(),
    ensures
        forall|h: Seq<char>|
            #[trigger] holo_disable_upto(published, ids, ctx, n).contains(h) <==> exists|i: int, k: int|
                0 <= i < published.len() && 0 <= k < n && spec_is_instance_of_happ(
                    (#[trigger] published[i]).bundle.happ_id@,
                    (#[trigger] ids[k])@,
                ) && !spec_eligible(published[i], ctx) && h == published[i].bundle.happ_id@,
    decreases n,
{
    if n > 0 {
        lemma_holo_disable_exact(published, ids, ctx, n - 1);
        let prev = holo_disable_upto(published, ids, ctx, n - 1);
        let cur = holo_disable_upto(published, ids, ctx, n);
        let x = ids[n - 1]@;
        lemma_match_index_range(published, x, published.len() as int);
        assert forall|h: Seq<char>| #[trigger] cur.contains(h) <==> exists|i: int, k: int|
            0 <= i < published.len() && 0 <= k < n && spec_is_instance_of_happ(
                (#[trigger] published[i]).bundle.happ_id@,
                (#[trigger] ids[k])@,
            ) && !spec_eligible(published[i], ctx) && h == published[i].bundle.happ_id@ by {
            if cur.contains(h) {
                if prev.contains(h) {
                    let (i, k) = choose|i: int, k: int|
                        0 <= i < published.len() && 0 <= k < n - 1 && spec_is_instance_of_happ(
                            (#[trigger] published[i]).bundle.happ_id@,
                            (#[trigger] ids[k])@,
                        ) && !spec_eligible(published[i], ctx) && h == published[i].bundle.happ_id@;
                    assert(0 <= k < n);
                } else {
                    let m = choose|m: int| 0 <= m < cur.len() && cur[m] == h;
                    match published_match(published, x) {
                        Some(i) => {
                            if !spec_eligible(published[i], ctx) {
                                assert(cur == prev.push(published[i].bundle.happ_id@));
                                if m < prev.len() {
                                    assert(prev[m] == h);
                                }
                                assert(spec_is_instance_of_happ(
                                    published[i].bundle.happ_id@,
                                    ids[n - 1]@,
                                ));
                            } else {
                                assert(cur == prev);
                            }
                        },
                        None => {
                            assert(cur == prev);
                        },
                    }
                }
            }
            if exists|i: int, k: int|
                0 <= i < published.len() && 0 <= k < n && spec_is_instance_of_happ(
                    (#[trigger] published[i]).bundle.happ_id@,
                    (#[trigger] ids[k])@,
                ) && !spec_eligible(published[i], ctx) && h == published[i].bundle.happ_id@ {
                let (i, k) = choose|i: int, k: int|
                    0 <= i < published.len() && 0 <= k < n && spec_is_instance_of_happ(
                        (#[trigger] published[i]).bundle.happ_id@,
                        (#[trigger] ids[k])@,
                    ) && !spec_eligible(published[i], ctx) && h == published[i].bundle.happ_id@;
                if k < n - 1 {
                    assert(prev.contains(h));
                    let m = choose|m: int| 0 <= m < prev.len() && prev[m] == h;
                    assert(cur == prev || cur == prev.push(cur.last()));
                    assert(cur[m] == h);
                } else {
                    lemma_match_unique(published, x, i);
                    assert(cur == prev.push(h));
                    assert(cur[cur.len() - 1] == h);
                }
            }
        }
    }
}

} // verus!
