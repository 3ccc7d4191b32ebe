//! Classification of installed application ids reported by the conductor.
//!
//! An installed id is one of: a core infrastructure application (never
//! touched), an anonymous instance (the published id itself), an identified
//! instance (`<published id>::<agent>`), or a service-logging companion
//! (`<published id>::servicelogger`).
use vstd::prelude::*;
use crate::text::{
    has_prefix, has_suffix, has_infix, lemma_prefix_concat, matches_at, same_text,
    starts_with, ends_with, contains,
};

verus! {

/// Prefix that every hosted application id carries.
pub const HOSTED_PREFIX: &'static str = "uhCkk";

/// Marker of a service-logging companion instance.
pub const SERVICELOGGER_SUFFIX: &'static str = "::servicelogger";

/// Separator between a published id and the agent of an identified instance.
pub const INSTANCE_SEPARATOR: &'static str = "::";

/// Number of characters in an anonymous instance id.
pub const ANONYMOUS_ID_LEN: usize = 53;

pub open spec fn hosted_prefix() -> Seq<char> {
    seq!['u', 'h', 'C', 'k', 'k']
}

pub open spec fn instance_separator() -> Seq<char> {
    seq![':', ':']
}

pub open spec fn servicelogger_suffix() -> Seq<char> {
    instance_separator() + seq!['s', 'e', 'r', 'v', 'i', 'c', 'e', 'l', 'o', 'g', 'g', 'e', 'r']
}

/// The marker literals hold the characters of their spec counterparts.
pub proof fn lemma_markers()
    ensures
        HOSTED_PREFIX@ == hosted_prefix(),
        SERVICELOGGER_SUFFIX@ == servicelogger_suffix(),
        INSTANCE_SEPARATOR@ == instance_separator(),
{
    reveal_strlit("uhCkk");
    reveal_strlit("::servicelogger");
    reveal_strlit("::");
    assert(HOSTED_PREFIX@ =~= hosted_prefix());
    assert(SERVICELOGGER_SUFFIX@ =~= servicelogger_suffix());
    assert(INSTANCE_SEPARATOR@ =~= instance_separator());
}

/// The id of the service-logging companion of a published application.
pub open spec fn servicelogger_id(happ_id: Seq<char>) -> Seq<char> {
    happ_id + servicelogger_suffix()
}

/// A hosted application that may be disabled or uninstalled: it carries the
/// hosted prefix and is not a service-logging companion.
pub open spec fn spec_is_hosted_happ(id: Seq<char>) -> bool {
    has_prefix(id, hosted_prefix()) && !has_infix(id, servicelogger_suffix())
}

/// An id with the shape of an anonymous instance.
pub open spec fn spec_is_anonymous_instance(id: Seq<char>) -> bool {
    has_prefix(id, hosted_prefix()) && id.len() == ANONYMOUS_ID_LEN
}

/// `installed` is the anonymous instance of `happ_id`, or one of its
/// identified instances (`happ_id::agent`, not a service-logging companion).
pub open spec fn spec_is_instance_of_happ(happ_id: Seq<char>, installed: Seq<char>) -> bool {
    installed == happ_id || (has_prefix(installed, happ_id + instance_separator()) && !has_suffix(
        installed,
        servicelogger_suffix(),
    ))
}

/// Whether the installed id belongs to a hosted application rather than to
/// the core infrastructure.
pub fn is_hosted_happ(installed_app_id: &str) -> (r: bool)
    ensures
        r == spec_is_hosted_happ(installed_app_id@),
{
    proof {
        lemma_markers();
    }
    starts_with(installed_app_id, HOSTED_PREFIX) && !contains(
        installed_app_id,
        SERVICELOGGER_SUFFIX,
    )
}

/// Whether the installed id has the shape of an anonymous instance.
pub fn is_anonymous_instance(installed_app_id: &str) -> (r: bool)
    ensures
        r == spec_is_anonymous_instance(installed_app_id@),
{
    proof {
        lemma_markers();
    }
    starts_with(installed_app_id, HOSTED_PREFIX) && installed_app_id.unicode_len()
        == ANONYMOUS_ID_LEN
}

/// Whether `installed_app_id` is an anonymous or identified instance of the
/// published application `happ_id`.
pub fn is_instance_of_happ(happ_id: &str, installed_app_id: &str) -> (r: bool)
    ensures
        r == spec_is_instance_of_happ(happ_id@, installed_app_id@),
{
    proof {
        lemma_markers();
        lemma_prefix_concat(installed_app_id@, happ_id@, instance_separator());
    }
    if same_text(happ_id, installed_app_id) {
        return true;
    }
    if !starts_with(installed_app_id, happ_id) {
        return false;
    }
    let at = happ_id.unicode_len();
    matches_at(installed_app_id, INSTANCE_SEPARATOR, at) && !ends_with(
        installed_app_id,
        SERVICELOGGER_SUFFIX,
    )
}

/// The four kinds of installed application ids.
#[derive(PartialEq, Eq, Structural, Clone, Copy, Debug)]
pub enum InstanceKind {
    Infrastructure,
    AnonymousInstance,
    IdentifiedInstance,
    ServiceLogCompanion,
}

/// The kind named by the naming conventions, tested in turn.
pub open spec fn spec_classify_instance(id: Seq<char>) -> InstanceKind {
    if !has_prefix(id, hosted_prefix()) {
        InstanceKind::Infrastructure
    } else if has_infix(id, servicelogger_suffix()) {
        InstanceKind::ServiceLogCompanion
    } else if id.len() == ANONYMOUS_ID_LEN {
        InstanceKind::AnonymousInstance
    } else {
        InstanceKind::IdentifiedInstance
    }
}

/// What it means for an id to be of a given kind, each stated on its own.
pub open spec fn is_of_kind(kind: InstanceKind, id: Seq<char>) -> bool {
    match kind {
        InstanceKind::Infrastructure => !has_prefix(id, hosted_prefix()),
        InstanceKind::ServiceLogCompanion => has_prefix(id, hosted_prefix()) && has_infix(
            id,
            servicelogger_suffix(),
        ),
        InstanceKind::AnonymousInstance => spec_is_hosted_happ(id) && spec_is_anonymous_instance(
            id,
        ),
        InstanceKind::IdentifiedInstance => spec_is_hosted_happ(id) && !spec_is_anonymous_instance(
            id,
        ),
    }
}

/// Classifies an installed id by the naming conventions.
pub fn classify_instance(installed_app_id: &str) -> (r: InstanceKind)
    ensures
        r == spec_classify_instance(installed_app_id@),
        is_of_kind(r, installed_app_id@),
{
    proof {
        lemma_markers();
    }
    if !starts_with(installed_app_id, HOSTED_PREFIX) {
        InstanceKind::Infrastructure
    } else if contains(installed_app_id, SERVICELOGGER_SUFFIX) {
        InstanceKind::ServiceLogCompanion
    } else if installed_app_id.unicode_len() == ANONYMOUS_ID_LEN {
        InstanceKind::AnonymousInstance
    } else {
        InstanceKind::IdentifiedInstance
    }
}

/// Classification is total and exclusive: every installed id is of exactly
/// one kind, the one that the classifier names.
pub proof fn lemma_classification_total(id: Seq<char>)
    ensures
        is_of_kind(spec_classify_instance(id), id),
        forall|k: InstanceKind| #[trigger] is_of_kind(k, id) ==> k == spec_classify_instance(id),
{
}

} // verus!
