//! Run configuration, the core applications' installed ids, and the
//! read-only membrane proofs handed to the installer.
use vstd::prelude::*;
use crate::text::{has_prefix, has_infix, matches_at, contains};

verus! {

/// Default port of the conductor's admin interface.
pub const DEFAULT_ADMIN_PORT: u16 = 4444;

/// Default port of the conductor's application interface.
pub const DEFAULT_HAPP_PORT: u16 = 42233;

/// The run's configuration.
#[derive(Clone, Debug)]
pub struct Config {
    /// Port of the conductor's admin interface.
    pub admin_port: u16,
    /// Port of the conductor's application interface.
    pub happ_port: u16,
    /// URL at which the keystore runs.
    pub lair_url: String,
    /// Path to a YAML file with the lists of applications to install.
    pub happs_file_path: String,
}

impl Config {
    /// The configuration from the values given on the command line or in the
    /// environment; a port not given takes its default.
    pub fn load(
        admin_port: Option<u16>,
        happ_port: Option<u16>,
        lair_url: String,
        happs_file_path: String,
    ) -> (r: Config)
        ensures
            r.admin_port == (match admin_port {
                Some(p) => p,
                None => DEFAULT_ADMIN_PORT,
            }),
            r.happ_port == (match happ_port {
                Some(p) => p,
                None => DEFAULT_HAPP_PORT,
            }),
            r.lair_url == lair_url,
            r.happs_file_path == happs_file_path,
    {
        let admin_port = match admin_port {
            Some(p) => p,
            None => DEFAULT_ADMIN_PORT,
        };
        let happ_port = match happ_port {
            Some(p) => p,
            None => DEFAULT_HAPP_PORT,
        };
        Config { admin_port, happ_port, lair_url, happs_file_path }
    }
}

/// A membrane proof for one role, as a configuration file lists it.
#[derive(Clone, Debug)]
pub struct ProofPayload {
    pub cell_nick: String,
    /// Base64-encoded membrane proof.
    pub proof: String,
}

/// The membrane proofs of one application.
#[derive(Clone, Debug)]
pub struct MembraneProofFile {
    pub payload: Vec<ProofPayload>,
}

/// A DNA of an application bundle.
#[derive(Clone, Debug)]
pub struct DnaResource {
    /// Hash of the DNA, not a stored address.
    pub hash: String,
    pub src_url: String,
    pub nick: String,
}

/// The final component of a file path, as `std::path::Path::file_name`
/// gives it.
pub uninterp spec fn path_file_name(path: Seq<char>) -> Option<Seq<char>>;

/// The last segment of a URL's path, as the url crate parses it.
pub uninterp spec fn url_last_segment(url: Seq<char>) -> Option<Seq<char>>;

/// Relies on std::path::Path::file_name: the final component of the path,
/// none where the path ends in `..` or is a root.
#[verifier::external_body]
fn file_name(path: &str) -> (r: Option<String>)
    ensures
        match r {
            Some(s) => path_file_name(path@) == Some(s@),
            None => path_file_name(path@).is_none(),
        },
{
    std::path::Path::new(path).file_name().map(|n| n.to_string_lossy().to_string())
}

/// Relies on url::Url::parse, Url::path_segments and their last item: the
/// last segment of the URL's path, none where the URL does not parse or
/// has no path segments.
#[verifier::external_body]
fn last_path_segment(url: &str) -> (r: Option<String>)
    ensures
        match r {
            Some(s) => url_last_segment(url@) == Some(s@),
            None => url_last_segment(url@).is_none(),
        },
{
    url::Url::parse(url).ok().and_then(|u| u.path_segments().and_then(|s| s.last()).map(|s| s.to_string()))
}

/// Relies on String::push: appends one character.
#[verifier::external_body]
fn push_char(s: &mut String, c: char)
    ensures
        final(s)@ == old(s)@.push(c),
{
    s.push(c)
}

pub open spec fn bundle_extension() -> Seq<char> {
    seq!['.', 'h', 'a', 'p', 'p']
}

pub open spec fn dot_to_colon(c: char) -> char {
    if c == '.' {
        ':'
    } else {
        c
    }
}

/// A bundle's file name as an installed id: every `.happ` taken out, every
/// other `.` made a `:`.
pub open spec fn installed_id_of_name(name: Seq<char>) -> Seq<char>
    decreases name.len(),
{
    if name.len() == 0 {
        name
    } else if has_prefix(name, bundle_extension()) {
        installed_id_of_name(name.subrange(5, name.len() as int))
    } else {
        seq![dot_to_colon(name[0])] + installed_id_of_name(name.subrange(1, name.len() as int))
    }
}

/// The installed id for a bundle file name.
pub fn installed_id_from_name(name: &str) -> (r: String)
    ensures
        r@ == installed_id_of_name(name@),
{
    proof {
        reveal_strlit(".happ");
        assert(".happ"@ =~= bundle_extension());
    }
    let n = name.unicode_len();
    let mut out = String::new();
    let mut i: usize = 0;
    assert(name@.subrange(0, n as int) =~= name@);
    while i < n
        invariant
            n == name@.len(),
            i <= n,
            ".happ"@ == bundle_extension(),
            out@ + installed_id_of_name(name@.subrange(i as int, n as int)) == installed_id_of_name(
                name@,
            ),
        decreases n - i,
    {
        let ghost rest = name@.subrange(i as int, n as int);
        if matches_at(name, ".happ", i) {
            assert(rest.subrange(0, 5) =~= name@.subrange(i as int, i + 5));
            assert(rest.subrange(5, rest.len() as int) =~= name@.subrange(i + 5, n as int));
            i = i + 5;
        } else {
            let c = name.get_char(i);
            assert(!has_prefix(rest, bundle_extension())) by {
                if has_prefix(rest, bundle_extension()) {
                    assert(rest.subrange(0, 5) =~= name@.subrange(i as int, i + 5));
                }
            }
            assert(rest.subrange(1, rest.len() as int) =~= name@.subrange(i + 1, n as int));
            push_char(&mut out, if c == '.' { ':' } else { c });
            assert(out@ + installed_id_of_name(name@.subrange(i + 1, n as int)) =~= installed_id_of_name(name@));
            i = i + 1;
        }
    }
    assert(name@.subrange(n as int, n as int) =~= Seq::<char>::empty());
    assert(out@ =~= installed_id_of_name(name@));
    out
}

/// One application of the core or self-hosted lists. A bundle path takes
/// precedence over a bundle URL.
#[derive(Clone, Debug)]
pub struct Happ {
    pub bundle_url: Option<String>,
    pub bundle_path: Option<String>,
    pub ui_url: Option<String>,
    pub ui_path: Option<String>,
}

/// The name the id is made from: the bundle path's file name, else the
/// bundle URL's last path segment, else the placeholder for a bundle of
/// no known source.
pub open spec fn spec_bundle_name(h: Happ) -> Option<Seq<char>> {
    match h.bundle_path {
        Some(p) => path_file_name(p@),
        None => match h.bundle_url {
            Some(u) => url_last_segment(u@),
            None => Some(UNREADABLE_BUNDLE@),
        },
    }
}

/// Name given to a bundle with neither a path nor a URL.
pub const UNREADABLE_BUNDLE: &'static str = "unreabable";

/// The installed id of the application, with the development override of
/// its network seed appended as `::<uid>`.
pub open spec fn spec_happ_id(h: Happ, dev_uid_override: Option<String>) -> Option<Seq<char>> {
    match spec_bundle_name(h) {
        None => None,
        Some(name) => match dev_uid_override {
            Some(uid) => Some(installed_id_of_name(name) + seq![':', ':'] + uid@),
            None => Some(installed_id_of_name(name)),
        },
    }
}

impl Happ {
    fn bundle_name(&self) -> (r: Option<String>)
        ensures
            match r {
                Some(s) => spec_bundle_name(*self) == Some(s@),
                None => spec_bundle_name(*self).is_none(),
            },
    {
        match &self.bundle_path {
            Some(p) => file_name(p.as_str()),
            None => match &self.bundle_url {
                Some(u) => last_path_segment(u.as_str()),
                None => Some(UNREADABLE_BUNDLE.to_string()),
            },
        }
    }

    /// The installed id for the application's bundle: the bundle's name
    /// without `.happ`, with `.` made `:`. None where the bundle's path has
    /// no file name or its URL no path segment.
    pub fn id(&self, dev_uid_override: Option<String>) -> (r: Option<String>)
        ensures
            match r {
                Some(s) => spec_happ_id(*self, dev_uid_override) == Some(s@),
                None => spec_happ_id(*self, dev_uid_override).is_none(),
            },
    {
        match self.bundle_name() {
            None => None,
            Some(name) => {
                let mut id = installed_id_from_name(name.as_str());
                match dev_uid_override {
                    Some(uid) => {
                        proof {
                            reveal_strlit("::");
                        }
                        id.append("::");
                        id.append(uid.as_str());
                        assert(id@ =~= installed_id_of_name(name@) + seq![':', ':'] + uid@);
                        Some(id)
                    },
                    None => Some(id),
                }
            },
        }
    }
}

/// The core and self-hosted application lists of the host.
#[derive(Clone, Debug)]
pub struct HappsFile {
    pub self_hosted_happs: Vec<Happ>,
    pub core_happs: Vec<Happ>,
}

pub open spec fn is_core_app_id(id: Option<Seq<char>>) -> bool {
    match id {
        Some(s) => has_infix(s, CORE_APP_MARKER@),
        None => false,
    }
}

/// What the id of the core application holds.
pub const CORE_APP_MARKER: &'static str = "core-app";

impl HappsFile {
    /// The first core application whose installed id names the core app;
    /// the lists are consumed.
    pub fn core_app(self, dev_uid_override: &Option<String>) -> (r: Option<Happ>)
        ensures
            match r {
                Some(h) => exists|i: int|
                    0 <= i < self.core_happs@.len() && h == self.core_happs@[i] && is_core_app_id(
                        spec_happ_id(#[trigger] self.core_happs@[i], *dev_uid_override),
                    ) && (forall|j: int|
                        0 <= j < i ==> !is_core_app_id(
                            spec_happ_id(#[trigger] self.core_happs@[j], *dev_uid_override),
                        )),
                None => forall|i: int|
                    0 <= i < self.core_happs@.len() ==> !is_core_app_id(
                        spec_happ_id(#[trigger] self.core_happs@[i], *dev_uid_override),
                    ),
            },
    {
        let ghost all = self.core_happs@;
        let mut core_happs = self.core_happs;
        let mut i: usize = 0;
        while i < core_happs.len()
            invariant
                core_happs@ == all,
                all == self.core_happs@,
                i <= all.len(),
                forall|j: int|
                    0 <= j < i ==> !is_core_app_id(
                        spec_happ_id(#[trigger] all[j], *dev_uid_override),
                    ),
            decreases all.len() - i,
        {
            let found = match core_happs[i].id(dev_uid_override.clone()) {
                Some(id) => contains(id.as_str(), CORE_APP_MARKER),
                None => false,
            };
            if found {
                assert(is_core_app_id(spec_happ_id(all[i as int], *dev_uid_override)));
                let h = core_happs.remove(i);
                assert(h == all[i as int]);
                assert(is_core_app_id(spec_happ_id(self.core_happs@[i as int], *dev_uid_override)));
                return Some(h);
            }
            i = i + 1;
        }
        None
    }
}

/// The read-only membrane proof: the single byte zero. It stands in for a
/// proof issued to the agent by a joining service.
pub const READ_ONLY_MEMBRANE_PROOF: u8 = 0;

/// A membrane proof for each role of an application's manifest: the
/// read-only proof, paired with the role's name in manifest order.
pub fn read_only_membrane_proofs(role_names: &Vec<String>) -> (r: Vec<(String, Vec<u8>)>)
    ensures
        r@.len() == role_names@.len(),
        forall|i: int|
            0 <= i < r@.len() ==> (#[trigger] r@[i]).0@ == role_names@[i]@ && r@[i].1@ == seq![
                READ_ONLY_MEMBRANE_PROOF,
            ],
{
    let mut r: Vec<(String, Vec<u8>)> = Vec::new();
    let mut i: usize = 0;
    while i < role_names.len()
        invariant
            i <= role_names@.len(),
            r@.len() == i,
            forall|k: int|
                0 <= k < i ==> (#[trigger] r@[k]).0@ == role_names@[k]@ && r@[k].1@ == seq![
                    READ_ONLY_MEMBRANE_PROOF,
                ],
        decreases role_names@.len() - i,
    {
        let proof_bytes = vec![READ_ONLY_MEMBRANE_PROOF];
        r.push((role_names[i].clone(), proof_bytes));
        i = i + 1;
    }
    r
}

} // verus!
