use vstd::prelude::*;

use crate::actions_engine::title_le;
use crate::text::{copy_str, is_blank, same_text, trim, trim_str};

verus! {

#[derive(Debug, Clone, Copy, PartialEq, Eq, Structural)]
pub enum TlsMode {
    Disabled,
    Prefer,
    Require,
    VerifyIdentity,
}

impl Default for TlsMode {
    fn default() -> (r: Self)
        ensures
            r == TlsMode::Prefer,
    {
        TlsMode::Prefer
    }
}

#[derive(Debug, Clone, Copy, PartialEq, Eq, Structural)]
pub enum PasswordSource {
    EnvVar,
    Keyring,
}

impl Default for PasswordSource {
    fn default() -> (r: Self)
        ensures
            r == PasswordSource::EnvVar,
    {
        PasswordSource::EnvVar
    }
}

/// Where and how to connect.
#[derive(Debug, Clone, PartialEq, Eq)]
pub struct ConnectionProfile {
    pub name: String,
    pub host: String,
    pub port: u16,
    pub user: String,
    pub database: Option<String>,
    pub tls_mode: TlsMode,
    pub password_source: PasswordSource,
    pub keyring_service: Option<String>,
    pub keyring_account: Option<String>,
    pub tls_ca_cert_path: Option<String>,
    pub tls_client_cert_path: Option<String>,
    pub tls_client_key_path: Option<String>,
    pub tls_disable_built_in_roots: bool,
    pub tls_skip_domain_validation: bool,
    pub tls_accept_invalid_certs: bool,
    pub tls_hostname_override: Option<String>,
    pub read_only: bool,
}

impl ConnectionProfile {
    /// A profile on port 3306 with TLS preferred, the password from the environment, and
    /// nothing else set.
    pub fn new(name: &str, host: &str, user: &str) -> (r: Self)
        ensures
            r.name@ == name@,
            r.host@ == host@,
            r.user@ == user@,
            r.port == 3306,
            r.database is None,
            r.tls_mode == TlsMode::Prefer,
            r.password_source == PasswordSource::EnvVar,
            r.keyring_service is None,
            r.keyring_account is None,
            r.tls_ca_cert_path is None,
            r.tls_client_cert_path is None,
            r.tls_client_key_path is None,
            !r.tls_disable_built_in_roots,
            !r.tls_skip_domain_validation,
            !r.tls_accept_invalid_certs,
            r.tls_hostname_override is None,
            !r.read_only,
    {
        ConnectionProfile {
            name: copy_str(name),
            host: copy_str(host),
            port: 3306,
            user: copy_str(user),
            database: None,
            tls_mode: TlsMode::Prefer,
            password_source: PasswordSource::EnvVar,
            keyring_service: None,
            keyring_account: None,
            tls_ca_cert_path: None,
            tls_client_cert_path: None,
            tls_client_key_path: None,
            tls_disable_built_in_roots: false,
            tls_skip_domain_validation: false,
            tls_accept_invalid_certs: false,
            tls_hostname_override: None,
            read_only: false,
        }
    }
}

pub open spec fn same_opt(a: Option<String>, b: Option<String>) -> bool {
    match (a, b) {
        (Some(x), Some(y)) => x@ == y@,
        (None, None) => true,
        _ => false,
    }
}

/// Two profiles that hold the same settings.
pub open spec fn same_profile(a: ConnectionProfile, b: ConnectionProfile) -> bool {
    &&& a.name@ == b.name@
    &&& a.host@ == b.host@
    &&& a.port == b.port
    &&& a.user@ == b.user@
    &&& same_opt(a.database, b.database)
    &&& a.tls_mode == b.tls_mode
    &&& a.password_source == b.password_source
    &&& same_opt(a.keyring_service, b.keyring_service)
    &&& same_opt(a.keyring_account, b.keyring_account)
    &&& same_opt(a.tls_ca_cert_path, b.tls_ca_cert_path)
    &&& same_opt(a.tls_client_cert_path, b.tls_client_cert_path)
    &&& same_opt(a.tls_client_key_path, b.tls_client_key_path)
    &&& a.tls_disable_built_in_roots == b.tls_disable_built_in_roots
    &&& a.tls_skip_domain_validation == b.tls_skip_domain_validation
    &&& a.tls_accept_invalid_certs == b.tls_accept_invalid_certs
    &&& same_opt(a.tls_hostname_override, b.tls_hostname_override)
    &&& a.read_only == b.read_only
}

fn copy_opt(o: &Option<String>) -> (r: Option<String>)
    ensures
        same_opt(r, *o),
{
    match o {
        Some(s) => Some(copy_str(s.as_str())),
        None => None,
    }
}

impl ConnectionProfile {
    /// A copy holding the same settings.
    pub fn duplicate(&self) -> (r: Self)
        ensures
            same_profile(r, *self),
    {
        ConnectionProfile {
            name: copy_str(self.name.as_str()),
            host: copy_str(self.host.as_str()),
            port: self.port,
            user: copy_str(self.user.as_str()),
            database: copy_opt(&self.database),
            tls_mode: self.tls_mode,
            password_source: self.password_source,
            keyring_service: copy_opt(&self.keyring_service),
            keyring_account: copy_opt(&self.keyring_account),
            tls_ca_cert_path: copy_opt(&self.tls_ca_cert_path),
            tls_client_cert_path: copy_opt(&self.tls_client_cert_path),
            tls_client_key_path: copy_opt(&self.tls_client_key_path),
            tls_disable_built_in_roots: self.tls_disable_built_in_roots,
            tls_skip_domain_validation: self.tls_skip_domain_validation,
            tls_accept_invalid_certs: self.tls_accept_invalid_certs,
            tls_hostname_override: copy_opt(&self.tls_hostname_override),
            read_only: self.read_only,
        }
    }
}

/// A setting that is present and not blank.
pub open spec fn is_set(o: Option<String>) -> bool {
    o is Some && !is_blank(o->0@)
}

/// The setting trimmed, when present and not blank.
pub fn non_empty(value: &Option<String>) -> (r: Option<String>)
    ensures
        is_set(*value) ==> r is Some && r->0@ == trim(value->0@),
        !is_set(*value) ==> r is None,
{
    match value {
        Some(raw) => {
            let t = trim_str(raw.as_str());
            if crate::text::is_blank_str(raw.as_str()) {
                None
            } else {
                Some(t)
            }
        },
        None => None,
    }
}

pub open spec fn custom_tls(p: ConnectionProfile) -> bool {
    is_set(p.tls_ca_cert_path) || is_set(p.tls_client_cert_path) || is_set(p.tls_client_key_path)
        || is_set(p.tls_hostname_override) || p.tls_disable_built_in_roots
        || p.tls_skip_domain_validation || p.tls_accept_invalid_certs
}

pub open spec fn requests_tls(p: ConnectionProfile) -> bool {
    match p.tls_mode {
        TlsMode::Disabled => false,
        TlsMode::Prefer => custom_tls(p),
        TlsMode::Require | TlsMode::VerifyIdentity => true,
    }
}

fn is_set_exec(o: &Option<String>) -> (r: bool)
    ensures
        r == is_set(*o),
{
    match o {
        Some(s) => !crate::text::is_blank_str(s.as_str()),
        None => false,
    }
}

/// Whether any TLS setting is given.
pub fn has_custom_tls_settings(profile: &ConnectionProfile) -> (r: bool)
    ensures
        r == custom_tls(*profile),
{
    is_set_exec(&profile.tls_ca_cert_path) || is_set_exec(&profile.tls_client_cert_path)
        || is_set_exec(&profile.tls_client_key_path) || is_set_exec(&profile.tls_hostname_override)
        || profile.tls_disable_built_in_roots || profile.tls_skip_domain_validation
        || profile.tls_accept_invalid_certs
}

/// Whether the connection uses TLS: never when disabled, always when required, and when
/// preferred only if some TLS setting is given.
pub fn profile_requests_tls(profile: &ConnectionProfile) -> (r: bool)
    ensures
        r == requests_tls(*profile),
{
    match profile.tls_mode {
        TlsMode::Disabled => false,
        TlsMode::Prefer => has_custom_tls_settings(profile),
        TlsMode::Require | TlsMode::VerifyIdentity => true,
    }
}

/// Whether a client identity is configured: both certificate and key paths are set.
pub fn has_client_identity(profile: &ConnectionProfile) -> (r: bool)
    ensures
        r == (is_set(profile.tls_client_cert_path) && is_set(profile.tls_client_key_path)),
{
    is_set_exec(&profile.tls_client_cert_path) && is_set_exec(&profile.tls_client_key_path)
}

/// Keyring service and account for a profile: the configured ones, else `myr` and the
/// profile name.
pub fn keyring_coordinates(profile: &ConnectionProfile) -> (r: (String, String))
    ensures
        is_set(profile.keyring_service) ==> r.0@ == trim(profile.keyring_service->0@),
        !is_set(profile.keyring_service) ==> r.0@ == "myr"@,
        is_set(profile.keyring_account) ==> r.1@ == trim(profile.keyring_account->0@),
        !is_set(profile.keyring_account) ==> r.1@ == profile.name@,
{
    let service = match non_empty(&profile.keyring_service) {
        Some(s) => s,
        None => copy_str("myr"),
    };
    let account = match non_empty(&profile.keyring_account) {
        Some(a) => a,
        None => copy_str(profile.name.as_str()),
    };
    (service, account)
}

/// Strict order of names by code point.
pub open spec fn name_lt(a: Seq<char>, b: Seq<char>) -> bool {
    title_le(a, b) && a != b
}

pub open spec fn sorted_names(v: Seq<ConnectionProfile>) -> bool {
    forall|i: int, j: int| 0 <= i < j < v.len() ==> name_lt(#[trigger] v[i].name@, #[trigger] v[j].name@)
}

/// Saved connection profiles, one per name, sorted by name.
#[derive(Debug, Clone)]
pub struct FileProfilesStore {
    path: String,
    profiles: Vec<ConnectionProfile>,
}

impl View for FileProfilesStore {
    type V = Seq<ConnectionProfile>;

    closed spec fn view(&self) -> Seq<ConnectionProfile> {
        self.profiles@
    }
}

pub(crate) proof fn lemma_name_order(a: Seq<char>, b: Seq<char>, c: Seq<char>)
    ensures
        name_lt(a, b) || a == b || name_lt(b, a),
        name_lt(a, b) && name_lt(b, c) ==> name_lt(a, c),
{
    crate::actions_engine::lemma_title_le_total(a, b);
    if name_lt(a, b) && name_lt(b, c) {
        crate::actions_engine::lemma_title_le_trans(a, b, c);
        if a == c {
            crate::actions_engine::lemma_title_le_antisym(a, b);
        }
    }
}

impl FileProfilesStore {
    pub closed spec fn path_view(&self) -> Seq<char> {
        self.path@
    }

    pub open spec fn wf(&self) -> bool {
        sorted_names(self@)
    }

    /// An empty store kept at `path`.
    pub fn from_path(path: &str) -> (r: Self)
        ensures
            r.wf(),
            r@.len() == 0,
            r.path_view() == path@,
    {
        FileProfilesStore { path: copy_str(path), profiles: Vec::new() }
    }

    pub fn path(&self) -> (r: &str)
        ensures
            r@ == self.path_view(),
    {
        self.path.as_str()
    }

    pub fn profiles(&self) -> (r: &Vec<ConnectionProfile>)
        ensures
            r@ == self@,
    {
        &self.profiles
    }

    /// The profile with this name.
    pub fn profile(&self, name: &str) -> (r: Option<&ConnectionProfile>)
        ensures
            r is Some ==> self@.contains(*r->0) && r->0.name@ == name@,
            r is None ==> forall|i: int| 0 <= i < self@.len() ==> #[trigger] self@[i].name@ != name@,
    {
        let mut i: usize = 0;
        while i < self.profiles.len()
            invariant
                i <= self@.len(),
                forall|k: int| 0 <= k < i ==> #[trigger] self@[k].name@ != name@,
            decreases self.profiles.len() - i,
        {
            if same_text(&self.profiles[i].name, name) {
                return Some(&self.profiles[i]);
            }
            i = i + 1;
        }
        None
    }

    /// Adds a profile, replacing the one with the same name.
    pub fn upsert_profile(&mut self, profile: ConnectionProfile)
        requires
            old(self).wf(),
        ensures
            final(self).wf(),
            final(self).path_view() == old(self).path_view(),
            final(self)@.contains(profile),
            forall|i: int|
                0 <= i < old(self)@.len() && (#[trigger] old(self)@[i]).name@ != profile.name@
                    ==> final(self)@.contains(old(self)@[i]),
            forall|i: int|
                0 <= i < final(self)@.len() ==> #[trigger] final(self)@[i] == profile || (
                old(self)@.contains(final(self)@[i]) && final(self)@[i].name@ != profile.name@),
    {
        self.delete_profile(profile.name.as_str());
        let ghost mid = self@;
        let mut pos: usize = 0;
        while pos < self.profiles.len() && !crate::actions_engine::title_le_str(
            profile.name.as_str(),
            self.profiles[pos].name.as_str(),
        )
            invariant
                self@ == mid,
                pos <= mid.len(),
                forall|k: int| 0 <= k < pos ==> name_lt(#[trigger] mid[k].name@, profile.name@),
            decreases self.profiles.len() - pos,
        {
            proof {
                crate::actions_engine::lemma_title_le_total(profile.name@, mid[pos as int].name@);
            }
            pos = pos + 1;
        }
        proof {
            if pos < mid.len() {
                assert(mid[pos as int].name@ != profile.name@);
            }
        }
        let ghost p = profile;
        self.profiles.insert(pos, profile);
        proof {
            let v = self@;
            assert forall|i: int, j: int| 0 <= i < j < v.len() implies name_lt(#[trigger] v[i].name@, #[trigger] v[j].name@) by {
                if j < pos {
                    assert(v[i] == mid[i] && v[j] == mid[j]);
                } else if j == pos {
                    assert(v[i] == mid[i]);
                } else if i == pos {
                    assert(v[j] == mid[j - 1]);
                    if j - 1 > pos {
                        lemma_name_order(p.name@, mid[pos as int].name@, mid[j - 1].name@);
                    }
                    assert(mid[pos as int].name@ != p.name@);
                    lemma_name_order(p.name@, mid[pos as int].name@, mid[pos as int].name@);
                    crate::actions_engine::lemma_title_le_total(p.name@, mid[pos as int].name@);
                    if j - 1 > pos {
                        crate::actions_engine::lemma_title_le_trans(p.name@, mid[pos as int].name@, mid[j - 1].name@);
                        if p.name@ == mid[j - 1].name@ {
                            crate::actions_engine::lemma_title_le_antisym(p.name@, mid[pos as int].name@);
                        }
                    }
                } else if i < pos {
                    assert(v[i] == mid[i] && v[j] == mid[j - 1]);
                    lemma_name_order(mid[i].name@, p.name@, mid[j - 1].name@);
                    if j - 1 > i {
                        assert(name_lt(mid[i].name@, mid[j - 1].name@));
                    }
                } else {
                    assert(v[i] == mid[i - 1] && v[j] == mid[j - 1]);
                }
            }
            assert(v[pos as int] == p);
            assert forall|i: int|
                0 <= i < old(self)@.len() && (#[trigger] old(self)@[i]).name@ != p.name@ implies v.contains(old(self)@[i]) by {
                let k = choose|k: int| 0 <= k < mid.len() && mid[k] == old(self)@[i];
                if k < pos {
                    assert(v[k] == mid[k]);
                } else {
                    assert(v[k + 1] == mid[k]);
                }
            }
            assert forall|i: int| 0 <= i < v.len() implies #[trigger] v[i] == p || (old(self)@.contains(v[i]) && v[i].name@ != p.name@) by {
                if i < pos {
                    assert(v[i] == mid[i]);
                } else if i > pos {
                    assert(v[i] == mid[i - 1]);
                }
            }
        }
    }

    /// Removes the profile with this name; says whether there was one.
    pub fn delete_profile(&mut self, name: &str) -> (r: bool)
        requires
            old(self).wf(),
        ensures
            final(self).wf(),
            final(self).path_view() == old(self).path_view(),
            r == (exists|i: int| 0 <= i < old(self)@.len() && (#[trigger] old(self)@[i]).name@ == name@),
            forall|i: int| 0 <= i < final(self)@.len() ==> (#[trigger] final(self)@[i]).name@ != name@,
            forall|i: int|
                0 <= i < old(self)@.len() && (#[trigger] old(self)@[i]).name@ != name@
                    ==> exists|j: int| 0 <= j < final(self)@.len() && final(self)@[j] == old(self)@[i],
            forall|j: int| 0 <= j < final(self)@.len() ==> old(self)@.contains(#[trigger] final(self)@[j]),
    {
        let mut i: usize = 0;
        while i < self.profiles.len()
            invariant
                self@ == old(self)@,
                sorted_names(self@),
                self.path_view() == old(self).path_view(),
                i <= self@.len(),
                forall|k: int| 0 <= k < i ==> #[trigger] self@[k].name@ != name@,
            decreases self.profiles.len() - i,
        {
            if same_text(&self.profiles[i].name, name) {
                let ghost before = self@;
                self.profiles.remove(i);
                proof {
                    let v = self@;
                    assert(sorted_names(before));
                    assert forall|a: int, b: int| 0 <= a < b < v.len() implies name_lt(#[trigger] v[a].name@, #[trigger] v[b].name@) by {
                        let aa = if a < i { a } else { a + 1 };
                        let bb = if b < i { b } else { b + 1 };
                        assert(v[a] == before[aa] && v[b] == before[bb]);
                        assert(name_lt(before[aa].name@, before[bb].name@));
                    }
                    assert forall|k: int| 0 <= k < v.len() implies (#[trigger] v[k]).name@ != name@ by {
                        if k < i {
                            assert(v[k] == before[k]);
                        } else {
                            assert(v[k] == before[k + 1]);
                            assert(name_lt(before[i as int].name@, before[k + 1].name@));
                        }
                    }
                    assert forall|k: int| 0 <= k < before.len() && (#[trigger] before[k]).name@ != name@ implies exists|j: int| 0 <= j < v.len() && v[j] == before[k] by {
                        if k < i {
                            assert(v[k] == before[k]);
                        } else {
                            assert(v[k - 1] == before[k]);
                        }
                    }
                    assert forall|j: int| 0 <= j < v.len() implies before.contains(#[trigger] v[j]) by {
                        if j < i {
                            assert(v[j] == before[j]);
                        } else {
                            assert(v[j] == before[j + 1]);
                        }
                    }
                }
                return true;
            }
            i = i + 1;
        }
        proof {
            assert forall|k: int| 0 <= k < old(self)@.len() && (#[trigger] old(self)@[k]).name@ != name@ implies exists|j: int| 0 <= j < self@.len() && self@[j] == old(self)@[k] by {
                assert(self@[k] == old(self)@[k]);
            }
            assert forall|j: int| 0 <= j < self@.len() implies old(self)@.contains(#[trigger] self@[j]) by {
                assert(old(self)@[j] == self@[j]);
            }
        }
        false
    }
}

} // verus!
