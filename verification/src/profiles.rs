//! Profiles: each profile owns an isolated workspace directory, and one
//! index file records them all and which one is active. Creating the
//! directories and persisting the index are the embedding application's
//! work; the index transitions and path derivations here are pure.

use crate::textfmt::ascii_string;
use vstd::prelude::*;
use vstd::string::StringSliceAdditionalSpecFns;

verus! {

#[derive(Debug, Clone, PartialEq, Eq)]
pub struct ProfileRecord {
    pub id: String,
    pub display_name: String,
    pub workspace_dir: String,
    pub created_at: String,
    pub updated_at: String,
}

#[verifier::ext_equal]
pub struct ProfileRecordV {
    pub id: Seq<char>,
    pub display_name: Seq<char>,
    pub workspace_dir: Seq<char>,
    pub created_at: Seq<char>,
    pub updated_at: Seq<char>,
}

impl DeepView for ProfileRecord {
    type V = ProfileRecordV;

    open spec fn deep_view(&self) -> ProfileRecordV {
        ProfileRecordV {
            id: self.id@,
            display_name: self.display_name@,
            workspace_dir: self.workspace_dir@,
            created_at: self.created_at@,
            updated_at: self.updated_at@,
        }
    }
}

pub fn clone_profile_record(p: &ProfileRecord) -> (r: ProfileRecord)
    ensures
        r.deep_view() == p.deep_view(),
{
    ProfileRecord {
        id: p.id.clone(),
        display_name: p.display_name.clone(),
        workspace_dir: p.workspace_dir.clone(),
        created_at: p.created_at.clone(),
        updated_at: p.updated_at.clone(),
    }
}

#[derive(Debug, Clone, PartialEq, Eq)]
pub struct ProfilesIndex {
    pub version: u32,
    pub active_profile: Option<String>,
    pub profiles: Vec<ProfileRecord>,
}

impl Default for ProfilesIndex {
    fn default() -> (r: Self)
        ensures
            r.version == 1,
            r.active_profile is None,
            r.profiles@.len() == 0,
    {
        ProfilesIndex { version: 1, active_profile: None, profiles: Vec::new() }
    }
}

#[derive(Debug)]
pub enum ProfileError {
    /// No profile with the given id exists in the index.
    ProfileNotFound { id: String },
    /// The platform offers no application-data directory.
    NoDataDirectory,
}

impl ProfilesIndex {
    /// Adds a profile to the index; the first profile registered becomes the
    /// active one.
    pub fn register(&mut self, profile: ProfileRecord)
        ensures
            final(self).version == old(self).version,
            final(self).profiles@.len() == old(self).profiles@.len() + 1,
            final(self).profiles.deep_view() == old(self).profiles.deep_view().push(
                profile.deep_view(),
            ),
            final(self).active_profile.deep_view() == (match old(self).active_profile.deep_view() {
                Some(a) => Some(a),
                None => Some(profile.id@),
            }),
    {
        let id = profile.id.clone();
        self.profiles.push(profile);
        if self.active_profile.is_none() {
            self.active_profile = Some(id);
        }
        proof {
            assert(self.profiles.deep_view() =~= old(self).profiles.deep_view().push(
                self.profiles@.last().deep_view(),
            ));
        }
    }

    /// Makes the named profile active and refreshes its update time; an
    /// unknown id is rejected and the index is unchanged.
    pub fn switch_active(&mut self, profile_id: &str, now: String) -> (r: Result<
        ProfileRecord,
        ProfileError,
    >)
        ensures
            match r {
                Ok(rec) => rec.deep_view().id == profile_id@ && rec.deep_view().updated_at == now@
                    && final(self).active_profile.deep_view() == Some(profile_id@) && final(self).version == old(self).version && (exists|i: int|
                    0 <= i < old(self).profiles.deep_view().len() && (#[trigger] old(self).profiles.deep_view()[i]).id == profile_id@ && final(self).profiles.deep_view() == old(self).profiles.deep_view().update(
                        i,
                        rec.deep_view(),
                    )),
                Err(e) => *final(self) == *old(self) && (e matches ProfileError::ProfileNotFound {
                    id,
                } && id@ == profile_id@),
            },
    {
        let n = self.profiles.len();
        let mut i: usize = 0;
        while i < n
            invariant
                *self == *old(self),
                0 <= i <= n == self.profiles@.len(),
            decreases n - i,
        {
            proof {
                let k = i as int;
                assert(self.profiles.deep_view()[k] == self.profiles@[k].deep_view());
            }
            let found = {
                let id = profile_id.to_owned();
                self.profiles[i].id == id
            };
            if found {
                let mut updated = clone_profile_record(&self.profiles[i]);
                updated.updated_at = now;
                let out = clone_profile_record(&updated);
                self.profiles.set(i, updated);
                self.active_profile = Some(profile_id.to_owned());
                proof {
                    assert(self.profiles.deep_view() =~= old(self).profiles.deep_view().update(
                        i as int,
                        out.deep_view(),
                    ));
                }
                return Ok(out);
            }
            i = i + 1;
        }
        Err(ProfileError::ProfileNotFound { id: profile_id.to_owned() })
    }
}

/// The per-profile workspace layout, rooted at the profile's directory.
#[derive(Debug, Clone, PartialEq, Eq)]
pub struct ProfileWorkspace {
    pub root_dir: String,
    pub config_path: String,
    pub memory_dir: String,
    pub logs_dir: String,
    pub skills_dir: String,
}

/// Resolves profiles and their workspaces under one root directory.
#[derive(Debug, Clone, PartialEq, Eq)]
pub struct ProfileManager {
    pub root_dir: String,
}

/// Relies on directories::ProjectDirs: the platform's local application-data
/// directory for this product, as the operating system reports it; `None`
/// when the platform offers none. The value is machine-dependent, so nothing
/// more is assumed of it.
#[verifier::external_body]
fn platform_data_dir() -> (r: Option<String>) {
    directories::ProjectDirs::from("com", "RightHand", "right-hand").map(|dirs| {
        dirs.data_local_dir().to_string_lossy().into_owned()
    })
}

impl ProfileManager {
    pub fn new(root_dir: String) -> (r: Self)
        ensures
            r.root_dir@ == root_dir@,
    {
        ProfileManager { root_dir }
    }

    /// The platform's application-data directory, where profiles live by
    /// default.
    pub fn default_root() -> (r: Result<String, ProfileError>)
        ensures
            r is Err ==> r == Err::<String, ProfileError>(ProfileError::NoDataDirectory),
    {
        match platform_data_dir() {
            Some(dir) => Ok(dir),
            None => Err(ProfileError::NoDataDirectory),
        }
    }

    /// A manager rooted at the platform's application-data directory.
    pub fn default() -> (r: Result<Self, ProfileError>)
        ensures
            r is Err ==> r == Err::<Self, ProfileError>(ProfileError::NoDataDirectory),
    {
        match Self::default_root() {
            Ok(root) => Ok(Self::new(root)),
            Err(e) => Err(e),
        }
    }

    pub fn root_dir(&self) -> (r: &str)
        ensures
            r@ == self.root_dir@,
    {
        self.root_dir.as_str()
    }

    /// Where the profiles index is persisted.
    pub fn index_path(&self) -> (r: String)
        ensures
            r@ == self.root_dir@ + "/profiles.json"@,
    {
        let mut out = self.root_dir.clone();
        out.append("/profiles.json");
        out
    }

    /// The directory all profile workspaces live under.
    pub fn profiles_root(&self) -> (r: String)
        ensures
            r@ == self.root_dir@ + "/profiles"@,
    {
        let mut out = self.root_dir.clone();
        out.append("/profiles");
        out
    }

    /// The active profile recorded in the index, if it still exists.
    pub fn get_active_profile(&self, index: &ProfilesIndex) -> (r: Option<ProfileRecord>)
        ensures
            index.active_profile is None ==> r is None,
            r matches Some(rec) ==> index.active_profile.deep_view() matches Some(aid)
                && rec.deep_view().id == aid && (exists|i: int|
                0 <= i < index.profiles.deep_view().len() && (#[trigger] index.profiles.deep_view()[i]) == rec.deep_view()),
            index.active_profile matches Some(aid) ==> (r is None ==> (forall|i: int|
                0 <= i < index.profiles.deep_view().len()
                    ==> (#[trigger] index.profiles.deep_view()[i]).id != aid@)),
    {
        let active_id = match &index.active_profile {
            None => {
                return None;
            },
            Some(id) => id,
        };
        let n = index.profiles.len();
        let mut i: usize = 0;
        while i < n
            invariant
                index.active_profile.deep_view() == Some(active_id@),
                0 <= i <= n == index.profiles@.len(),
                forall|j: int|
                    0 <= j < i ==> (#[trigger] index.profiles.deep_view()[j]).id != active_id@,
            decreases n - i,
        {
            proof {
                let k = i as int;
                assert(index.profiles.deep_view()[k] == index.profiles@[k].deep_view());
            }
            if index.profiles[i].id == *active_id {
                return Some(clone_profile_record(&index.profiles[i]));
            }
            i = i + 1;
        }
        None
    }

    /// The workspace layout of the named profile.
    pub fn workspace_for_profile(&self, index: &ProfilesIndex, profile_id: &str) -> (r: Result<
        ProfileWorkspace,
        ProfileError,
    >)
        ensures
            match r {
                Ok(ws) => (exists|i: int|
                    0 <= i < index.profiles.deep_view().len() && (#[trigger] index.profiles.deep_view()[i]).id == profile_id@ && ws.root_dir@ == index.profiles.deep_view()[i].workspace_dir)
                    && ws.config_path@ == ws.root_dir@ + "/config.toml"@ && ws.memory_dir@
                    == ws.root_dir@ + "/memory"@ && ws.logs_dir@ == ws.root_dir@ + "/logs"@
                    && ws.skills_dir@ == ws.root_dir@ + "/skills"@,
                Err(e) => (e matches ProfileError::ProfileNotFound { id } && id@ == profile_id@)
                    && (forall|i: int|
                    0 <= i < index.profiles.deep_view().len()
                        ==> (#[trigger] index.profiles.deep_view()[i]).id != profile_id@),
            },
    {
        let n = index.profiles.len();
        let mut i: usize = 0;
        while i < n
            invariant
                0 <= i <= n == index.profiles@.len(),
                forall|j: int|
                    0 <= j < i ==> (#[trigger] index.profiles.deep_view()[j]).id != profile_id@,
            decreases n - i,
        {
            proof {
                let k = i as int;
                assert(index.profiles.deep_view()[k] == index.profiles@[k].deep_view());
            }
            let found = {
                let id = profile_id.to_owned();
                index.profiles[i].id == id
            };
            if found {
                let root = index.profiles[i].workspace_dir.clone();
                let mut config_path = root.clone();
                config_path.append("/config.toml");
                let mut memory_dir = root.clone();
                memory_dir.append("/memory");
                let mut logs_dir = root.clone();
                logs_dir.append("/logs");
                let mut skills_dir = root.clone();
                skills_dir.append("/skills");
                return Ok(ProfileWorkspace { root_dir: root, config_path, memory_dir, logs_dir, skills_dir });
            }
            i = i + 1;
        }
        Err(ProfileError::ProfileNotFound { id: profile_id.to_owned() })
    }
}

pub open spec fn is_alnum_byte(b: u8) -> bool {
    (0x30 <= b && b <= 0x39) || (0x41 <= b && b <= 0x5a) || (0x61 <= b && b <= 0x7a)
}

pub open spec fn lower_alnum_byte(b: u8) -> u8 {
    if 0x41 <= b && b <= 0x5a {
        (b + 0x20) as u8
    } else {
        b
    }
}

/// The raw slug of a byte sequence: alphanumerics lowercased, every run of
/// anything else collapsed to one hyphen.
pub open spec fn slug_accum(s: Seq<u8>, prev_hyphen: bool) -> Seq<u8>
    decreases s.len(),
{
    if s.len() == 0 {
        Seq::empty()
    } else if is_alnum_byte(s[0]) {
        seq![lower_alnum_byte(s[0])] + slug_accum(s.drop_first(), false)
    } else if prev_hyphen {
        slug_accum(s.drop_first(), true)
    } else {
        seq![0x2du8] + slug_accum(s.drop_first(), true)
    }
}

pub open spec fn trim_hyphens_front(s: Seq<u8>) -> Seq<u8>
    decreases s.len(),
{
    if s.len() > 0 && s[0] == 0x2d {
        trim_hyphens_front(s.drop_first())
    } else {
        s
    }
}

pub open spec fn trim_hyphens_back(s: Seq<u8>) -> Seq<u8>
    decreases s.len(),
{
    if s.len() > 0 && s.last() == 0x2d {
        trim_hyphens_back(s.drop_last())
    } else {
        s
    }
}

/// The slug of a display name: its UTF-8 bytes slugged and stripped of
/// leading and trailing hyphens, as ASCII characters.
pub open spec fn slugify_spec(bytes: Seq<u8>) -> Seq<char> {
    trim_hyphens_back(trim_hyphens_front(slug_accum(bytes, false))).map(|_i: int, b: u8| b as char)
}

proof fn lemma_trim_hyphens_front_skip(s: Seq<u8>, a: int)
    requires
        0 <= a <= s.len(),
        forall|j: int| 0 <= j < a ==> s[j] == 0x2d,
        a == s.len() || s[a] != 0x2d,
    ensures
        trim_hyphens_front(s) == s.skip(a),
    decreases a,
{
    if a == 0 {
        assert(s.skip(0) =~= s);
    } else {
        lemma_trim_hyphens_front_skip(s.drop_first(), a - 1);
        assert(s.drop_first().skip(a - 1) =~= s.skip(a));
    }
}

proof fn lemma_trim_hyphens_back_take(s: Seq<u8>, b: int)
    requires
        0 <= b <= s.len(),
        forall|j: int| b <= j < s.len() ==> s[j] == 0x2d,
        b == 0 || s[b - 1] != 0x2d,
    ensures
        trim_hyphens_back(s) == s.take(b),
    decreases s.len() - b,
{
    if b == s.len() {
        assert(s.take(b) =~= s);
    } else {
        lemma_trim_hyphens_back_take(s.drop_last(), b);
        assert(s.drop_last().take(b) =~= s.take(b));
    }
}

/// Turns a display name into a slug fit for an identifier.
pub fn slugify(input: &str) -> (r: String)
    ensures
        r@ == slugify_spec(input.spec_bytes()),
{
    let bytes = input.as_bytes();
    let n = bytes.len();
    let mut raw: Vec<u8> = Vec::new();
    let mut prev_hyphen = false;
    let mut i: usize = 0;
    proof {
        assert(bytes@.skip(0) =~= bytes@);
        assert(slug_accum(bytes@, false) =~= Seq::<u8>::empty() + slug_accum(bytes@, false));
    }
    while i < n
        invariant
            bytes@ == input.spec_bytes(),
            0 <= i <= n == bytes@.len(),
            slug_accum(bytes@, false) == raw@ + slug_accum(bytes@.skip(i as int), prev_hyphen),
            forall|j: int| 0 <= j < raw@.len() ==> #[trigger] raw@[j] < 128,
        decreases n - i,
    {
        let b = *vstd::slice::slice_index_get(bytes, i);
        proof {
            assert(bytes@.skip(i as int)[0] == b);
            assert(bytes@.skip(i as int).drop_first() =~= bytes@.skip(i + 1));
        }
        if (0x30 <= b && b <= 0x39) || (0x41 <= b && b <= 0x5a) || (0x61 <= b && b <= 0x7a) {
            raw.push(if 0x41 <= b && b <= 0x5a {
                b + 0x20
            } else {
                b
            });
            prev_hyphen = false;
        } else if !prev_hyphen {
            raw.push(0x2d);
            prev_hyphen = true;
        }
        proof {
            assert(slug_accum(bytes@, false) =~= raw@ + slug_accum(
                bytes@.skip(i + 1),
                prev_hyphen,
            ));
        }
        i = i + 1;
    }
    proof {
        assert(bytes@.skip(n as int) =~= Seq::<u8>::empty());
        assert(slug_accum(bytes@, false) =~= raw@);
    }
    let m = raw.len();
    let mut a: usize = 0;
    while a < m && *vstd::slice::slice_index_get(raw.as_slice(), a) == 0x2d
        invariant
            0 <= a <= m == raw@.len(),
            forall|j: int| 0 <= j < a ==> raw@[j] == 0x2d,
        decreases m - a,
    {
        a = a + 1;
    }
    let mut b_end: usize = m;
    while b_end > a && *vstd::slice::slice_index_get(raw.as_slice(), b_end - 1) == 0x2d
        invariant
            a <= b_end <= m == raw@.len(),
            forall|j: int| b_end <= j < m ==> raw@[j] == 0x2d,
        decreases b_end,
    {
        b_end = b_end - 1;
    }
    proof {
        lemma_trim_hyphens_front_skip(raw@, a as int);
        let front = raw@.skip(a as int);
        assert(forall|j: int| b_end - a <= j < front.len() ==> front[j] == 0x2d);
        if b_end > a {
            assert(front[b_end - a - 1] == raw@[b_end - 1]);
        }
        lemma_trim_hyphens_back_take(front, b_end - a);
        assert(front.take(b_end - a) =~= raw@.subrange(a as int, b_end as int));
    }
    let mut sub: Vec<u8> = Vec::new();
    let mut k: usize = a;
    while k < b_end
        invariant
            a <= k <= b_end <= raw@.len(),
            sub@ == raw@.subrange(a as int, k as int),
            forall|j: int| 0 <= j < raw@.len() ==> #[trigger] raw@[j] < 128,
        decreases b_end - k,
    {
        sub.push(*vstd::slice::slice_index_get(raw.as_slice(), k));
        proof {
            assert(raw@.subrange(a as int, k + 1 as int) =~= raw@.subrange(a as int, k as int).push(
                raw@[k as int],
            ));
        }
        k = k + 1;
    }
    let out = ascii_string(sub);
    proof {
        assert(out@ =~= slugify_spec(input.spec_bytes()));
    }
    out
}

} // verus!
