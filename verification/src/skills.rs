//! The skills registry: installed skills, their manifests and the
//! install/enable/disable/remove lifecycle. Writing a skill's manifest and
//! directory to disk is the embedding application's work; the registry
//! records where they live.

use crate::clock::now_rfc3339;
use crate::mcp::{valid_identifier_spec, validate_identifier};
use crate::registry::{
    clone_contract, IntegrationPermissionContract, IntegrationPermissionContractV, RegistryError,
};
use crate::textfmt::{trim_str, trimmed};
use vstd::prelude::*;

verus! {

#[derive(Debug, Clone, PartialEq, Eq)]
pub struct SkillInstallRequest {
    pub skill_id: String,
    pub display_name: String,
    pub source: String,
    pub version: String,
    pub manifest_markdown: Option<String>,
    pub contract: IntegrationPermissionContract,
}

#[derive(Debug, Clone, PartialEq, Eq)]
pub struct SkillRecord {
    pub skill_id: String,
    pub display_name: String,
    pub source: String,
    pub version: String,
    pub installed_at: String,
    pub enabled: bool,
    pub enabled_at: Option<String>,
    pub skill_dir: String,
    pub contract: IntegrationPermissionContract,
}

#[verifier::ext_equal]
pub struct SkillRecordV {
    pub skill_id: Seq<char>,
    pub display_name: Seq<char>,
    pub source: Seq<char>,
    pub version: Seq<char>,
    pub installed_at: Seq<char>,
    pub enabled: bool,
    pub enabled_at: Option<Seq<char>>,
    pub skill_dir: Seq<char>,
    pub contract: IntegrationPermissionContractV,
}

impl DeepView for SkillRecord {
    type V = SkillRecordV;

    open spec fn deep_view(&self) -> SkillRecordV {
        SkillRecordV {
            skill_id: self.skill_id@,
            display_name: self.display_name@,
            source: self.source@,
            version: self.version@,
            installed_at: self.installed_at@,
            enabled: self.enabled,
            enabled_at: self.enabled_at.deep_view(),
            skill_dir: self.skill_dir@,
            contract: self.contract.deep_view(),
        }
    }
}

pub fn clone_skill_record(rec: &SkillRecord) -> (r: SkillRecord)
    ensures
        r.deep_view() == rec.deep_view(),
{
    SkillRecord {
        skill_id: rec.skill_id.clone(),
        display_name: rec.display_name.clone(),
        source: rec.source.clone(),
        version: rec.version.clone(),
        installed_at: rec.installed_at.clone(),
        enabled: rec.enabled,
        enabled_at: match &rec.enabled_at {
            Some(s) => Some(s.clone()),
            None => None,
        },
        skill_dir: rec.skill_dir.clone(),
        contract: clone_contract(&rec.contract),
    }
}

#[derive(Debug, Clone, PartialEq, Eq)]
pub struct SkillsRegistry {
    pub records: Vec<SkillRecord>,
}

impl Default for SkillsRegistry {
    fn default() -> (r: Self)
        ensures
            r.records@.len() == 0,
    {
        SkillsRegistry { records: Vec::new() }
    }
}

/// The manifest written for a skill installed without one.
pub open spec fn default_manifest_spec(skill_id: Seq<char>, display_name: Seq<char>) -> Seq<char> {
    "# "@ + display_name + "\n\nid: "@ + skill_id + "\n\nInstalled via ZeroClaw app.\n"@
}

/// Renders the default manifest for a skill.
pub fn default_skill_manifest(skill_id: &str, display_name: &str) -> (r: String)
    ensures
        r@ == default_manifest_spec(skill_id@, display_name@),
{
    let mut out = String::from_str("# ");
    out.append(display_name);
    out.append("\n\nid: ");
    out.append(skill_id);
    out.append("\n\nInstalled via ZeroClaw app.\n");
    out
}

/// The records left once every skill with the given id is removed.
pub open spec fn without_skill(s: Seq<SkillRecordV>, id: Seq<char>) -> Seq<SkillRecordV>
    decreases s.len(),
{
    if s.len() == 0 {
        Seq::empty()
    } else {
        (if s[0].skill_id == id {
            Seq::empty()
        } else {
            seq![s[0]]
        }) + without_skill(s.drop_first(), id)
    }
}

proof fn lemma_without_skill_push(s: Seq<SkillRecordV>, x: SkillRecordV, id: Seq<char>)
    ensures
        without_skill(s.push(x), id) == if x.skill_id == id {
            without_skill(s, id)
        } else {
            without_skill(s, id).push(x)
        },
        without_skill(s, id).len() <= s.len(),
    decreases s.len(),
{
    if s.len() == 0 {
        assert(s.push(x)[0] == x);
        assert(s.push(x).drop_first() =~= Seq::<SkillRecordV>::empty());
        assert(without_skill(Seq::<SkillRecordV>::empty(), id) =~= Seq::<SkillRecordV>::empty());
        assert(without_skill(s.push(x), id) == (if x.skill_id == id {
            Seq::<SkillRecordV>::empty()
        } else {
            seq![x]
        }) + without_skill(s.push(x).drop_first(), id));
        if x.skill_id == id {
            assert(without_skill(s.push(x), id) =~= without_skill(s, id));
        } else {
            assert(without_skill(s.push(x), id) =~= without_skill(s, id).push(x));
        }
    } else {
        assert(s.push(x)[0] == s[0]);
        assert(s.push(x).drop_first() =~= s.drop_first().push(x));
        lemma_without_skill_push(s.drop_first(), x, id);
        if x.skill_id == id {
            assert(without_skill(s.push(x), id) =~= without_skill(s, id));
        } else {
            assert(without_skill(s.push(x), id) =~= without_skill(s, id).push(x));
        }
    }
}

proof fn lemma_without_skill_len(s: Seq<SkillRecordV>, id: Seq<char>)
    ensures
        without_skill(s, id).len() <= s.len(),
    decreases s.len(),
{
    if s.len() > 0 {
        lemma_without_skill_len(s.drop_first(), id);
    }
}

proof fn lemma_without_skill_full(s: Seq<SkillRecordV>, id: Seq<char>)
    requires
        without_skill(s, id).len() == s.len(),
    ensures
        without_skill(s, id) == s,
    decreases s.len(),
{
    if s.len() > 0 {
        lemma_without_skill_len(s.drop_first(), id);
        if s[0].skill_id == id {
            assert(without_skill(s, id).len() <= s.len() - 1);
        } else {
            lemma_without_skill_full(s.drop_first(), id);
            assert(without_skill(s, id) =~= s);
        }
    } else {
        assert(without_skill(s, id) =~= s);
    }
}

/// One workspace's skills registry: the in-memory records, the directory
/// skills are unpacked under, and the path the embedding application
/// persists the registry at.
pub struct SkillsRegistryStore {
    pub path: String,
    pub skills_dir: String,
    pub registry: SkillsRegistry,
}

impl SkillsRegistryStore {
    /// An empty store for the workspace rooted at `workspace_dir`.
    pub fn for_workspace(workspace_dir: &str) -> (r: Self)
        ensures
            r.path@ == workspace_dir@ + "/skills_registry.json"@,
            r.skills_dir@ == workspace_dir@ + "/skills"@,
            r.registry.records@.len() == 0,
    {
        let mut path = workspace_dir.to_owned();
        path.append("/skills_registry.json");
        let mut skills_dir = workspace_dir.to_owned();
        skills_dir.append("/skills");
        SkillsRegistryStore { path, skills_dir, registry: SkillsRegistry::default() }
    }

    /// Installs (or re-versions) a skill after validating its identifier and
    /// display name. An existing record keeps its enablement; a new one
    /// starts disabled, homed under the store's skills directory.
    pub fn install(&mut self, request: SkillInstallRequest) -> (r: Result<
        SkillRecord,
        RegistryError,
    >)
        ensures
            final(self).path == old(self).path,
            final(self).skills_dir == old(self).skills_dir,
            !valid_identifier_spec(request.skill_id@) ==> (r matches Err(e)
                && e is InvalidIdentifier && final(self).registry == old(self).registry),
            valid_identifier_spec(request.skill_id@) && trimmed(request.display_name@).len() == 0
                ==> (r matches Err(e) && e is EmptyDisplayName && final(self).registry == old(self).registry),
            r matches Ok(rec) ==> valid_identifier_spec(request.skill_id@)
                && rec.deep_view().skill_id == request.skill_id@ && rec.deep_view().display_name
                == request.display_name@ && rec.deep_view().source == request.source@
                && rec.deep_view().version == request.version@ && rec.deep_view().skill_dir == old(self).skills_dir@ + "/"@ + request.skill_id@ && rec.deep_view().contract
                == request.contract.deep_view() && ({
                let recs = old(self).registry.records.deep_view();
                if (exists|i: int| 0 <= i < recs.len() && (#[trigger] recs[i]).skill_id
                    == request.skill_id@) {
                    exists|i: int|
                        0 <= i < recs.len() && (#[trigger] recs[i]).skill_id == request.skill_id@
                            && (forall|j: int| 0 <= j < i ==> recs[j].skill_id != request.skill_id@)
                            && final(self).registry.records.deep_view() == recs.update(
                            i,
                            rec.deep_view(),
                        ) && rec.deep_view().enabled == recs[i].enabled
                } else {
                    final(self).registry.records.deep_view() == recs.push(rec.deep_view())
                        && !rec.enabled
                }
            }),
    {
        if !validate_identifier(request.skill_id.as_str()) {
            return Err(RegistryError::InvalidIdentifier);
        }
        if trim_str(request.display_name.as_str()).as_str().unicode_len() == 0 {
            return Err(RegistryError::EmptyDisplayName);
        }
        let mut skill_dir = self.skills_dir.clone();
        skill_dir.append("/");
        skill_dir.append(request.skill_id.as_str());
        let n = self.registry.records.len();
        let mut i: usize = 0;
        while i < n
            invariant
                *self == *old(self),
                valid_identifier_spec(request.skill_id@),
                trimmed(request.display_name@).len() > 0,
                skill_dir@ == old(self).skills_dir@ + "/"@ + request.skill_id@,
                0 <= i <= n == self.registry.records@.len(),
                forall|j: int|
                    0 <= j < i ==> (#[trigger] self.registry.records.deep_view()[j]).skill_id
                        != request.skill_id@,
            decreases n - i,
        {
            proof {
                let k = i as int;
                assert(self.registry.records.deep_view()[k] == self.registry.records@[
                    k
                ].deep_view());
            }
            if self.registry.records[i].skill_id == request.skill_id {
                let mut updated = clone_skill_record(&self.registry.records[i]);
                updated.display_name = request.display_name;
                updated.source = request.source;
                updated.version = request.version;
                updated.contract = request.contract;
                updated.skill_dir = skill_dir;
                let out = clone_skill_record(&updated);
                self.registry.records.set(i, updated);
                proof {
                    assert(self.registry.records.deep_view() =~= old(self).registry.records.deep_view().update(i as int, out.deep_view()));
                }
                return Ok(out);
            }
            i = i + 1;
        }
        let (now, _) = now_rfc3339();
        let record = SkillRecord {
            skill_id: request.skill_id,
            display_name: request.display_name,
            source: request.source,
            version: request.version,
            installed_at: now,
            enabled: false,
            enabled_at: None,
            skill_dir,
            contract: request.contract,
        };
        let out = clone_skill_record(&record);
        self.registry.records.push(record);
        proof {
            assert(self.registry.records.deep_view() =~= old(self).registry.records.deep_view().push(out.deep_view()));
        }
        Ok(out)
    }

    /// Enables an installed skill; `approved` must be explicit.
    pub fn enable(&mut self, skill_id: &str, approved: bool) -> (r: Result<
        SkillRecord,
        RegistryError,
    >)
        ensures
            final(self).path == old(self).path,
            final(self).skills_dir == old(self).skills_dir,
            !approved ==> (r matches Err(e) && e is ConsentRequired && final(self).registry == old(self).registry),
            r matches Ok(rec) ==> approved && rec.deep_view().enabled
                && rec.deep_view().enabled_at is Some && rec.deep_view().skill_id == skill_id@ && (
            exists|i: int|
                0 <= i < old(self).registry.records.deep_view().len() && (#[trigger] old(self).registry.records.deep_view()[i]).skill_id == skill_id@ && final(self).registry.records.deep_view() == old(self).registry.records.deep_view().update(
                    i,
                    rec.deep_view(),
                )),
            r is Err ==> final(self).registry == old(self).registry,
    {
        if !approved {
            return Err(RegistryError::ConsentRequired);
        }
        let n = self.registry.records.len();
        let mut i: usize = 0;
        while i < n
            invariant
                approved,
                *self == *old(self),
                0 <= i <= n == self.registry.records@.len(),
            decreases n - i,
        {
            proof {
                let k = i as int;
                assert(self.registry.records.deep_view()[k] == self.registry.records@[
                    k
                ].deep_view());
            }
            let found = {
                let id = skill_id.to_owned();
                self.registry.records[i].skill_id == id
            };
            if found {
                let (now, _) = now_rfc3339();
                let mut updated = clone_skill_record(&self.registry.records[i]);
                updated.enabled = true;
                updated.enabled_at = Some(now);
                let out = clone_skill_record(&updated);
                self.registry.records.set(i, updated);
                proof {
                    assert(self.registry.records.deep_view() =~= old(self).registry.records.deep_view().update(i as int, out.deep_view()));
                }
                return Ok(out);
            }
            i = i + 1;
        }
        Err(RegistryError::NotInstalled { id: skill_id.to_owned() })
    }

    /// Disables an installed skill.
    pub fn disable(&mut self, skill_id: &str) -> (r: Result<SkillRecord, RegistryError>)
        ensures
            final(self).path == old(self).path,
            final(self).skills_dir == old(self).skills_dir,
            r matches Ok(rec) ==> !rec.deep_view().enabled && rec.deep_view().skill_id == skill_id@
                && (exists|i: int|
                0 <= i < old(self).registry.records.deep_view().len() && (#[trigger] old(self).registry.records.deep_view()[i]).skill_id == skill_id@ && final(self).registry.records.deep_view() == old(self).registry.records.deep_view().update(
                    i,
                    rec.deep_view(),
                )),
            r is Err ==> final(self).registry == old(self).registry,
    {
        let n = self.registry.records.len();
        let mut i: usize = 0;
        while i < n
            invariant
                *self == *old(self),
                0 <= i <= n == self.registry.records@.len(),
            decreases n - i,
        {
            proof {
                let k = i as int;
                assert(self.registry.records.deep_view()[k] == self.registry.records@[
                    k
                ].deep_view());
            }
            let found = {
                let id = skill_id.to_owned();
                self.registry.records[i].skill_id == id
            };
            if found {
                let mut updated = clone_skill_record(&self.registry.records[i]);
                updated.enabled = false;
                let out = clone_skill_record(&updated);
                self.registry.records.set(i, updated);
                proof {
                    assert(self.registry.records.deep_view() =~= old(self).registry.records.deep_view().update(i as int, out.deep_view()));
                }
                return Ok(out);
            }
            i = i + 1;
        }
        Err(RegistryError::NotInstalled { id: skill_id.to_owned() })
    }

    /// Removes every record of the given skill; removing an unknown skill is
    /// an error. Deleting the skill's directory is the embedding
    /// application's work.
    pub fn remove(&mut self, skill_id: &str) -> (r: Result<(), RegistryError>)
        ensures
            final(self).path == old(self).path,
            final(self).skills_dir == old(self).skills_dir,
            ({
                let recs = old(self).registry.records.deep_view();
                match r {
                    Ok(_) => final(self).registry.records.deep_view() == without_skill(
                        recs,
                        skill_id@,
                    ) && final(self).registry.records.deep_view().len() < recs.len(),
                    Err(e) => final(self).registry == old(self).registry && (e matches
                    RegistryError::NotInstalled { id } && id@ == skill_id@) && without_skill(
                        recs,
                        skill_id@,
                    ) == recs,
                }
            }),
    {
        let ghost recs = self.registry.records.deep_view();
        let n = self.registry.records.len();
        let mut kept: Vec<SkillRecord> = Vec::new();
        let mut i: usize = 0;
        while i < n
            invariant
                *self == *old(self),
                0 <= i <= n == self.registry.records@.len(),
                recs == self.registry.records.deep_view(),
                kept.deep_view() == without_skill(recs.take(i as int), skill_id@),
                kept@.len() <= i,
            decreases n - i,
        {
            proof {
                let k = i as int;
                assert(recs[k] == self.registry.records@[k].deep_view());
                assert(recs.take(k + 1) =~= recs.take(k).push(recs[k]));
                lemma_without_skill_push(recs.take(k), recs[k], skill_id@);
            }
            let keep = {
                let id = skill_id.to_owned();
                !(self.registry.records[i].skill_id == id)
            };
            if keep {
                kept.push(clone_skill_record(&self.registry.records[i]));
            }
            i = i + 1;
        }
        proof {
            assert(recs.take(n as int) =~= recs);
        }
        if kept.len() == n {
            proof {
                assert(kept.deep_view().len() == n);
                lemma_without_skill_full(recs, skill_id@);
                assert(kept.deep_view() =~= recs);
            }
            return Err(RegistryError::NotInstalled { id: skill_id.to_owned() });
        }
        proof {
            lemma_without_skill_len(recs, skill_id@);
        }
        self.registry.records = kept;
        Ok(())
    }
}

} // verus!
