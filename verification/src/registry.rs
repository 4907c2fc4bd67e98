//! The integration registry: which integrations a workspace has installed,
//! their permission contracts, and the install/enable/disable lifecycle.
//! Installation never enables: enabling demands explicit consent.

use crate::clock::now_rfc3339;
use vstd::prelude::*;

verus! {

/// What an integration may access, do, and send data to.
#[derive(Debug, Clone, PartialEq, Eq)]
pub struct IntegrationPermissionContract {
    pub integration_id: String,
    pub can_access: Vec<String>,
    pub can_do: Vec<String>,
    pub data_destinations: Vec<String>,
}

#[verifier::ext_equal]
pub struct IntegrationPermissionContractV {
    pub integration_id: Seq<char>,
    pub can_access: Seq<Seq<char>>,
    pub can_do: Seq<Seq<char>>,
    pub data_destinations: Seq<Seq<char>>,
}

impl DeepView for IntegrationPermissionContract {
    type V = IntegrationPermissionContractV;

    open spec fn deep_view(&self) -> IntegrationPermissionContractV {
        IntegrationPermissionContractV {
            integration_id: self.integration_id@,
            can_access: self.can_access.deep_view(),
            can_do: self.can_do.deep_view(),
            data_destinations: self.data_destinations.deep_view(),
        }
    }
}

/// Copies a permission contract, field for field.
pub fn clone_contract(c: &IntegrationPermissionContract) -> (r: IntegrationPermissionContract)
    ensures
        r.deep_view() == c.deep_view(),
{
    IntegrationPermissionContract {
        integration_id: c.integration_id.clone(),
        can_access: clone_strings(&c.can_access),
        can_do: clone_strings(&c.can_do),
        data_destinations: clone_strings(&c.data_destinations),
    }
}

/// Copies a list of strings.
pub fn clone_strings(v: &Vec<String>) -> (r: Vec<String>)
    ensures
        r.deep_view() == v.deep_view(),
{
    let mut out: Vec<String> = Vec::new();
    let n = v.len();
    let mut i: usize = 0;
    while i < n
        invariant
            0 <= i <= n == v@.len(),
            out@.len() == i,
            forall|j: int| 0 <= j < i ==> (#[trigger] out@[j])@ == v@[j]@,
        decreases n - i,
    {
        out.push(v[i].clone());
        i = i + 1;
    }
    proof {
        assert(out.deep_view() =~= v.deep_view());
    }
    out
}

#[derive(Debug, Clone, PartialEq, Eq)]
pub struct IntegrationRecord {
    pub integration_id: String,
    pub installed_at: String,
    pub enabled: bool,
    pub enabled_at: Option<String>,
    pub contract: IntegrationPermissionContract,
}

#[verifier::ext_equal]
pub struct IntegrationRecordV {
    pub integration_id: Seq<char>,
    pub installed_at: Seq<char>,
    pub enabled: bool,
    pub enabled_at: Option<Seq<char>>,
    pub contract: IntegrationPermissionContractV,
}

impl DeepView for IntegrationRecord {
    type V = IntegrationRecordV;

    open spec fn deep_view(&self) -> IntegrationRecordV {
        IntegrationRecordV {
            integration_id: self.integration_id@,
            installed_at: self.installed_at@,
            enabled: self.enabled,
            enabled_at: self.enabled_at.deep_view(),
            contract: self.contract.deep_view(),
        }
    }
}

/// Copies an integration record, field for field.
pub fn clone_integration_record(rec: &IntegrationRecord) -> (r: IntegrationRecord)
    ensures
        r.deep_view() == rec.deep_view(),
{
    IntegrationRecord {
        integration_id: rec.integration_id.clone(),
        installed_at: rec.installed_at.clone(),
        enabled: rec.enabled,
        enabled_at: match &rec.enabled_at {
            Some(s) => Some(s.clone()),
            None => None,
        },
        contract: clone_contract(&rec.contract),
    }
}

#[derive(Debug, Clone, PartialEq, Eq)]
pub struct IntegrationRegistry {
    pub records: Vec<IntegrationRecord>,
}

impl Default for IntegrationRegistry {
    fn default() -> (r: Self)
        ensures
            r.records@.len() == 0,
    {
        IntegrationRegistry { records: Vec::new() }
    }
}

/// Everything the registries can reject.
#[derive(Debug)]
pub enum RegistryError {
    /// Enabling demands explicit consent; installation never grants it.
    ConsentRequired,
    /// No record with the given id exists.
    NotInstalled { id: String },
    /// The identifier is empty or holds characters outside `[A-Za-z0-9_-]`.
    InvalidIdentifier,
    /// A display name must not be blank.
    EmptyDisplayName,
    /// The connector configuration does not fit its transport.
    InvalidConfig { reason: String },
}

/// One workspace's integration registry: the in-memory records and the path
/// the embedding application persists them under.
pub struct IntegrationRegistryStore {
    pub path: String,
    pub registry: IntegrationRegistry,
}

impl IntegrationRegistryStore {
    /// An empty store for the workspace rooted at `workspace_dir`.
    pub fn for_workspace(workspace_dir: &str) -> (r: Self)
        ensures
            r.path@ == workspace_dir@ + "/integrations.json"@,
            r.registry.records@.len() == 0,
    {
        let mut path = workspace_dir.to_owned();
        path.append("/integrations.json");
        IntegrationRegistryStore { path, registry: IntegrationRegistry::default() }
    }

    /// Installs (or re-contracts) an integration: an existing record keeps
    /// its enablement and gets the new contract; a new record starts
    /// disabled. Returns the stored record.
    pub fn install(&mut self, contract: IntegrationPermissionContract) -> (r: IntegrationRecord)
        ensures
            final(self).path == old(self).path,
            ({
                let recs = old(self).registry.records.deep_view();
                let id = contract.deep_view().integration_id;
                if (exists|i: int| 0 <= i < recs.len() && (#[trigger] recs[i]).integration_id
                    == id) {
                    exists|i: int|
                        0 <= i < recs.len() && (#[trigger] recs[i]).integration_id == id && (forall|
                            j: int,
                        | 0 <= j < i ==> recs[j].integration_id != id) && final(self).registry.records.deep_view() == recs.update(
                            i,
                            IntegrationRecordV { contract: contract.deep_view(), ..recs[i] },
                        ) && r.deep_view() == (IntegrationRecordV {
                            contract: contract.deep_view(),
                            ..recs[i]
                        })
                } else {
                    final(self).registry.records.deep_view() == recs.push(r.deep_view())
                        && r.deep_view().integration_id == id && !r.enabled
                        && r.deep_view().enabled_at is None && r.deep_view().contract
                        == contract.deep_view()
                }
            }),
    {
        let n = self.registry.records.len();
        let mut i: usize = 0;
        while i < n
            invariant
                *self == *old(self),
                0 <= i <= n == self.registry.records@.len(),
                forall|j: int|
                    0 <= j < i ==> (#[trigger] self.registry.records.deep_view()[j]).integration_id
                        != contract.integration_id@,
            decreases n - i,
        {
            proof {
                let k = i as int;
                assert(self.registry.records.deep_view()[k] == self.registry.records@[
                    k
                ].deep_view());
            }
            if self.registry.records[i].integration_id == contract.integration_id {
                let mut updated = clone_integration_record(&self.registry.records[i]);
                updated.contract = contract;
                let out = clone_integration_record(&updated);
                self.registry.records.set(i, updated);
                proof {
                    assert(final(self).registry.records.deep_view() =~= old(self).registry.records.deep_view().update(
                        i as int,
                        IntegrationRecordV {
                            contract: out.deep_view().contract,
                            ..old(self).registry.records.deep_view()[i as int]
                        },
                    ));
                }
                return out;
            }
            i = i + 1;
        }
        let (now, _) = now_rfc3339();
        let record = IntegrationRecord {
            integration_id: contract.integration_id.clone(),
            installed_at: now,
            enabled: false,
            enabled_at: None,
            contract,
        };
        let out = clone_integration_record(&record);
        self.registry.records.push(record);
        proof {
            assert(final(self).registry.records.deep_view() =~= old(self).registry.records.deep_view().push(out.deep_view()));
        }
        out
    }

    /// Enables an installed integration, recording when; `approved` must be
    /// explicit, installation alone never grants it.
    pub fn enable(&mut self, integration_id: &str, approved: bool) -> (r: Result<
        IntegrationRecord,
        RegistryError,
    >)
        ensures
            final(self).path == old(self).path,
            !approved ==> (r matches Err(e) && e is ConsentRequired && final(self).registry
                == old(self).registry),
            ({
                let recs = old(self).registry.records.deep_view();
                match r {
                    Ok(rec) => approved && exists|i: int|
                        0 <= i < recs.len() && (#[trigger] recs[i]).integration_id
                            == integration_id@ && (forall|j: int|
                            0 <= j < i ==> recs[j].integration_id != integration_id@) && final(self).registry.records.deep_view() == recs.update(i, rec.deep_view())
                            && rec.deep_view().enabled && rec.deep_view().integration_id
                            == integration_id@ && rec.deep_view().enabled_at is Some,
                    Err(e) => final(self).registry == old(self).registry && (approved ==> (
                    e matches RegistryError::NotInstalled { id } && id@ == integration_id@
                        && (forall|j: int|
                        0 <= j < recs.len() ==> (#[trigger] recs[j]).integration_id
                            != integration_id@))),
                }
            }),
    {
        if !approved {
            return Err(RegistryError::ConsentRequired);
        }
        let n = self.registry.records.len();
        let mut i: usize = 0;
        while i < n
            invariant
                approved,
                *self == *old(self),
                0 <= i <= n == self.registry.records@.len(),
                forall|j: int|
                    0 <= j < i ==> (#[trigger] self.registry.records.deep_view()[j]).integration_id
                        != integration_id@,
            decreases n - i,
        {
            proof {
                let k = i as int;
                assert(self.registry.records.deep_view()[k] == self.registry.records@[
                    k
                ].deep_view());
            }
            let found = {
                let rec = &self.registry.records[i];
                let id = integration_id.to_owned();
                rec.integration_id == id
            };
            if found {
                let (now, _) = now_rfc3339();
                let mut updated = clone_integration_record(&self.registry.records[i]);
                updated.enabled = true;
                updated.enabled_at = Some(now);
                let out = clone_integration_record(&updated);
                self.registry.records.set(i, updated);
                proof {
                    assert(final(self).registry.records.deep_view() =~= old(self).registry.records.deep_view().update(i as int, out.deep_view()));
                }
                return Ok(out);
            }
            i = i + 1;
        }
        Err(RegistryError::NotInstalled { id: integration_id.to_owned() })
    }

    /// Disables an installed integration.
    pub fn disable(&mut self, integration_id: &str) -> (r: Result<IntegrationRecord, RegistryError>)
        ensures
            final(self).path == old(self).path,
            ({
                let recs = old(self).registry.records.deep_view();
                match r {
                    Ok(rec) => exists|i: int|
                        0 <= i < recs.len() && (#[trigger] recs[i]).integration_id
                            == integration_id@ && (forall|j: int|
                            0 <= j < i ==> recs[j].integration_id != integration_id@) && final(self).registry.records.deep_view() == recs.update(i, rec.deep_view())
                            && rec.deep_view() == (IntegrationRecordV {
                            enabled: false,
                            ..recs[i]
                        }),
                    Err(e) => final(self).registry == old(self).registry && (e matches
                    RegistryError::NotInstalled { id } && id@ == integration_id@ && (forall|j: int|
                        0 <= j < recs.len() ==> (#[trigger] recs[j]).integration_id
                            != integration_id@)),
                }
            }),
    {
        let n = self.registry.records.len();
        let mut i: usize = 0;
        while i < n
            invariant
                *self == *old(self),
                0 <= i <= n == self.registry.records@.len(),
                forall|j: int|
                    0 <= j < i ==> (#[trigger] self.registry.records.deep_view()[j]).integration_id
                        != integration_id@,
            decreases n - i,
        {
            proof {
                let k = i as int;
                assert(self.registry.records.deep_view()[k] == self.registry.records@[
                    k
                ].deep_view());
            }
            let found = {
                let rec = &self.registry.records[i];
                let id = integration_id.to_owned();
                rec.integration_id == id
            };
            if found {
                let mut updated = clone_integration_record(&self.registry.records[i]);
                updated.enabled = false;
                let out = clone_integration_record(&updated);
                self.registry.records.set(i, updated);
                proof {
                    assert(out.deep_view() =~= (IntegrationRecordV {
                        enabled: false,
                        ..old(self).registry.records.deep_view()[i as int]
                    }));
                    assert(final(self).registry.records.deep_view() =~= old(self).registry.records.deep_view().update(i as int, out.deep_view()));
                }
                return Ok(out);
            }
            i = i + 1;
        }
        Err(RegistryError::NotInstalled { id: integration_id.to_owned() })
    }
}

} // verus!
