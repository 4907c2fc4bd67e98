//! The MCP connector registry: connector configurations, their transport
//! validation, and the install/enable/disable/remove lifecycle. As with
//! integrations, installation never enables.

use crate::clock::now_rfc3339;
use crate::registry::{
    clone_contract, clone_strings, IntegrationPermissionContract, IntegrationPermissionContractV,
    RegistryError,
};
use crate::textfmt::{bytes_eq, lower_byte, lower_bytes, trim_str, trimmed};
use vstd::prelude::*;
use vstd::string::StringSliceAdditionalSpecFns;
use vstd::utf8::encode_utf8;

verus! {

#[derive(Debug, Clone, PartialEq, Eq)]
pub struct McpConnectorConfig {
    pub transport: String,
    pub endpoint: Option<String>,
    pub command: Option<String>,
    pub args: Vec<String>,
    pub env_secret_ids: Vec<String>,
    pub timeout_secs: Option<u32>,
}

#[verifier::ext_equal]
pub struct McpConnectorConfigV {
    pub transport: Seq<char>,
    pub endpoint: Option<Seq<char>>,
    pub command: Option<Seq<char>>,
    pub args: Seq<Seq<char>>,
    pub env_secret_ids: Seq<Seq<char>>,
    pub timeout_secs: Option<u32>,
}

impl DeepView for McpConnectorConfig {
    type V = McpConnectorConfigV;

    open spec fn deep_view(&self) -> McpConnectorConfigV {
        McpConnectorConfigV {
            transport: self.transport@,
            endpoint: self.endpoint.deep_view(),
            command: self.command.deep_view(),
            args: self.args.deep_view(),
            env_secret_ids: self.env_secret_ids.deep_view(),
            timeout_secs: self.timeout_secs,
        }
    }
}

pub fn clone_config(c: &McpConnectorConfig) -> (r: McpConnectorConfig)
    ensures
        r.deep_view() == c.deep_view(),
{
    McpConnectorConfig {
        transport: c.transport.clone(),
        endpoint: match &c.endpoint {
            Some(s) => Some(s.clone()),
            None => None,
        },
        command: match &c.command {
            Some(s) => Some(s.clone()),
            None => None,
        },
        args: clone_strings(&c.args),
        env_secret_ids: clone_strings(&c.env_secret_ids),
        timeout_secs: c.timeout_secs,
    }
}

#[derive(Debug, Clone, PartialEq, Eq)]
pub struct McpConnectorInstallRequest {
    pub connector_id: String,
    pub display_name: String,
    pub config: McpConnectorConfig,
    pub contract: IntegrationPermissionContract,
}

#[derive(Debug, Clone, PartialEq, Eq)]
pub struct McpConnectorRecord {
    pub connector_id: String,
    pub display_name: String,
    pub installed_at: String,
    pub updated_at: String,
    pub enabled: bool,
    pub enabled_at: Option<String>,
    pub config: McpConnectorConfig,
    pub contract: IntegrationPermissionContract,
}

#[verifier::ext_equal]
pub struct McpConnectorRecordV {
    pub connector_id: Seq<char>,
    pub display_name: Seq<char>,
    pub installed_at: Seq<char>,
    pub updated_at: Seq<char>,
    pub enabled: bool,
    pub enabled_at: Option<Seq<char>>,
    pub config: McpConnectorConfigV,
    pub contract: IntegrationPermissionContractV,
}

impl DeepView for McpConnectorRecord {
    type V = McpConnectorRecordV;

    open spec fn deep_view(&self) -> McpConnectorRecordV {
        McpConnectorRecordV {
            connector_id: self.connector_id@,
            display_name: self.display_name@,
            installed_at: self.installed_at@,
            updated_at: self.updated_at@,
            enabled: self.enabled,
            enabled_at: self.enabled_at.deep_view(),
            config: self.config.deep_view(),
            contract: self.contract.deep_view(),
        }
    }
}

pub fn clone_connector_record(rec: &McpConnectorRecord) -> (r: McpConnectorRecord)
    ensures
        r.deep_view() == rec.deep_view(),
{
    McpConnectorRecord {
        connector_id: rec.connector_id.clone(),
        display_name: rec.display_name.clone(),
        installed_at: rec.installed_at.clone(),
        updated_at: rec.updated_at.clone(),
        enabled: rec.enabled,
        enabled_at: match &rec.enabled_at {
            Some(s) => Some(s.clone()),
            None => None,
        },
        config: clone_config(&rec.config),
        contract: clone_contract(&rec.contract),
    }
}

#[derive(Debug, Clone, PartialEq, Eq)]
pub struct McpConnectorRegistry {
    pub records: Vec<McpConnectorRecord>,
}

impl Default for McpConnectorRegistry {
    fn default() -> (r: Self)
        ensures
            r.records@.len() == 0,
    {
        McpConnectorRegistry { records: Vec::new() }
    }
}

/// A character an identifier may hold.
pub open spec fn is_ident_char(c: char) -> bool {
    ('0' as u32 <= c as u32 && c as u32 <= '9' as u32) || ('a' as u32 <= c as u32 && c as u32
        <= 'z' as u32) || ('A' as u32 <= c as u32 && c as u32 <= 'Z' as u32) || c == '-' || c == '_'
}

/// A well-formed identifier: not blank, and only ASCII alphanumerics,
/// hyphens and underscores.
pub open spec fn valid_identifier_spec(s: Seq<char>) -> bool {
    trimmed(s).len() > 0 && forall|i: int| 0 <= i < s.len() ==> is_ident_char(#[trigger] s[i])
}

/// Checks that an identifier is well-formed.
pub fn validate_identifier(id: &str) -> (r: bool)
    ensures
        r == valid_identifier_spec(id@),
{
    let t = trim_str(id);
    if t.as_str().unicode_len() == 0 {
        return false;
    }
    let n = id.unicode_len();
    let mut i: usize = 0;
    while i < n
        invariant
            0 <= i <= n == id@.len(),
            forall|j: int| 0 <= j < i ==> is_ident_char(#[trigger] id@[j]),
        decreases n - i,
    {
        let c = id.get_char(i);
        let u = c as u32;
        let ok = ('0' as u32 <= u && u <= '9' as u32) || ('a' as u32 <= u && u <= 'z' as u32) || (
        'A' as u32 <= u && u <= 'Z' as u32) || c == '-' || c == '_';
        if !ok {
            return false;
        }
        i = i + 1;
    }
    true
}

fn lower_ascii_of(s: &str) -> (r: Vec<u8>)
    ensures
        r@ == lower_bytes(s.spec_bytes()),
{
    let bytes = s.as_bytes();
    let n = bytes.len();
    let mut out: Vec<u8> = Vec::new();
    let mut i: usize = 0;
    while i < n
        invariant
            bytes@ == s.spec_bytes(),
            0 <= i <= n == bytes@.len(),
            out@.len() == i,
            forall|j: int| 0 <= j < i ==> out@[j] == lower_byte(#[trigger] bytes@[j]),
        decreases n - i,
    {
        let b = *vstd::slice::slice_index_get(bytes, i);
        out.push(if 0x41 <= b && b <= 0x5a {
            b + 0x20
        } else {
            b
        });
        i = i + 1;
    }
    proof {
        assert(out@ =~= lower_bytes(s.spec_bytes()));
    }
    out
}

/// The connector's transport label: trimmed and ASCII-lowercased UTF-8
/// bytes.
pub open spec fn transport_label(c: McpConnectorConfigV) -> Seq<u8> {
    lower_bytes(encode_utf8(trimmed(c.transport)))
}

pub open spec fn is_stdio_transport(t: Seq<u8>) -> bool {
    t == "stdio".spec_bytes()
}

pub open spec fn is_network_transport(t: Seq<u8>) -> bool {
    t == "sse".spec_bytes() || t == "http".spec_bytes() || t == "https".spec_bytes() || t
        == "websocket".spec_bytes() || t == "ws".spec_bytes() || t == "wss".spec_bytes()
}

/// A connector configuration fits its transport: stdio demands a command,
/// a network transport demands an endpoint, anything else is unsupported.
pub open spec fn config_ok(c: McpConnectorConfigV) -> bool {
    if is_stdio_transport(transport_label(c)) {
        c.command matches Some(cmd) && trimmed(cmd).len() > 0
    } else if is_network_transport(transport_label(c)) {
        c.endpoint matches Some(e) && trimmed(e).len() > 0
    } else {
        false
    }
}

/// Checks that a connector configuration fits its transport.
pub fn validate_config(config: &McpConnectorConfig) -> (r: Result<(), RegistryError>)
    ensures
        r is Ok <==> config_ok(config.deep_view()),
        r matches Err(e) ==> e is InvalidConfig,
{
    let trimmed_transport = trim_str(config.transport.as_str());
    let label = lower_ascii_of(trimmed_transport.as_str());
    if bytes_eq(&label, "stdio") {
        let ok = match &config.command {
            Some(cmd) => trim_str(cmd.as_str()).as_str().unicode_len() > 0,
            None => false,
        };
        if ok {
            Ok(())
        } else {
            Err(RegistryError::InvalidConfig {
                reason: "stdio transport requires command".to_owned(),
            })
        }
    } else if bytes_eq(&label, "sse") || bytes_eq(&label, "http") || bytes_eq(&label, "https")
        || bytes_eq(&label, "websocket") || bytes_eq(&label, "ws") || bytes_eq(&label, "wss") {
        let ok = match &config.endpoint {
            Some(e) => trim_str(e.as_str()).as_str().unicode_len() > 0,
            None => false,
        };
        if ok {
            Ok(())
        } else {
            Err(RegistryError::InvalidConfig {
                reason: "network transport requires endpoint".to_owned(),
            })
        }
    } else {
        let mut reason = String::from_str("unsupported transport '");
        reason.append(config.transport.as_str());
        reason.append("'");
        Err(RegistryError::InvalidConfig { reason })
    }
}

/// The records left once every connector with the given id is removed.
pub open spec fn without_connector(s: Seq<McpConnectorRecordV>, id: Seq<char>) -> Seq<
    McpConnectorRecordV,
>
    decreases s.len(),
{
    if s.len() == 0 {
        Seq::empty()
    } else {
        (if s[0].connector_id == id {
            Seq::empty()
        } else {
            seq![s[0]]
        }) + without_connector(s.drop_first(), id)
    }
}

proof fn lemma_without_connector_push(s: Seq<McpConnectorRecordV>, x: McpConnectorRecordV, id: Seq<char>)
    ensures
        without_connector(s.push(x), id) == if x.connector_id == id {
            without_connector(s, id)
        } else {
            without_connector(s, id).push(x)
        },
        without_connector(s, id).len() <= s.len(),
    decreases s.len(),
{
    if s.len() == 0 {
        assert(s.push(x)[0] == x);
        assert(s.push(x).drop_first() =~= Seq::<McpConnectorRecordV>::empty());
        assert(without_connector(Seq::<McpConnectorRecordV>::empty(), id) =~= Seq::<
            McpConnectorRecordV,
        >::empty());
        assert(without_connector(s.push(x), id) == (if x.connector_id == id {
            Seq::<McpConnectorRecordV>::empty()
        } else {
            seq![x]
        }) + without_connector(s.push(x).drop_first(), id));
        if x.connector_id == id {
            assert(without_connector(s.push(x), id) =~= without_connector(s, id));
        } else {
            assert(without_connector(s.push(x), id) =~= without_connector(s, id).push(x));
        }
    } else {
        assert(s.push(x)[0] == s[0]);
        assert(s.push(x).drop_first() =~= s.drop_first().push(x));
        lemma_without_connector_push(s.drop_first(), x, id);
        if x.connector_id == id {
            assert(without_connector(s.push(x), id) =~= without_connector(s, id));
        } else {
            assert(without_connector(s.push(x), id) =~= without_connector(s, id).push(x));
        }
    }
}

proof fn lemma_without_connector_len(s: Seq<McpConnectorRecordV>, id: Seq<char>)
    ensures
        without_connector(s, id).len() <= s.len(),
    decreases s.len(),
{
    if s.len() > 0 {
        lemma_without_connector_len(s.drop_first(), id);
    }
}

proof fn lemma_without_connector_full(s: Seq<McpConnectorRecordV>, id: Seq<char>)
    requires
        without_connector(s, id).len() == s.len(),
    ensures
        without_connector(s, id) == s,
    decreases s.len(),
{
    if s.len() > 0 {
        lemma_without_connector_len(s.drop_first(), id);
        if s[0].connector_id == id {
            assert(without_connector(s, id).len() <= s.len() - 1);
        } else {
            lemma_without_connector_full(s.drop_first(), id);
            assert(without_connector(s, id) =~= s);
        }
    } else {
        assert(without_connector(s, id) =~= s);
    }
}

/// One workspace's MCP connector registry: the in-memory records and the
/// path the embedding application persists them under.
pub struct McpConnectorStore {
    pub path: String,
    pub registry: McpConnectorRegistry,
}

impl McpConnectorStore {
    /// An empty store for the workspace rooted at `workspace_dir`.
    pub fn for_workspace(workspace_dir: &str) -> (r: Self)
        ensures
            r.path@ == workspace_dir@ + "/mcp_connectors.json"@,
            r.registry.records@.len() == 0,
    {
        let mut path = workspace_dir.to_owned();
        path.append("/mcp_connectors.json");
        McpConnectorStore { path, registry: McpConnectorRegistry::default() }
    }

    /// Installs (or re-configures) a connector after validating its
    /// identifier, display name and configuration. An existing record keeps
    /// its enablement; a new one starts disabled.
    pub fn install(&mut self, request: McpConnectorInstallRequest) -> (r: Result<
        McpConnectorRecord,
        RegistryError,
    >)
        ensures
            final(self).path == old(self).path,
            !valid_identifier_spec(request.connector_id@) ==> (r matches Err(e)
                && e is InvalidIdentifier && final(self).registry == old(self).registry),
            valid_identifier_spec(request.connector_id@) && trimmed(request.display_name@).len()
                == 0 ==> (r matches Err(e) && e is EmptyDisplayName && final(self).registry == old(self).registry),
            valid_identifier_spec(request.connector_id@) && trimmed(request.display_name@).len()
                > 0 && !config_ok(request.config.deep_view()) ==> (r matches Err(e)
                && e is InvalidConfig && final(self).registry == old(self).registry),
            r matches Ok(rec) ==> valid_identifier_spec(request.connector_id@) && config_ok(
                request.config.deep_view(),
            ) && rec.deep_view().connector_id == request.connector_id@
                && rec.deep_view().display_name == request.display_name@ && rec.deep_view().config
                == request.config.deep_view() && rec.deep_view().contract
                == request.contract.deep_view() && ({
                let recs = old(self).registry.records.deep_view();
                if (exists|i: int| 0 <= i < recs.len() && (#[trigger] recs[i]).connector_id
                    == request.connector_id@) {
                    exists|i: int|
                        0 <= i < recs.len() && (#[trigger] recs[i]).connector_id
                            == request.connector_id@ && (forall|j: int|
                            0 <= j < i ==> recs[j].connector_id != request.connector_id@) && final(self).registry.records.deep_view() == recs.update(i, rec.deep_view())
                            && rec.deep_view().enabled == recs[i].enabled
                } else {
                    final(self).registry.records.deep_view() == recs.push(rec.deep_view())
                        && !rec.enabled
                }
            }),
    {
        if !validate_identifier(request.connector_id.as_str()) {
            return Err(RegistryError::InvalidIdentifier);
        }
        if trim_str(request.display_name.as_str()).as_str().unicode_len() == 0 {
            return Err(RegistryError::EmptyDisplayName);
        }
        match validate_config(&request.config) {
            Ok(_) => (),
            Err(e) => {
                return Err(e);
            },
        }
        let (now, _) = now_rfc3339();
        let n = self.registry.records.len();
        let mut i: usize = 0;
        while i < n
            invariant
                *self == *old(self),
                valid_identifier_spec(request.connector_id@),
                trimmed(request.display_name@).len() > 0,
                config_ok(request.config.deep_view()),
                0 <= i <= n == self.registry.records@.len(),
                forall|j: int|
                    0 <= j < i ==> (#[trigger] self.registry.records.deep_view()[j]).connector_id
                        != request.connector_id@,
            decreases n - i,
        {
            proof {
                let k = i as int;
                assert(self.registry.records.deep_view()[k] == self.registry.records@[
                    k
                ].deep_view());
            }
            if self.registry.records[i].connector_id == request.connector_id {
                let mut updated = clone_connector_record(&self.registry.records[i]);
                updated.display_name = request.display_name;
                updated.config = request.config;
                updated.contract = request.contract;
                updated.updated_at = now;
                let out = clone_connector_record(&updated);
                self.registry.records.set(i, updated);
                proof {
                    assert(self.registry.records.deep_view() =~= old(self).registry.records.deep_view().update(i as int, out.deep_view()));
                }
                return Ok(out);
            }
            i = i + 1;
        }
        let record = McpConnectorRecord {
            connector_id: request.connector_id,
            display_name: request.display_name,
            installed_at: now.clone(),
            updated_at: now,
            enabled: false,
            enabled_at: None,
            config: request.config,
            contract: request.contract,
        };
        let out = clone_connector_record(&record);
        self.registry.records.push(record);
        proof {
            assert(self.registry.records.deep_view() =~= old(self).registry.records.deep_view().push(out.deep_view()));
        }
        Ok(out)
    }

    /// Replaces an installed connector's configuration after validating it.
    pub fn update_config(&mut self, connector_id: &str, config: McpConnectorConfig) -> (r: Result<
        McpConnectorRecord,
        RegistryError,
    >)
        ensures
            final(self).path == old(self).path,
            r matches Ok(rec) ==> config_ok(config.deep_view()) && (exists|i: int|
                0 <= i < old(self).registry.records.deep_view().len() && (#[trigger] old(self).registry.records.deep_view()[i]).connector_id == connector_id@ && final(self).registry.records.deep_view() == old(self).registry.records.deep_view().update(
                    i,
                    rec.deep_view(),
                ) && rec.deep_view().config == config.deep_view()),
            r is Err ==> final(self).registry == old(self).registry,
    {
        match validate_config(&config) {
            Ok(_) => (),
            Err(e) => {
                return Err(e);
            },
        }
        let n = self.registry.records.len();
        let mut i: usize = 0;
        while i < n
            invariant
                *self == *old(self),
                config_ok(config.deep_view()),
                0 <= i <= n == self.registry.records@.len(),
            decreases n - i,
        {
            proof {
                let k = i as int;
                assert(self.registry.records.deep_view()[k] == self.registry.records@[
                    k
                ].deep_view());
            }
            let found = {
                let id = connector_id.to_owned();
                self.registry.records[i].connector_id == id
            };
            if found {
                let (now, _) = now_rfc3339();
                let mut updated = clone_connector_record(&self.registry.records[i]);
                updated.config = config;
                updated.updated_at = now;
                let out = clone_connector_record(&updated);
                self.registry.records.set(i, updated);
                proof {
                    assert(self.registry.records.deep_view() =~= old(self).registry.records.deep_view().update(i as int, out.deep_view()));
                }
                return Ok(out);
            }
            i = i + 1;
        }
        Err(RegistryError::NotInstalled { id: connector_id.to_owned() })
    }

    /// Enables an installed connector; `approved` must be explicit.
    pub fn enable(&mut self, connector_id: &str, approved: bool) -> (r: Result<
        McpConnectorRecord,
        RegistryError,
    >)
        ensures
            final(self).path == old(self).path,
            !approved ==> (r matches Err(e) && e is ConsentRequired && final(self).registry == old(self).registry),
            r matches Ok(rec) ==> approved && rec.deep_view().enabled
                && rec.deep_view().enabled_at is Some && rec.deep_view().connector_id
                == connector_id@ && (exists|i: int|
                0 <= i < old(self).registry.records.deep_view().len() && (#[trigger] old(self).registry.records.deep_view()[i]).connector_id == connector_id@ && final(self).registry.records.deep_view() == old(self).registry.records.deep_view().update(
                    i,
                    rec.deep_view(),
                )),
            r is Err ==> final(self).registry == old(self).registry,
    {
        if !approved {
            return Err(RegistryError::ConsentRequired);
        }
        let n = self.registry.records.len();
        let mut i: usize = 0;
        while i < n
            invariant
                approved,
                *self == *old(self),
                0 <= i <= n == self.registry.records@.len(),
            decreases n - i,
        {
            proof {
                let k = i as int;
                assert(self.registry.records.deep_view()[k] == self.registry.records@[
                    k
                ].deep_view());
            }
            let found = {
                let id = connector_id.to_owned();
                self.registry.records[i].connector_id == id
            };
            if found {
                let (now, _) = now_rfc3339();
                let mut updated = clone_connector_record(&self.registry.records[i]);
                updated.enabled = true;
                updated.enabled_at = Some(now.clone());
                updated.updated_at = now;
                let out = clone_connector_record(&updated);
                self.registry.records.set(i, updated);
                proof {
                    assert(self.registry.records.deep_view() =~= old(self).registry.records.deep_view().update(i as int, out.deep_view()));
                }
                return Ok(out);
            }
            i = i + 1;
        }
        Err(RegistryError::NotInstalled { id: connector_id.to_owned() })
    }

    /// Disables an installed connector.
    pub fn disable(&mut self, connector_id: &str) -> (r: Result<McpConnectorRecord, RegistryError>)
        ensures
            final(self).path == old(self).path,
            r matches Ok(rec) ==> !rec.deep_view().enabled && rec.deep_view().connector_id
                == connector_id@ && (exists|i: int|
                0 <= i < old(self).registry.records.deep_view().len() && (#[trigger] old(self).registry.records.deep_view()[i]).connector_id == connector_id@ && final(self).registry.records.deep_view() == old(self).registry.records.deep_view().update(
                    i,
                    rec.deep_view(),
                )),
            r is Err ==> final(self).registry == old(self).registry,
    {
        let n = self.registry.records.len();
        let mut i: usize = 0;
        while i < n
            invariant
                *self == *old(self),
                0 <= i <= n == self.registry.records@.len(),
            decreases n - i,
        {
            proof {
                let k = i as int;
                assert(self.registry.records.deep_view()[k] == self.registry.records@[
                    k
                ].deep_view());
            }
            let found = {
                let id = connector_id.to_owned();
                self.registry.records[i].connector_id == id
            };
            if found {
                let (now, _) = now_rfc3339();
                let mut updated = clone_connector_record(&self.registry.records[i]);
                updated.enabled = false;
                updated.updated_at = now;
                let out = clone_connector_record(&updated);
                self.registry.records.set(i, updated);
                proof {
                    assert(self.registry.records.deep_view() =~= old(self).registry.records.deep_view().update(i as int, out.deep_view()));
                }
                return Ok(out);
            }
            i = i + 1;
        }
        Err(RegistryError::NotInstalled { id: connector_id.to_owned() })
    }

    /// Removes every record of the given connector; removing an unknown
    /// connector is an error.
    pub fn remove(&mut self, connector_id: &str) -> (r: Result<(), RegistryError>)
        ensures
            final(self).path == old(self).path,
            ({
                let recs = old(self).registry.records.deep_view();
                match r {
                    Ok(_) => final(self).registry.records.deep_view() == without_connector(
                        recs,
                        connector_id@,
                    ) && final(self).registry.records.deep_view().len() < recs.len(),
                    Err(e) => final(self).registry == old(self).registry && (e matches
                    RegistryError::NotInstalled { id } && id@ == connector_id@)
                        && without_connector(recs, connector_id@) == recs,
                }
            }),
    {
        let ghost recs = self.registry.records.deep_view();
        let n = self.registry.records.len();
        let mut kept: Vec<McpConnectorRecord> = Vec::new();
        let mut i: usize = 0;
        while i < n
            invariant
                *self == *old(self),
                0 <= i <= n == self.registry.records@.len(),
                recs == self.registry.records.deep_view(),
                kept.deep_view() == without_connector(recs.take(i as int), connector_id@),
                kept@.len() <= i,
            decreases n - i,
        {
            proof {
                let k = i as int;
                assert(recs[k] == self.registry.records@[k].deep_view());
                assert(recs.take(k + 1) =~= recs.take(k).push(recs[k]));
                lemma_without_connector_push(recs.take(k), recs[k], connector_id@);
            }
            let keep = {
                let id = connector_id.to_owned();
                !(self.registry.records[i].connector_id == id)
            };
            if keep {
                kept.push(clone_connector_record(&self.registry.records[i]));
            }
            i = i + 1;
        }
        proof {
            assert(recs.take(n as int) =~= recs);
        }
        if kept.len() == n {
            proof {
                assert(kept.deep_view().len() == n);
                lemma_without_connector_full(recs, connector_id@);
                assert(kept.deep_view() =~= recs);
            }
            return Err(RegistryError::NotInstalled { id: connector_id.to_owned() });
        }
        proof {
            lemma_without_connector_len(recs, connector_id@);
        }
        self.registry.records = kept;
        Ok(())
    }
}

} // verus!
