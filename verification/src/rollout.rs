//! Signed release rollout: a staged/current/previous release state machine
//! whose promotions are gated by Ed25519 signatures from a configurable set
//! of trusted signers, with deployment rings advancing Pilot, Group, All.
//!
//! The embedding application persists a [`RolloutState`] as a JSON document
//! per workspace; every transition here is pure and takes the caller's clock
//! reading for the timestamps it records.

use crate::crypto::{
    base64_flex_decode, decode_base64_flexible, ed25519_check, ed25519_key_valid, ed25519_verifies,
};
use crate::textfmt::{
    append_dec, dec_str, find_char, index_of_char, lemma_index_of_char_props, substring, trim_str,
    trimmed,
};
use vstd::prelude::*;
use vstd::string::StringSliceAdditionalSpecFns;
use vstd::utf8::encode_utf8;

verus! {

/// A deployment cohort a release is promoted through.
#[derive(Debug, Clone, Copy, PartialEq, Eq, Structural)]
pub enum RolloutRing {
    Pilot,
    Group,
    All,
}

/// The ring a release moves to on a ring-advancing promotion; `All` is
/// terminal.
pub fn next_rollout_ring(ring: RolloutRing) -> (r: RolloutRing)
    ensures
        r == match ring {
            RolloutRing::Pilot => RolloutRing::Group,
            RolloutRing::Group => RolloutRing::All,
            RolloutRing::All => RolloutRing::All,
        },
{
    match ring {
        RolloutRing::Pilot => RolloutRing::Group,
        RolloutRing::Group => RolloutRing::All,
        RolloutRing::All => RolloutRing::All,
    }
}

/// The lowercase label of a ring, as it appears in the signing payload.
pub open spec fn ring_label(ring: RolloutRing) -> Seq<char> {
    match ring {
        RolloutRing::Pilot => "pilot"@,
        RolloutRing::Group => "group"@,
        RolloutRing::All => "all"@,
    }
}

/// One release, as staged, promoted and rolled back.
#[derive(Debug)]
pub struct ReleaseDescriptor {
    pub release_id: String,
    pub version: String,
    pub checksum_sha256: String,
    pub signature: Option<String>,
    pub sbom_checksum_sha256: Option<String>,
    pub ring: RolloutRing,
    pub staged_at: String,
}

pub struct ReleaseDescriptorV {
    pub release_id: Seq<char>,
    pub version: Seq<char>,
    pub checksum_sha256: Seq<char>,
    pub signature: Option<Seq<char>>,
    pub sbom_checksum_sha256: Option<Seq<char>>,
    pub ring: RolloutRing,
    pub staged_at: Seq<char>,
}

impl DeepView for ReleaseDescriptor {
    type V = ReleaseDescriptorV;

    open spec fn deep_view(&self) -> ReleaseDescriptorV {
        ReleaseDescriptorV {
            release_id: self.release_id@,
            version: self.version@,
            checksum_sha256: self.checksum_sha256@,
            signature: self.signature.deep_view(),
            sbom_checksum_sha256: self.sbom_checksum_sha256.deep_view(),
            ring: self.ring,
            staged_at: self.staged_at@,
        }
    }
}

/// The rollout state machine of one workspace.
#[derive(Debug)]
pub struct RolloutState {
    pub version: u32,
    pub current_release: Option<ReleaseDescriptor>,
    pub previous_release: Option<ReleaseDescriptor>,
    pub staged_release: Option<ReleaseDescriptor>,
    pub signature_required: bool,
    pub trusted_signers: Vec<String>,
    pub last_verified_signer: Option<String>,
    pub last_promoted_at: Option<String>,
    pub last_verification_error: Option<String>,
    pub updated_at: String,
}

pub struct RolloutStateV {
    pub version: u32,
    pub current_release: Option<ReleaseDescriptorV>,
    pub previous_release: Option<ReleaseDescriptorV>,
    pub staged_release: Option<ReleaseDescriptorV>,
    pub signature_required: bool,
    pub trusted_signers: Seq<Seq<char>>,
    pub last_verified_signer: Option<Seq<char>>,
    pub last_promoted_at: Option<Seq<char>>,
    pub last_verification_error: Option<Seq<char>>,
    pub updated_at: Seq<char>,
}

impl DeepView for RolloutState {
    type V = RolloutStateV;

    open spec fn deep_view(&self) -> RolloutStateV {
        RolloutStateV {
            version: self.version,
            current_release: self.current_release.deep_view(),
            previous_release: self.previous_release.deep_view(),
            staged_release: self.staged_release.deep_view(),
            signature_required: self.signature_required,
            trusted_signers: self.trusted_signers.deep_view(),
            last_verified_signer: self.last_verified_signer.deep_view(),
            last_promoted_at: self.last_promoted_at.deep_view(),
            last_verification_error: self.last_verification_error.deep_view(),
            updated_at: self.updated_at@,
        }
    }
}

/// What staging a release submits; `staged_at` is stamped by the store.
#[derive(Debug)]
pub struct RolloutStageRequest {
    pub release_id: String,
    pub version: String,
    pub checksum_sha256: String,
    pub signature: Option<String>,
    pub sbom_checksum_sha256: Option<String>,
    pub ring: RolloutRing,
}

/// Everything the rollout state machine can reject.
#[derive(Debug)]
pub enum RolloutError {
    SignerEmpty { index: usize },
    SignerKeyIdEmpty { index: usize },
    SignerKeyNotBase64 { index: usize },
    SignerKeyWrongLength { index: usize },
    SignerKeyInvalid { key_id: String },
    SignatureEmpty,
    SignatureNotBase64,
    SignatureWrongLength,
    InvalidChecksum,
    InvalidSbomChecksum,
    SignatureMissing,
    NoTrustedSigners,
    PolicyNeedsSigners,
    VerificationFailed,
    NothingToPromote,
    NoPreviousRelease,
}

pub enum RolloutErrorV {
    SignerEmpty { index: int },
    SignerKeyIdEmpty { index: int },
    SignerKeyNotBase64 { index: int },
    SignerKeyWrongLength { index: int },
    SignerKeyInvalid { key_id: Seq<char> },
    SignatureEmpty,
    SignatureNotBase64,
    SignatureWrongLength,
    InvalidChecksum,
    InvalidSbomChecksum,
    SignatureMissing,
    NoTrustedSigners,
    PolicyNeedsSigners,
    VerificationFailed,
    NothingToPromote,
    NoPreviousRelease,
}

impl DeepView for RolloutError {
    type V = RolloutErrorV;

    open spec fn deep_view(&self) -> RolloutErrorV {
        match self {
            RolloutError::SignerEmpty { index } => RolloutErrorV::SignerEmpty {
                index: *index as int,
            },
            RolloutError::SignerKeyIdEmpty { index } => RolloutErrorV::SignerKeyIdEmpty {
                index: *index as int,
            },
            RolloutError::SignerKeyNotBase64 { index } => RolloutErrorV::SignerKeyNotBase64 {
                index: *index as int,
            },
            RolloutError::SignerKeyWrongLength { index } => RolloutErrorV::SignerKeyWrongLength {
                index: *index as int,
            },
            RolloutError::SignerKeyInvalid { key_id } => RolloutErrorV::SignerKeyInvalid {
                key_id: key_id@,
            },
            RolloutError::SignatureEmpty => RolloutErrorV::SignatureEmpty,
            RolloutError::SignatureNotBase64 => RolloutErrorV::SignatureNotBase64,
            RolloutError::SignatureWrongLength => RolloutErrorV::SignatureWrongLength,
            RolloutError::InvalidChecksum => RolloutErrorV::InvalidChecksum,
            RolloutError::InvalidSbomChecksum => RolloutErrorV::InvalidSbomChecksum,
            RolloutError::SignatureMissing => RolloutErrorV::SignatureMissing,
            RolloutError::NoTrustedSigners => RolloutErrorV::NoTrustedSigners,
            RolloutError::PolicyNeedsSigners => RolloutErrorV::PolicyNeedsSigners,
            RolloutError::VerificationFailed => RolloutErrorV::VerificationFailed,
            RolloutError::NothingToPromote => RolloutErrorV::NothingToPromote,
            RolloutError::NoPreviousRelease => RolloutErrorV::NoPreviousRelease,
        }
    }
}

pub open spec fn is_hex_char(c: char) -> bool {
    ('0' as u32 <= c as u32 && c as u32 <= '9' as u32) || ('a' as u32 <= c as u32 && c as u32
        <= 'f' as u32) || ('A' as u32 <= c as u32 && c as u32 <= 'F' as u32)
}

/// A well-formed SHA-256 checksum: exactly 64 hex characters, either case.
pub open spec fn is_sha256_hex(s: Seq<char>) -> bool {
    s.len() == 64 && forall|i: int| 0 <= i < s.len() ==> is_hex_char(#[trigger] s[i])
}

/// Checks that a checksum string is a well-formed 64-character SHA-256 hex
/// rendering.
pub fn validate_sha256_hex(raw: &str) -> (r: bool)
    ensures
        r == is_sha256_hex(raw@),
{
    let n = raw.unicode_len();
    if n != 64 {
        return false;
    }
    let mut i: usize = 0;
    while i < n
        invariant
            0 <= i <= n == raw@.len(),
            forall|j: int| 0 <= j < i ==> is_hex_char(#[trigger] raw@[j]),
        decreases n - i,
    {
        let c = raw.get_char(i);
        let u = c as u32;
        let hex = ('0' as u32 <= u && u <= '9' as u32) || ('a' as u32 <= u && u <= 'f' as u32) || (
        'A' as u32 <= u && u <= 'F' as u32);
        if !hex {
            return false;
        }
        i = i + 1;
    }
    true
}

/// The deterministic signed message for a release: newline-joined
/// `release_id=`, `version=`, `checksum_sha256=`, `sbom_checksum_sha256=`
/// (empty when absent) and `ring=` lines.
pub open spec fn signing_payload_chars(r: ReleaseDescriptorV) -> Seq<char> {
    "release_id="@ + r.release_id + "\nversion="@ + r.version + "\nchecksum_sha256="@
        + r.checksum_sha256 + "\nsbom_checksum_sha256="@ + (match r.sbom_checksum_sha256 {
        Some(s) => s,
        None => Seq::<char>::empty(),
    }) + "\nring="@ + ring_label(r.ring)
}

/// The UTF-8 bytes of the signed message.
pub open spec fn signing_payload_bytes(r: ReleaseDescriptorV) -> Seq<u8> {
    encode_utf8(signing_payload_chars(r))
}

/// Renders the signed message for a release.
pub fn release_signing_payload(release: &ReleaseDescriptor) -> (r: String)
    ensures
        r@ == signing_payload_chars(release.deep_view()),
{
    let mut out = String::from_str("release_id=");
    out.append(release.release_id.as_str());
    out.append("\nversion=");
    out.append(release.version.as_str());
    out.append("\nchecksum_sha256=");
    out.append(release.checksum_sha256.as_str());
    out.append("\nsbom_checksum_sha256=");
    match &release.sbom_checksum_sha256 {
        Some(s) => out.append(s.as_str()),
        None => (),
    }
    out.append("\nring=");
    let label = match release.ring {
        RolloutRing::Pilot => "pilot",
        RolloutRing::Group => "group",
        RolloutRing::All => "all",
    };
    out.append(label);
    proof {
        assert(out@ =~= signing_payload_chars(release.deep_view()));
    }
    out
}

/// How one `trusted_signers` entry splits into a signer id and a base64 key:
/// at the first `:` of the trimmed entry, or with the positional default id
/// `signer-N` when there is no `:`.
pub open spec fn split_signer_entry(entry: Seq<char>, index: int) -> (Seq<char>, Seq<char>) {
    let t = trimmed(entry);
    match index_of_char(t, ':') {
        Some(c) => (trimmed(t.take(c)), t.skip(c + 1)),
        None => ("signer-"@ + dec_str((index + 1) as nat), t),
    }
}

/// The signer id and 32 decoded key bytes of a well-formed signer entry;
/// `None` when the entry is empty, its id is empty, its key is not base64,
/// or the key is not 32 bytes.
pub open spec fn signer_entry_key(entry: Seq<char>, index: int) -> Option<(Seq<char>, Seq<u8>)> {
    let t = trimmed(entry);
    if t.len() == 0 {
        None
    } else {
        let (key_id, key_b64) = split_signer_entry(entry, index);
        if key_id.len() == 0 {
            None
        } else {
            match base64_flex_decode(key_b64) {
                Some(bytes) => if bytes.len() == 32 {
                    Some((key_id, bytes))
                } else {
                    None
                },
                None => None,
            }
        }
    }
}

/// The exact reason a malformed signer entry is rejected.
pub open spec fn signer_entry_error(entry: Seq<char>, index: int) -> RolloutErrorV {
    let t = trimmed(entry);
    if t.len() == 0 {
        RolloutErrorV::SignerEmpty { index }
    } else {
        let (key_id, key_b64) = split_signer_entry(entry, index);
        if key_id.len() == 0 {
            RolloutErrorV::SignerKeyIdEmpty { index }
        } else {
            match base64_flex_decode(key_b64) {
                Some(bytes) => RolloutErrorV::SignerKeyWrongLength { index },
                None => RolloutErrorV::SignerKeyNotBase64 { index },
            }
        }
    }
}

/// Parses one `trusted_signers` entry into its signer id and 32 key bytes.
pub fn parse_signer_entry(entry: &str, index: usize) -> (r: Result<
    (String, Vec<u8>),
    RolloutError,
>)
    requires
        index < usize::MAX,
    ensures
        match r {
            Ok((key_id, key)) => signer_entry_key(entry@, index as int) == Some((key_id@, key@)),
            Err(e) => signer_entry_key(entry@, index as int) is None && e.deep_view()
                == signer_entry_error(entry@, index as int),
        },
{
    let t = trim_str(entry);
    let tn = t.as_str().unicode_len();
    if tn == 0 {
        return Err(RolloutError::SignerEmpty { index });
    }
    let (key_id, key_b64): (String, String) = match find_char(t.as_str(), ':') {
        Some(c) => {
            proof {
                lemma_index_of_char_props(t@, ':');
            }
            let left = substring(t.as_str(), 0, c);
            let right = substring(t.as_str(), c + 1, tn);
            (trim_str(left.as_str()), right)
        },
        None => {
            let mut id = String::from_str("signer-");
            append_dec(&mut id, (index as u64) + 1);
            (id, t)
        },
    };
    if key_id.as_str().unicode_len() == 0 {
        return Err(RolloutError::SignerKeyIdEmpty { index });
    }
    match decode_base64_flexible(key_b64.as_str()) {
        Some(bytes) => {
            if bytes.len() == 32 {
                Ok((key_id, bytes))
            } else {
                Err(RolloutError::SignerKeyWrongLength { index })
            }
        },
        None => Err(RolloutError::SignerKeyNotBase64 { index }),
    }
}

/// The key hint and 64 decoded signature bytes of a signature value, or the
/// exact reason it is rejected: `key_hint:base64` is preferred, a value
/// whose tail does not decode falls back to decoding the whole value.
pub open spec fn signature_value_outcome(raw: Seq<char>) -> Result<
    (Option<Seq<char>>, Seq<u8>),
    RolloutErrorV,
> {
    let t = trimmed(raw);
    if t.len() == 0 {
        Err(RolloutErrorV::SignatureEmpty)
    } else {
        match index_of_char(t, ':') {
            Some(c) => match base64_flex_decode(t.skip(c + 1)) {
                Some(bytes) => if bytes.len() == 64 {
                    let hint = trimmed(t.take(c));
                    Ok(
                        (
                            if hint.len() == 0 {
                                None
                            } else {
                                Some(hint)
                            },
                            bytes,
                        ),
                    )
                } else {
                    Err(RolloutErrorV::SignatureWrongLength)
                },
                None => bare_signature_outcome(t),
            },
            None => bare_signature_outcome(t),
        }
    }
}

pub open spec fn bare_signature_outcome(t: Seq<char>) -> Result<
    (Option<Seq<char>>, Seq<u8>),
    RolloutErrorV,
> {
    match base64_flex_decode(t) {
        Some(bytes) => if bytes.len() == 64 {
            Ok((None, bytes))
        } else {
            Err(RolloutErrorV::SignatureWrongLength)
        },
        None => Err(RolloutErrorV::SignatureNotBase64),
    }
}

/// Parses a release signature value into its optional key hint and 64
/// signature bytes.
pub fn parse_signature_value(raw: &str) -> (r: Result<(Option<String>, Vec<u8>), RolloutError>)
    ensures
        match r {
            Ok((hint, sig)) => signature_value_outcome(raw@) == Ok::<
                (Option<Seq<char>>, Seq<u8>),
                RolloutErrorV,
            >((hint.deep_view(), sig@)),
            Err(e) => signature_value_outcome(raw@) == Err::<
                (Option<Seq<char>>, Seq<u8>),
                RolloutErrorV,
            >(e.deep_view()),
        },
{
    let t = trim_str(raw);
    let tn = t.as_str().unicode_len();
    if tn == 0 {
        return Err(RolloutError::SignatureEmpty);
    }
    match find_char(t.as_str(), ':') {
        Some(c) => {
            proof {
                lemma_index_of_char_props(t@, ':');
            }
            let right = substring(t.as_str(), c + 1, tn);
            match decode_base64_flexible(right.as_str()) {
                Some(bytes) => {
                    if bytes.len() == 64 {
                        let hint = trim_str(substring(t.as_str(), 0, c).as_str());
                        let hint_out = if hint.as_str().unicode_len() == 0 {
                            None
                        } else {
                            Some(hint)
                        };
                        Ok((hint_out, bytes))
                    } else {
                        Err(RolloutError::SignatureWrongLength)
                    }
                },
                None => bare_signature(&t),
            }
        },
        None => bare_signature(&t),
    }
}

/// The message recorded for a rollout failure, word for word.
pub open spec fn rollout_error_message(e: RolloutErrorV) -> Seq<char> {
    match e {
        RolloutErrorV::SignerEmpty { index } => "trusted_signers["@ + dec_str(index as nat)
            + "] is empty"@,
        RolloutErrorV::SignerKeyIdEmpty { index } => "trusted_signers["@ + dec_str(index as nat)
            + "] key id is empty"@,
        RolloutErrorV::SignerKeyNotBase64 { index } => "trusted_signers["@ + dec_str(index as nat)
            + "] key is not valid base64"@,
        RolloutErrorV::SignerKeyWrongLength { index } => "trusted_signers["@ + dec_str(
            index as nat,
        ) + "] key must decode to 32 bytes"@,
        RolloutErrorV::SignerKeyInvalid { key_id } => "trusted signer '"@ + key_id
            + "' has invalid key material"@,
        RolloutErrorV::SignatureEmpty => "signature is empty"@,
        RolloutErrorV::SignatureNotBase64 => "failed to decode base64 payload"@,
        RolloutErrorV::SignatureWrongLength => "signature must decode to 64 bytes"@,
        RolloutErrorV::InvalidChecksum => "checksum_sha256 must be a lowercase/uppercase 64-char SHA-256 hex string"@,
        RolloutErrorV::InvalidSbomChecksum => "sbom_checksum_sha256 must be a lowercase/uppercase 64-char SHA-256 hex string"@,
        RolloutErrorV::SignatureMissing => "release signature is required but missing"@,
        RolloutErrorV::NoTrustedSigners => "signature_required=true but trusted_signers is empty"@,
        RolloutErrorV::PolicyNeedsSigners => "signature_required=true requires at least one trusted signer"@,
        RolloutErrorV::VerificationFailed => "release signature verification failed for staged release"@,
        RolloutErrorV::NothingToPromote => "no staged or current release available to promote"@,
        RolloutErrorV::NoPreviousRelease => "no previous release found for rollback"@,
    }
}

impl RolloutError {
    /// The operator-facing description of the failure.
    pub fn message(&self) -> (r: String)
        ensures
            r@ == rollout_error_message(self.deep_view()),
    {
        match self {
            RolloutError::SignerEmpty { index } => {
                let mut out = String::from_str("trusted_signers[");
                append_dec(&mut out, *index as u64);
                out.append("] is empty");
                out
            },
            RolloutError::SignerKeyIdEmpty { index } => {
                let mut out = String::from_str("trusted_signers[");
                append_dec(&mut out, *index as u64);
                out.append("] key id is empty");
                out
            },
            RolloutError::SignerKeyNotBase64 { index } => {
                let mut out = String::from_str("trusted_signers[");
                append_dec(&mut out, *index as u64);
                out.append("] key is not valid base64");
                out
            },
            RolloutError::SignerKeyWrongLength { index } => {
                let mut out = String::from_str("trusted_signers[");
                append_dec(&mut out, *index as u64);
                out.append("] key must decode to 32 bytes");
                out
            },
            RolloutError::SignerKeyInvalid { key_id } => {
                let mut out = String::from_str("trusted signer '");
                out.append(key_id.as_str());
                out.append("' has invalid key material");
                out
            },
            RolloutError::SignatureEmpty => String::from_str("signature is empty"),
            RolloutError::SignatureNotBase64 => String::from_str("failed to decode base64 payload"),
            RolloutError::SignatureWrongLength => String::from_str(
                "signature must decode to 64 bytes",
            ),
            RolloutError::InvalidChecksum => String::from_str(
                "checksum_sha256 must be a lowercase/uppercase 64-char SHA-256 hex string",
            ),
            RolloutError::InvalidSbomChecksum => String::from_str(
                "sbom_checksum_sha256 must be a lowercase/uppercase 64-char SHA-256 hex string",
            ),
            RolloutError::SignatureMissing => String::from_str(
                "release signature is required but missing",
            ),
            RolloutError::NoTrustedSigners => String::from_str(
                "signature_required=true but trusted_signers is empty",
            ),
            RolloutError::PolicyNeedsSigners => String::from_str(
                "signature_required=true requires at least one trusted signer",
            ),
            RolloutError::VerificationFailed => String::from_str(
                "release signature verification failed for staged release",
            ),
            RolloutError::NothingToPromote => String::from_str(
                "no staged or current release available to promote",
            ),
            RolloutError::NoPreviousRelease => String::from_str(
                "no previous release found for rollback",
            ),
        }
    }
}

fn bare_signature(t: &String) -> (r: Result<(Option<String>, Vec<u8>), RolloutError>)
    ensures
        match r {
            Ok((hint, sig)) => bare_signature_outcome(t@) == Ok::<
                (Option<Seq<char>>, Seq<u8>),
                RolloutErrorV,
            >((hint.deep_view(), sig@)),
            Err(e) => bare_signature_outcome(t@) == Err::<
                (Option<Seq<char>>, Seq<u8>),
                RolloutErrorV,
            >(e.deep_view()),
        },
{
    match decode_base64_flexible(t.as_str()) {
        Some(bytes) => {
            if bytes.len() == 64 {
                Ok((None, bytes))
            } else {
                Err(RolloutError::SignatureWrongLength)
            }
        },
        None => Err(RolloutError::SignatureNotBase64),
    }
}

/// The verdict of trying the trusted signers from position `from` on: the
/// id of the first signer whose key validates the signature over the
/// message, skipping signers the key hint rules out; the parse or key error
/// of the first malformed entry reached; or verification failure when no
/// signer is left.
pub open spec fn scan_signers(
    signers: Seq<Seq<char>>,
    from: nat,
    hint: Option<Seq<char>>,
    msg: Seq<u8>,
    sig: Seq<u8>,
) -> Result<Seq<char>, RolloutErrorV>
    decreases signers.len() - from,
{
    if from >= signers.len() {
        Err(RolloutErrorV::VerificationFailed)
    } else {
        match signer_entry_key(signers[from as int], from as int) {
            None => Err(signer_entry_error(signers[from as int], from as int)),
            Some((key_id, key)) => if (match hint {
                Some(h) => h != key_id,
                None => false,
            }) {
                scan_signers(signers, from + 1, hint, msg, sig)
            } else if !ed25519_key_valid(key) {
                Err(RolloutErrorV::SignerKeyInvalid { key_id })
            } else if ed25519_verifies(key, msg, sig) {
                Ok(key_id)
            } else {
                scan_signers(signers, from + 1, hint, msg, sig)
            },
        }
    }
}

/// The complete verification verdict for a release under a signing policy:
/// malformed checksums are rejected first, an unrequired signature passes
/// trivially, and otherwise the signature value is parsed and the trusted
/// signers are scanned for the first one that validates it.
pub open spec fn verify_signature_spec(
    signature_required: bool,
    trusted_signers: Seq<Seq<char>>,
    release: ReleaseDescriptorV,
) -> Result<Seq<char>, RolloutErrorV> {
    if !is_sha256_hex(release.checksum_sha256) {
        Err(RolloutErrorV::InvalidChecksum)
    } else if (match release.sbom_checksum_sha256 {
        Some(s) => !is_sha256_hex(s),
        None => false,
    }) {
        Err(RolloutErrorV::InvalidSbomChecksum)
    } else if !signature_required {
        Ok("signature_not_required"@)
    } else {
        match release.signature {
            None => Err(RolloutErrorV::SignatureMissing),
            Some(raw) => match signature_value_outcome(raw) {
                Err(e) => Err(e),
                Ok((hint, sig)) => if trusted_signers.len() == 0 {
                    Err(RolloutErrorV::NoTrustedSigners)
                } else {
                    scan_signers(trusted_signers, 0, hint, signing_payload_bytes(release), sig)
                },
            },
        }
    }
}

proof fn lemma_signer_key_shape(entry: Seq<char>, index: int)
    ensures
        signer_entry_key(entry, index) matches Some((key_id, key)) ==> key.len() == 32,
{
}

proof fn lemma_signature_outcome_shape(raw: Seq<char>)
    ensures
        signature_value_outcome(raw) matches Ok((hint, sig)) ==> sig.len() == 64,
{
}

/// Verifies the staged release's signature against the rollout's signing
/// policy, returning the id of the accepting trusted signer.
#[verifier::rlimit(60)]
pub fn verify_release_signature(rollout: &RolloutState, release: &ReleaseDescriptor) -> (r: Result<
    String,
    RolloutError,
>)
    ensures
        match r {
            Ok(id) => verify_signature_spec(
                rollout.signature_required,
                rollout.trusted_signers.deep_view(),
                release.deep_view(),
            ) == Ok::<Seq<char>, RolloutErrorV>(id@),
            Err(e) => verify_signature_spec(
                rollout.signature_required,
                rollout.trusted_signers.deep_view(),
                release.deep_view(),
            ) == Err::<Seq<char>, RolloutErrorV>(e.deep_view()),
        },
{
    if !validate_sha256_hex(release.checksum_sha256.as_str()) {
        return Err(RolloutError::InvalidChecksum);
    }
    match &release.sbom_checksum_sha256 {
        Some(s) => {
            if !validate_sha256_hex(s.as_str()) {
                return Err(RolloutError::InvalidSbomChecksum);
            }
        },
        None => (),
    }
    if !rollout.signature_required {
        return Ok(String::from_str("signature_not_required"));
    }
    let raw = match &release.signature {
        Some(s) => s,
        None => {
            return Err(RolloutError::SignatureMissing);
        },
    };
    let (hint, sig) = match parse_signature_value(raw.as_str()) {
        Ok(parts) => parts,
        Err(e) => {
            return Err(e);
        },
    };
    proof {
        lemma_signature_outcome_shape(raw@);
    }
    let message = release_signing_payload(release);
    let msg_str = message.as_str();
    let msg_bytes = msg_str.as_bytes();
    let n = rollout.trusted_signers.len();
    if n == 0 {
        return Err(RolloutError::NoTrustedSigners);
    }
    let ghost signers_dv = rollout.trusted_signers.deep_view();
    let ghost hint_dv = hint.deep_view();
    let ghost payload = signing_payload_bytes(release.deep_view());
    proof {
        assert(release.deep_view().signature == Some(raw@));
        assert(signature_value_outcome(raw@) == Ok::<
            (Option<Seq<char>>, Seq<u8>),
            RolloutErrorV,
        >((hint_dv, sig@)));
        assert(verify_signature_spec(
            rollout.signature_required,
            signers_dv,
            release.deep_view(),
        ) == scan_signers(signers_dv, 0, hint_dv, payload, sig@));
    }
    let mut i: usize = 0;
    while i < n
        invariant
            0 <= i <= n == signers_dv.len(),
            n == rollout.trusted_signers@.len(),
            signers_dv == rollout.trusted_signers.deep_view(),
            hint_dv == hint.deep_view(),
            sig@.len() == 64,
            msg_bytes@ == payload,
            scan_signers(signers_dv, 0, hint_dv, payload, sig@) == scan_signers(
                signers_dv,
                i as nat,
                hint_dv,
                payload,
                sig@,
            ),
            verify_signature_spec(
                rollout.signature_required,
                signers_dv,
                release.deep_view(),
            ) == scan_signers(signers_dv, 0, hint_dv, payload, sig@),
        decreases n - i,
    {
        proof {
            assert(signers_dv[i as int] == rollout.trusted_signers@[i as int]@);
        }
        let entry = &rollout.trusted_signers[i];
        match parse_signer_entry(entry.as_str(), i) {
            Err(e) => {
                proof {
                    assert(signer_entry_key(signers_dv[i as int], i as int) is None);
                    assert(scan_signers(signers_dv, i as nat, hint_dv, payload, sig@) == Err::<
                        Seq<char>,
                        RolloutErrorV,
                    >(signer_entry_error(signers_dv[i as int], i as int)));
                }
                return Err(e);
            },
            Ok((key_id, key)) => {
                proof {
                    lemma_signer_key_shape(signers_dv[i as int], i as int);
                    assert(signer_entry_key(signers_dv[i as int], i as int) == Some(
                        (key_id@, key@),
                    ));
                }
                let skip = match &hint {
                    Some(h) => !(*h == key_id),
                    None => false,
                };
                proof {
                    assert(skip == (match hint_dv {
                        Some(h) => h != key_id@,
                        None => false,
                    }));
                }
                if !skip {
                    match ed25519_check(key.as_slice(), msg_bytes, sig.as_slice()) {
                        Err(()) => {
                            proof {
                                assert(!ed25519_key_valid(key@));
                                assert(scan_signers(signers_dv, i as nat, hint_dv, payload, sig@)
                                    == Err::<Seq<char>, RolloutErrorV>(
                                    RolloutErrorV::SignerKeyInvalid { key_id: key_id@ },
                                ));
                            }
                            return Err(RolloutError::SignerKeyInvalid { key_id });
                        },
                        Ok(passed) => {
                            if passed {
                                proof {
                                    assert(ed25519_verifies(key@, payload, sig@));
                                    assert(scan_signers(
                                        signers_dv,
                                        i as nat,
                                        hint_dv,
                                        payload,
                                        sig@,
                                    ) == Ok::<Seq<char>, RolloutErrorV>(key_id@));
                                }
                                return Ok(key_id);
                            }
                            proof {
                                assert(scan_signers(signers_dv, i as nat, hint_dv, payload, sig@)
                                    == scan_signers(
                                    signers_dv,
                                    (i + 1) as nat,
                                    hint_dv,
                                    payload,
                                    sig@,
                                ));
                            }
                        },
                    }
                } else {
                    proof {
                        assert(scan_signers(signers_dv, i as nat, hint_dv, payload, sig@)
                            == scan_signers(signers_dv, (i + 1) as nat, hint_dv, payload, sig@));
                    }
                }
            },
        }
        i = i + 1;
    }
    proof {
        assert(scan_signers(signers_dv, n as nat, hint_dv, payload, sig@) == Err::<
            Seq<char>,
            RolloutErrorV,
        >(RolloutErrorV::VerificationFailed));
    }
    Err(RolloutError::VerificationFailed)
}

/// The message recorded when a loaded signing policy is self-healed.
pub open spec fn legacy_signer_message() -> Seq<char> {
    "legacy signer configuration detected; signing policy reset and requires reconfiguration"@
}

/// A signing policy is intact only when it names at least one trusted
/// signer and every entry parses to a usable key.
pub open spec fn signing_policy_intact(signers: Seq<Seq<char>>) -> bool {
    signers.len() > 0 && forall|i: int|
        0 <= i < signers.len() ==> signer_entry_key(#[trigger] signers[i], i) is Some
}

/// What a successful promotion and a failed one do to the rollout state:
/// with a staged release, verification success moves it to `current` and
/// demotes the old `current` to `previous`; verification failure retains
/// the staged release and records the error. With nothing staged, the
/// current release's ring advances one step.
pub open spec fn promote_spec(s: RolloutStateV, now: Seq<char>) -> (RolloutStateV, Result<
    (),
    RolloutErrorV,
>) {
    match s.staged_release {
        Some(staged) => match verify_signature_spec(
            s.signature_required,
            s.trusted_signers,
            staged,
        ) {
            Ok(signer) => (
                RolloutStateV {
                    previous_release: s.current_release,
                    current_release: Some(staged),
                    staged_release: None,
                    last_verified_signer: Some(signer),
                    last_verification_error: None,
                    last_promoted_at: Some(now),
                    updated_at: now,
                    ..s
                },
                Ok(()),
            ),
            Err(e) => (
                RolloutStateV {
                    last_verification_error: Some(rollout_error_message(e)),
                    updated_at: now,
                    ..s
                },
                Err(e),
            ),
        },
        None => match s.current_release {
            Some(current) => (
                RolloutStateV {
                    current_release: Some(
                        ReleaseDescriptorV {
                            ring: match current.ring {
                                RolloutRing::Pilot => RolloutRing::Group,
                                RolloutRing::Group => RolloutRing::All,
                                RolloutRing::All => RolloutRing::All,
                            },
                            ..current
                        },
                    ),
                    last_promoted_at: Some(now),
                    updated_at: now,
                    ..s
                },
                Ok(()),
            ),
            None => (s, Err(RolloutErrorV::NothingToPromote)),
        },
    }
}

/// What a rollback does: with a previous release on record, the current
/// release is demoted to `staged` and the previous one restored as
/// `current`; without one, nothing changes.
pub open spec fn rollback_spec(s: RolloutStateV, now: Seq<char>) -> (RolloutStateV, Result<
    (),
    RolloutErrorV,
>) {
    match s.previous_release {
        None => (s, Err(RolloutErrorV::NoPreviousRelease)),
        Some(previous) => (
            RolloutStateV {
                staged_release: s.current_release,
                current_release: Some(previous),
                updated_at: now,
                ..s
            },
            Ok(()),
        ),
    }
}

impl Default for RolloutState {
    /// The rollout state of a workspace that has never staged a release:
    /// nothing deployed and no signing policy, stamped with the current time.
    fn default() -> (r: Self)
        ensures
            r.version == 1,
            r.current_release is None,
            r.previous_release is None,
            r.staged_release is None,
            !r.signature_required,
            r.trusted_signers@.len() == 0,
            r.last_verified_signer is None,
            r.last_promoted_at is None,
            r.last_verification_error is None,
    {
        let (now, _) = crate::clock::now_rfc3339();
        RolloutState {
            version: 1,
            current_release: None,
            previous_release: None,
            staged_release: None,
            signature_required: false,
            trusted_signers: Vec::new(),
            last_verified_signer: None,
            last_promoted_at: None,
            last_verification_error: None,
            updated_at: now,
        }
    }
}

impl RolloutState {
    fn reset_signing_policy(&mut self)
        ensures
            final(self).deep_view() == (RolloutStateV {
                signature_required: false,
                trusted_signers: Seq::empty(),
                last_verification_error: Some(legacy_signer_message()),
                ..old(self).deep_view()
            }),
    {
        self.signature_required = false;
        self.trusted_signers = Vec::new();
        self.last_verification_error = Some(
            String::from_str(
                "legacy signer configuration detected; signing policy reset and requires reconfiguration",
            ),
        );
        proof {
            assert(final(self).deep_view().trusted_signers =~= Seq::<Seq<char>>::empty());
        }
    }

    /// Heals a legacy signing policy on load: when signatures are required,
    /// the signer list must be non-empty and every entry must parse to a
    /// usable key; otherwise signing is disabled, the signer list cleared,
    /// and the reason recorded.
    pub fn normalize_loaded(&mut self)
        ensures
            if old(self).signature_required && !signing_policy_intact(
                old(self).deep_view().trusted_signers,
            ) {
                final(self).deep_view() == (RolloutStateV {
                    signature_required: false,
                    trusted_signers: Seq::empty(),
                    last_verification_error: Some(legacy_signer_message()),
                    ..old(self).deep_view()
                })
            } else {
                final(self).deep_view() == old(self).deep_view()
            },
    {
        if !self.signature_required {
            return ;
        }
        let ghost signers_dv = self.trusted_signers.deep_view();
        let n = self.trusted_signers.len();
        if n == 0 {
            self.reset_signing_policy();
            return ;
        }
        let mut i: usize = 0;
        while i < n
            invariant
                self.signature_required,
                0 <= i <= n == signers_dv.len(),
                signers_dv == self.trusted_signers.deep_view(),
                n == self.trusted_signers@.len(),
                *self == *old(self),
                forall|j: int|
                    0 <= j < i ==> signer_entry_key(#[trigger] signers_dv[j], j) is Some,
            decreases n - i,
        {
            proof {
                assert(signers_dv[i as int] == self.trusted_signers@[i as int]@);
            }
            let entry = &self.trusted_signers[i];
            if parse_signer_entry(entry.as_str(), i).is_err() {
                proof {
                    assert(signer_entry_key(signers_dv[i as int], i as int) is None);
                    assert(!signing_policy_intact(signers_dv));
                }
                self.reset_signing_policy();
                return ;
            }
            i = i + 1;
        }
        proof {
            assert(signing_policy_intact(signers_dv));
        }
    }

    /// Validates and stores a release as the staged release. The checksum
    /// fields must be well-formed SHA-256 hex and a supplied signature value
    /// must parse; signatures are not verified until promotion.
    pub fn stage_release(&mut self, request: RolloutStageRequest, staged_at: String, now: String)
        -> (r: Result<(), RolloutError>)
        ensures
            match r {
                Ok(_) => {
                    &&& is_sha256_hex(request.checksum_sha256@)
                    &&& (request.sbom_checksum_sha256 matches Some(s) ==> is_sha256_hex(s@))
                    &&& (request.signature matches Some(raw) ==> signature_value_outcome(
                        raw@,
                    ) is Ok)
                    &&& final(self).deep_view() == (RolloutStateV {
                        staged_release: Some(
                            ReleaseDescriptorV {
                                release_id: request.release_id@,
                                version: request.version@,
                                checksum_sha256: request.checksum_sha256@,
                                signature: request.signature.deep_view(),
                                sbom_checksum_sha256: request.sbom_checksum_sha256.deep_view(),
                                ring: request.ring,
                                staged_at: staged_at@,
                            },
                        ),
                        updated_at: now@,
                        ..old(self).deep_view()
                    })
                },
                Err(e) => {
                    &&& final(self).deep_view() == old(self).deep_view()
                    &&& (match e.deep_view() {
                        RolloutErrorV::InvalidChecksum => !is_sha256_hex(request.checksum_sha256@),
                        RolloutErrorV::InvalidSbomChecksum => is_sha256_hex(
                            request.checksum_sha256@,
                        ) && (request.sbom_checksum_sha256 matches Some(s) && !is_sha256_hex(s@)),
                        _ => request.signature matches Some(raw) && signature_value_outcome(raw@)
                            == Err::<(Option<Seq<char>>, Seq<u8>), RolloutErrorV>(e.deep_view()),
                    })
                },
            },
    {
        if !validate_sha256_hex(request.checksum_sha256.as_str()) {
            return Err(RolloutError::InvalidChecksum);
        }
        match &request.sbom_checksum_sha256 {
            Some(s) => {
                if !validate_sha256_hex(s.as_str()) {
                    return Err(RolloutError::InvalidSbomChecksum);
                }
            },
            None => (),
        }
        match &request.signature {
            Some(raw) => {
                match parse_signature_value(raw.as_str()) {
                    Ok(_) => (),
                    Err(e) => {
                        proof {
                            lemma_signature_error_not_checksum(raw@);
                        }
                        return Err(e);
                    },
                }
            },
            None => (),
        }
        self.staged_release = Some(
            ReleaseDescriptor {
                release_id: request.release_id,
                version: request.version,
                checksum_sha256: request.checksum_sha256,
                signature: request.signature,
                sbom_checksum_sha256: request.sbom_checksum_sha256,
                ring: request.ring,
                staged_at,
            },
        );
        self.updated_at = now;
        Ok(())
    }

    /// Replaces the signing policy: requiring signatures demands at least
    /// one trusted signer, and every supplied signer entry must parse.
    pub fn set_signing_policy(
        &mut self,
        signature_required: bool,
        trusted_signers: Vec<String>,
        now: String,
    ) -> (r: Result<(), RolloutError>)
        ensures
            match r {
                Ok(_) => {
                    &&& (signature_required ==> trusted_signers@.len() > 0)
                    &&& (forall|i: int|
                        0 <= i < trusted_signers@.len() ==> signer_entry_key(
                            #[trigger] trusted_signers.deep_view()[i],
                            i,
                        ) is Some)
                    &&& final(self).deep_view() == (RolloutStateV {
                        signature_required: signature_required,
                        trusted_signers: trusted_signers.deep_view(),
                        last_verification_error: None,
                        updated_at: now@,
                        ..old(self).deep_view()
                    })
                },
                Err(e) => {
                    &&& final(self).deep_view() == old(self).deep_view()
                    &&& (match e.deep_view() {
                        RolloutErrorV::PolicyNeedsSigners => signature_required
                            && trusted_signers@.len() == 0,
                        _ => exists|i: int|
                            0 <= i < trusted_signers@.len() && signer_entry_key(
                                #[trigger] trusted_signers.deep_view()[i],
                                i,
                            ) is None && e.deep_view() == signer_entry_error(
                                trusted_signers.deep_view()[i],
                                i,
                            ),
                    })
                },
            },
    {
        let n = trusted_signers.len();
        if signature_required && n == 0 {
            return Err(RolloutError::PolicyNeedsSigners);
        }
        let ghost signers_dv = trusted_signers.deep_view();
        let mut i: usize = 0;
        while i < n
            invariant
                0 <= i <= n == signers_dv.len(),
                signers_dv == trusted_signers.deep_view(),
                n == trusted_signers@.len(),
                forall|j: int|
                    0 <= j < i ==> signer_entry_key(#[trigger] signers_dv[j], j) is Some,
            decreases n - i,
        {
            proof {
                assert(signers_dv[i as int] == trusted_signers@[i as int]@);
            }
            let entry = &trusted_signers[i];
            match parse_signer_entry(entry.as_str(), i) {
                Ok(_) => (),
                Err(e) => {
                    return Err(e);
                },
            }
            i = i + 1;
        }
        self.signature_required = signature_required;
        self.trusted_signers = trusted_signers;
        self.last_verification_error = None;
        self.updated_at = now;
        Ok(())
    }

    /// Promotes the rollout one step, as [`promote_spec`] describes:
    /// promotion is fail-closed, a staged release that fails verification
    /// stays staged and the failure is recorded.
    pub fn promote(&mut self, now: String) -> (r: Result<(), RolloutError>)
        ensures
            ({
                let (next, res) = promote_spec(old(self).deep_view(), now@);
                &&& final(self).deep_view() == next
                &&& (match r {
                    Ok(_) => res is Ok,
                    Err(e) => res matches Err(ev) && ev == e.deep_view(),
                })
            }),
    {
        let staged_taken = self.staged_release.take();
        match staged_taken {
            Some(staged) => {
                match verify_release_signature(self, &staged) {
                    Ok(signer) => {
                        self.last_verified_signer = Some(signer);
                        self.last_verification_error = None;
                        let old_current = self.current_release.take();
                        self.previous_release = old_current;
                        self.current_release = Some(staged);
                        self.last_promoted_at = Some(now.clone());
                        self.updated_at = now;
                        Ok(())
                    },
                    Err(error) => {
                        self.last_verification_error = Some(error.message());
                        self.staged_release = Some(staged);
                        self.updated_at = now;
                        Err(error)
                    },
                }
            },
            None => {
                match self.current_release.take() {
                    Some(current) => {
                        let next_ring = next_rollout_ring(current.ring);
                        let mut advanced = current;
                        advanced.ring = next_ring;
                        self.current_release = Some(advanced);
                        self.last_promoted_at = Some(now.clone());
                        self.updated_at = now;
                        Ok(())
                    },
                    None => Err(RolloutError::NothingToPromote),
                }
            },
        }
    }

    /// Rolls back one promotion, as [`rollback_spec`] describes.
    pub fn rollback(&mut self, now: String) -> (r: Result<(), RolloutError>)
        ensures
            ({
                let (next, res) = rollback_spec(old(self).deep_view(), now@);
                &&& final(self).deep_view() == next
                &&& (match r {
                    Ok(_) => res is Ok,
                    Err(e) => res matches Err(ev) && ev == e.deep_view(),
                })
            }),
    {
        if self.previous_release.is_none() {
            return Err(RolloutError::NoPreviousRelease);
        }
        let previous = self.previous_release.take();
        self.previous_release = match &previous {
            Some(p) => Some(clone_release(p)),
            None => None,
        };
        let old_current = self.current_release.take();
        self.staged_release = old_current;
        self.current_release = previous;
        self.updated_at = now;
        Ok(())
    }
}

proof fn lemma_signature_error_not_checksum(raw: Seq<char>)
    ensures
        signature_value_outcome(raw) matches Err(e) ==> (e != RolloutErrorV::InvalidChecksum && e
            != RolloutErrorV::InvalidSbomChecksum),
{
}

fn clone_release(r: &ReleaseDescriptor) -> (c: ReleaseDescriptor)
    ensures
        c.deep_view() == r.deep_view(),
{
    ReleaseDescriptor {
        release_id: r.release_id.clone(),
        version: r.version.clone(),
        checksum_sha256: r.checksum_sha256.clone(),
        signature: match &r.signature {
            Some(s) => Some(s.clone()),
            None => None,
        },
        sbom_checksum_sha256: match &r.sbom_checksum_sha256 {
            Some(s) => Some(s.clone()),
            None => None,
        },
        ring: r.ring,
        staged_at: r.staged_at.clone(),
    }
}

/// A staged release whose signature fails verification is retained, the
/// failure is recorded for the operator, and promotion reports an error:
/// promotion is fail-closed.
pub proof fn lemma_failed_promotion_fail_closed(s: RolloutStateV, now: Seq<char>)
    requires
        s.staged_release is Some,
        verify_signature_spec(
            s.signature_required,
            s.trusted_signers,
            s.staged_release.unwrap(),
        ) is Err,
    ensures
        ({
            let (next, res) = promote_spec(s, now);
            &&& res is Err
            &&& next.staged_release == s.staged_release
            &&& next.current_release == s.current_release
            &&& next.previous_release == s.previous_release
            &&& next.last_verification_error is Some
        }),
{
}

/// Rolling back right after a successful promotion of a staged release
/// restores the prior release as `current` and parks the just-demoted
/// release in `staged_release`.
pub proof fn lemma_promote_then_rollback(s: RolloutStateV, now1: Seq<char>, now2: Seq<char>)
    requires
        s.staged_release is Some,
        s.current_release is Some,
        promote_spec(s, now1).1 is Ok,
    ensures
        ({
            let promoted = promote_spec(s, now1).0;
            let (next, res) = rollback_spec(promoted, now2);
            &&& res is Ok
            &&& next.current_release == s.current_release
            &&& next.staged_release == s.staged_release
        }),
{
}


} // verus!
