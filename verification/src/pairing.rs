//! Device pairing: minting the bundle a hub hands a remote client. The
//! access token is 32 random bytes rendered URL-safe, the bundle expires a
//! requested number of minutes after minting, and the QR payload is a JSON
//! object carrying everything a client needs to connect.

use crate::clock::{clock_window, new_uuid, rfc3339_micros};
use crate::crypto::{base64url_nopad, encode_base64url_nopad, random_token_bytes};
use crate::jsontext::{json_quoted, push_json_quoted, push_str_bytes};
use crate::textfmt::utf8_string;
use vstd::prelude::*;
use vstd::string::StringSliceAdditionalSpecFns;
use vstd::utf8::{encode_utf8, valid_utf8};

verus! {

#[derive(Debug, Clone, Copy, PartialEq, Eq, Structural)]
pub enum PairingTransport {
    Lan,
    Tailscale,
    CloudflareTunnel,
    NgrokTunnel,
}

impl PairingTransport {
    /// The transport's label inside the QR payload.
    pub open spec fn label(self) -> Seq<char> {
        match self {
            PairingTransport::Lan => "lan"@,
            PairingTransport::Tailscale => "tailscale"@,
            PairingTransport::CloudflareTunnel => "cloudflare_tunnel"@,
            PairingTransport::NgrokTunnel => "ngrok_tunnel"@,
        }
    }

    pub fn as_str(&self) -> (r: &'static str)
        ensures
            r@ == self.label(),
    {
        match self {
            PairingTransport::Lan => "lan",
            PairingTransport::Tailscale => "tailscale",
            PairingTransport::CloudflareTunnel => "cloudflare_tunnel",
            PairingTransport::NgrokTunnel => "ngrok_tunnel",
        }
    }
}

#[derive(Debug, Clone, Copy, PartialEq, Eq, Structural)]
pub enum SnapshotSyncMode {
    Disabled,
    PlaceholderEncryptedSnapshot,
}

#[derive(Debug, Clone, PartialEq, Eq)]
pub struct PairingBundle {
    pub pairing_id: String,
    pub hub_device: String,
    pub endpoint: String,
    pub transport: PairingTransport,
    pub access_token: String,
    pub created_at: String,
    pub expires_at: String,
    pub qr_payload: String,
    pub snapshot_sync_mode: SnapshotSyncMode,
    pub notes: String,
}

#[derive(Debug, Clone, PartialEq, Eq)]
pub struct PairingRequest {
    pub hub_device: String,
    pub endpoint: String,
    pub transport: PairingTransport,
    pub expires_in_minutes: u32,
}

/// How long a bundle lives, in seconds: at least one minute, saturated at
/// the clock window's range.
pub open spec fn pairing_window_seconds(minutes: u32) -> int {
    let floored = if minutes < 1 {
        1
    } else {
        minutes as int
    };
    if floored * 60 > 0xffff_ffff {
        0xffff_ffff
    } else {
        floored * 60
    }
}

/// A JSON string literal holding the UTF-8 encoding of `s`.
pub open spec fn jfield(s: Seq<char>) -> Seq<u8> {
    json_quoted(encode_utf8(s))
}

/// The QR payload: a JSON object naming the pairing, the hub, how to reach
/// it, the access token, and when the bundle expires.
pub open spec fn qr_payload_bytes(
    pairing_id: Seq<char>,
    hub_device: Seq<char>,
    endpoint: Seq<char>,
    transport: PairingTransport,
    access_token: Seq<char>,
    expires_at: Seq<char>,
) -> Seq<u8> {
    "{\"pairing_id\":".spec_bytes() + jfield(pairing_id) + ",\"hub_device\":".spec_bytes()
        + jfield(hub_device) + ",\"endpoint\":".spec_bytes() + jfield(endpoint)
        + ",\"transport\":".spec_bytes() + jfield(transport.label())
        + ",\"access_token\":".spec_bytes() + jfield(access_token)
        + ",\"expires_at\":".spec_bytes() + jfield(expires_at)
        + ",\"snapshot_sync_mode\":\"placeholder_encrypted_snapshot\"}".spec_bytes()
}

/// Mints a pairing bundle: a fresh pairing id, a random 32-byte access
/// token rendered URL-safe, an expiry the requested number of minutes from
/// now (at least one), and the QR payload carrying them all.
pub fn create_pairing_bundle(request: PairingRequest) -> (r: PairingBundle)
    ensures
        r.hub_device@ == request.hub_device@,
        r.endpoint@ == request.endpoint@,
        r.transport == request.transport,
        r.pairing_id@.len() == 36,
        r.snapshot_sync_mode is PlaceholderEncryptedSnapshot,
        rfc3339_micros(r.created_at@) is Some,
        rfc3339_micros(r.expires_at@) == Some(
            rfc3339_micros(r.created_at@).unwrap() + pairing_window_seconds(
                request.expires_in_minutes,
            ) * 1_000_000,
        ),
        exists|token: Seq<u8>| token.len() == 32 && r.access_token@ == #[trigger] base64url_nopad(
            token,
        ),
        encode_utf8(r.qr_payload@) == qr_payload_bytes(
            r.pairing_id@,
            request.hub_device@,
            request.endpoint@,
            request.transport,
            r.access_token@,
            r.expires_at@,
        ),
{
    let minutes: u32 = if request.expires_in_minutes < 1 {
        1
    } else {
        request.expires_in_minutes
    };
    let seconds_wide: u64 = (minutes as u64) * 60;
    let seconds: u32 = if seconds_wide > 0xffff_ffff {
        0xffff_ffff
    } else {
        seconds_wide as u32
    };
    let (created_at, expires_at, _) = clock_window(seconds);
    let token = random_token_bytes();
    let access_token = encode_base64url_nopad(token.as_slice());
    let pairing_id = new_uuid();

    let mut payload: Vec<u8> = Vec::new();
    proof {
        assert(valid_utf8(Seq::<u8>::empty()));
    }
    push_str_bytes(&mut payload, "{\"pairing_id\":");
    push_json_quoted(&mut payload, pairing_id.as_str());
    push_str_bytes(&mut payload, ",\"hub_device\":");
    push_json_quoted(&mut payload, request.hub_device.as_str());
    push_str_bytes(&mut payload, ",\"endpoint\":");
    push_json_quoted(&mut payload, request.endpoint.as_str());
    push_str_bytes(&mut payload, ",\"transport\":");
    push_json_quoted(&mut payload, request.transport.as_str());
    push_str_bytes(&mut payload, ",\"access_token\":");
    push_json_quoted(&mut payload, access_token.as_str());
    push_str_bytes(&mut payload, ",\"expires_at\":");
    push_json_quoted(&mut payload, expires_at.as_str());
    push_str_bytes(&mut payload, ",\"snapshot_sync_mode\":\"placeholder_encrypted_snapshot\"}");
    proof {
        assert(payload@ =~= qr_payload_bytes(
            pairing_id@,
            request.hub_device@,
            request.endpoint@,
            request.transport,
            access_token@,
            expires_at@,
        ));
    }
    let qr_payload = utf8_string(payload);

    PairingBundle {
        pairing_id,
        hub_device: request.hub_device,
        endpoint: request.endpoint,
        transport: request.transport,
        access_token,
        created_at,
        expires_at,
        qr_payload,
        snapshot_sync_mode: SnapshotSyncMode::PlaceholderEncryptedSnapshot,
        notes: "Android can act as remote client; Mac hub executes and returns logs/results. Encrypted snapshot sync is placeholder-only for later implementation.".to_owned(),
    }
}

} // verus!
