//! Mission runs: defaults of a mission description and the signed operational log.
use vstd::prelude::*;
use vstd::string::*;
use vstd::utf8::*;

use crate::digest::{base64_standard, base64_standard_encode, sha_prefixed, spec_sha_prefixed};
use crate::text::{decimal, u64_to_decimal};

verus! {

/// Number of ticks of a mission that names none.
pub fn default_ticks() -> (r: u64)
    ensures
        r == 100,
{
    100
}

/// Tick period, in milliseconds, of a mission that names none.
pub fn default_step_ms() -> (r: u64)
    ensures
        r == 20,
{
    20
}

/// Default of the mission's boolean switches (interlock enabled, within the envelope).
pub fn default_true() -> (r: bool)
    ensures
        r,
{
    true
}

/// Frame of a mission's initial state that names none.
pub fn default_frame() -> (r: String)
    ensures
        r@ == "NED"@,
{
    "NED".to_owned()
}

/// `a * b`, or `u64::MAX` when the product does not fit.
pub open spec fn saturating_product(a: u64, b: u64) -> u64 {
    if a * b > u64::MAX {
        u64::MAX
    } else {
        (a * b) as u64
    }
}

pub fn saturating_mul(a: u64, b: u64) -> (r: u64)
    ensures
        r == saturating_product(a, b),
{
    match a.checked_mul(b) {
        Some(p) => p,
        None => u64::MAX,
    }
}

/// A kernel log entry as the signed log sees it: its sequence number and its payload
/// serialized as JSON.
pub struct LoggedPayload {
    pub seq: u64,
    pub payload_json: String,
}

/// One event of the signed operational log.
pub struct SignedEvent {
    pub seq: u64,
    pub tick_ms: u64,
    pub event_type: String,
    pub payload_digest: String,
    pub prev_hash: String,
    pub hash: String,
}

/// The signed operational log of a mission (schema 0.2, chain `sha256-chain-v1`).
pub struct SignedLog {
    pub schema_version: String,
    pub mission_id: String,
    pub profile: String,
    pub algorithm: String,
    pub root: String,
    pub signature: String,
    pub signature_algorithm: String,
    pub signing_time_utc: String,
    pub events: Vec<SignedEvent>,
}

/// The text an event's hash is taken of.
pub open spec fn signed_event_material(seq: u64, prev: Seq<char>, payload_digest: Seq<char>) -> Seq<char> {
    decimal(seq as nat) + seq!['|'] + prev + seq!['|'] + payload_digest + "|kernel_tick|"@
        + decimal(saturating_product(seq, 20) as nat)
}

pub open spec fn entry_digest(entries: Seq<LoggedPayload>, i: int) -> Seq<char> {
    spec_sha_prefixed(encode_utf8(entries[i].payload_json@))
}

/// The hash of event `i` of the chain over `entries`.
pub open spec fn chain_hash(entries: Seq<LoggedPayload>, i: nat) -> Seq<char>
    decreases i,
{
    let prev = if i == 0 {
        Seq::<char>::empty()
    } else {
        chain_hash(entries, (i - 1) as nat)
    };
    spec_sha_prefixed(encode_utf8(signed_event_material(entries[i as int].seq, prev, entry_digest(entries, i as int))))
}

/// The hash that event `i` links to: empty for the first event.
pub open spec fn chain_prev(entries: Seq<LoggedPayload>, i: nat) -> Seq<char> {
    if i == 0 {
        Seq::<char>::empty()
    } else {
        chain_hash(entries, (i - 1) as nat)
    }
}

/// The root of the chain: the last event's hash, or empty for no events.
pub open spec fn chain_root(entries: Seq<LoggedPayload>) -> Seq<char> {
    if entries.len() == 0 {
        Seq::<char>::empty()
    } else {
        chain_hash(entries, (entries.len() - 1) as nat)
    }
}

/// Builds the signed operational log over the kernel's log entries: each event carries the
/// digest of its payload and the hash of the event before it; the root is the last hash and
/// the signature is the Base64 of the root's `sha256:` digest.
pub fn render_signed_log(
    entries: &Vec<LoggedPayload>,
    mission_id: &str,
    profile: &str,
    timestamp_utc: &str,
) -> (r: SignedLog)
    ensures
        r.schema_version@ == "0.2"@,
        r.mission_id@ == mission_id@,
        r.profile@ == profile@,
        r.algorithm@ == "sha256-chain-v1"@,
        r.signature_algorithm@ == "sha256-digest"@,
        r.signing_time_utc@ == timestamp_utc@,
        r.events@.len() == entries@.len(),
        forall|i: int| 0 <= i < entries@.len() ==> {
            let e = #[trigger] r.events@[i];
            &&& e.seq == entries@[i].seq
            &&& e.tick_ms == saturating_product(entries@[i].seq, 20)
            &&& e.event_type@ == "kernel_tick"@
            &&& e.payload_digest@ == entry_digest(entries@, i)
            &&& e.prev_hash@ == chain_prev(entries@, i as nat)
            &&& e.hash@ == chain_hash(entries@, i as nat)
        },
        forall|i: int| 0 < i < r.events@.len() ==> (#[trigger] r.events@[i]).prev_hash@ == r.events@[i - 1].hash@,
        r.root@ == chain_root(entries@),
        r.signature@ == base64_standard(encode_utf8(spec_sha_prefixed(encode_utf8(chain_root(entries@))))),
{
    let mut events: Vec<SignedEvent> = Vec::new();
    let mut prev = String::new();
    let mut i: usize = 0;
    while i < entries.len()
        invariant
            i <= entries.len(),
            events@.len() == i,
            prev@ == chain_prev(entries@, i as nat),
            forall|j: int| 0 <= j < i ==> {
                let e = #[trigger] events@[j];
                &&& e.seq == entries@[j].seq
                &&& e.tick_ms == saturating_product(entries@[j].seq, 20)
                &&& e.event_type@ == "kernel_tick"@
                &&& e.payload_digest@ == entry_digest(entries@, j)
                &&& e.prev_hash@ == chain_prev(entries@, j as nat)
                &&& e.hash@ == chain_hash(entries@, j as nat)
            },
        decreases entries.len() - i,
    {
        let entry = &entries[i];
        let payload_digest = sha_prefixed(entry.payload_json.as_str().as_bytes());
        let tick_ms = saturating_mul(entry.seq, 20);
        proof {
            reveal_strlit("|");
        }
        let mut material = u64_to_decimal(entry.seq);
        material.append("|");
        material.append(prev.as_str());
        material.append("|");
        material.append(payload_digest.as_str());
        material.append("|kernel_tick|");
        let tick_text = u64_to_decimal(tick_ms);
        material.append(tick_text.as_str());
        assert(material@ =~= signed_event_material(entry.seq, prev@, payload_digest@));
        let event_hash = sha_prefixed(material.as_str().as_bytes());
        assert(event_hash@ == chain_hash(entries@, i as nat));
        events.push(SignedEvent {
            seq: entry.seq,
            tick_ms,
            event_type: "kernel_tick".to_owned(),
            payload_digest,
            prev_hash: prev,
            hash: event_hash.clone(),
        });
        prev = event_hash;
        i = i + 1;
    }
    let root_digest = sha_prefixed(prev.as_str().as_bytes());
    let signature = base64_standard_encode(root_digest.as_str().as_bytes());
    assert(prev@ == chain_root(entries@));
    SignedLog {
        schema_version: "0.2".to_owned(),
        mission_id: mission_id.to_owned(),
        profile: profile.to_owned(),
        algorithm: "sha256-chain-v1".to_owned(),
        root: prev,
        signature,
        signature_algorithm: "sha256-digest".to_owned(),
        signing_time_utc: timestamp_utc.to_owned(),
        events,
    }
}

/// The component `i` of a command vector, or `zero` when the vector is shorter.
pub open spec fn component_or<T>(v: Seq<T>, i: int, zero: T) -> T {
    if i < v.len() { v[i] } else { zero }
}

/// The commanded rates and climb rate of a tick: the first three components of the
/// command vector as rates and the fourth as climb rate (`zero` where the vector is
/// shorter) when the interlock allowed the tick, all `zero` otherwise.
pub fn gated_intent<T: Copy>(command_vector: &Vec<T>, zero: T, allowed: bool) -> (r: (T, T, T, T))
    ensures
        allowed ==> r == (component_or(command_vector@, 0, zero), component_or(command_vector@, 1, zero),
            component_or(command_vector@, 2, zero), component_or(command_vector@, 3, zero)),
        !allowed ==> r == (zero, zero, zero, zero),
{
    if !allowed {
        return (zero, zero, zero, zero);
    }
    let n = command_vector.len();
    let roll = if n > 0 { command_vector[0] } else { zero };
    let pitch = if n > 1 { command_vector[1] } else { zero };
    let yaw = if n > 2 { command_vector[2] } else { zero };
    let climb = if n > 3 { command_vector[3] } else { zero };
    (roll, pitch, yaw, climb)
}

/// The verdict a mission summary reports: the last tick's, or `Allow` for a mission of no
/// ticks.
pub fn mission_final_verdict(last_tick_verdict: Option<String>) -> (r: String)
    ensures
        r@ == (match last_tick_verdict {
            Some(v) => v@,
            None => "Allow"@,
        }),
{
    match last_tick_verdict {
        Some(v) => v,
        None => "Allow".to_string(),
    }
}

} // verus!
