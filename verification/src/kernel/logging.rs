//! The kernel's hash-chained event log.
use vstd::prelude::*;
use vstd::string::*;
use vstd::utf8::*;

use crate::digest::{hex_encode, sha256_digest, spec_sha256};
use crate::kernel::verdict::{reasons_debug, reasons_debug_string, verdict_name, ReasonCode, Verdict};
use crate::text::{decimal, is_lower_hex_digit, lower_hex, lower_hex_is_hex_digits, u64_to_decimal};

verus! {

/// The parts of a kernel output that its log entry commits to.
pub struct OutputDigestFields {
    pub verdict: Verdict,
    pub reasons: Vec<ReasonCode>,
    /// The three applied rates and the applied climb rate, each written with 17 decimals,
    /// separated by `|`.
    pub command_text: String,
    pub shutdown: bool,
    pub contract_fingerprint: String,
}

/// One log entry: the payload and its link into the chain.
pub struct EventRecord<P> {
    pub seq: u64,
    pub payload: P,
    pub prev_hash: String,
    pub hash: String,
}

/// An append-only log in which every entry's hash covers the previous entry's hash.
pub struct EventLog<P> {
    pub records: Vec<EventRecord<P>>,
    pub tip_hash: String,
}

pub open spec fn bool_name(b: bool) -> Seq<char> {
    if b {
        "true"@
    } else {
        "false"@
    }
}

/// The text that an entry's hash is taken of.
pub open spec fn spec_event_material(
    seq: u64,
    verdict: Verdict,
    reasons: Seq<ReasonCode>,
    command_text: Seq<char>,
    shutdown: bool,
    contract_fingerprint: Seq<char>,
    prev_hash: Seq<char>,
) -> Seq<char> {
    decimal(seq as nat) + seq!['|'] + verdict_name(verdict) + seq!['|'] + reasons_debug(reasons)
        + seq!['|'] + command_text + seq!['|'] + bool_name(shutdown) + seq!['|'] + contract_fingerprint
        + seq!['|'] + prev_hash
}

pub open spec fn fields_material(seq: u64, f: OutputDigestFields, prev_hash: Seq<char>) -> Seq<char> {
    spec_event_material(
        seq,
        f.verdict,
        f.reasons@,
        f.command_text@,
        f.shutdown,
        f.contract_fingerprint@,
        prev_hash,
    )
}

/// The hash of the entry with sequence number `seq` and fields `f` after `prev_hash`:
/// lower-case hexadecimal SHA-256 of the UTF-8 encoded material.
pub open spec fn spec_event_hash(seq: u64, f: OutputDigestFields, prev_hash: Seq<char>) -> Seq<char> {
    lower_hex(spec_sha256(encode_utf8(fields_material(seq, f, prev_hash))))
}

fn bool_text(b: bool) -> (r: &'static str)
    ensures
        r@ == bool_name(b),
{
    if b {
        "true"
    } else {
        "false"
    }
}

/// Builds the text that the entry's hash is taken of.
pub fn event_material(seq: u64, payload: &OutputDigestFields, prev_hash: &str) -> (r: String)
    ensures
        r@ == fields_material(seq, *payload, prev_hash@),
{
    proof {
        reveal_strlit("|");
    }
    let mut out = u64_to_decimal(seq);
    out.append("|");
    out.append(payload.verdict.debug_name());
    out.append("|");
    let reasons = reasons_debug_string(&payload.reasons);
    out.append(reasons.as_str());
    out.append("|");
    out.append(payload.command_text.as_str());
    out.append("|");
    out.append(bool_text(payload.shutdown));
    out.append("|");
    out.append(payload.contract_fingerprint.as_str());
    out.append("|");
    out.append(prev_hash);
    assert(out@ =~= fields_material(seq, *payload, prev_hash@));
    out
}

impl<P> EventLog<P> {
    /// Each entry links to the one before it, the first to the empty genesis hash, and the tip
    /// is the hash of the last entry.
    pub open spec fn chain_linked(&self) -> bool {
        &&& forall|i: int| 0 < i < self.records@.len() ==>
            (#[trigger] self.records@[i]).prev_hash@ == self.records@[i - 1].hash@
        &&& self.records@.len() > 0 ==> self.records@[0].prev_hash@ == Seq::<char>::empty()
        &&& self.records@.len() > 0 ==> self.tip_hash@ == self.records@.last().hash@
        &&& self.records@.len() == 0 ==> self.tip_hash@ == Seq::<char>::empty()
    }

    /// An empty log.
    pub fn new() -> (log: Self)
        ensures
            log.records@.len() == 0,
            log.tip_hash@ == Seq::<char>::empty(),
            log.chain_linked(),
    {
        EventLog { records: Vec::new(), tip_hash: String::new() }
    }

    /// Appends an entry for `payload`, whose committed parts are `fields`, linking it to the tip.
    pub fn append(&mut self, seq: u64, payload: P, fields: &OutputDigestFields)
        ensures
            final(self).records@.len() == old(self).records@.len() + 1,
            final(self).records@.subrange(0, old(self).records@.len() as int) == old(self).records@,
            ({
                let rec = final(self).records@.last();
                &&& rec.seq == seq
                &&& rec.payload == payload
                &&& rec.prev_hash@ == old(self).tip_hash@
                &&& rec.hash@ == spec_event_hash(seq, *fields, old(self).tip_hash@)
                &&& rec.hash@.len() == 64
                &&& forall|i: int| 0 <= i < 64 ==> is_lower_hex_digit(#[trigger] rec.hash@[i])
            }),
            final(self).tip_hash@ == spec_event_hash(seq, *fields, old(self).tip_hash@),
            old(self).chain_linked() ==> final(self).chain_linked(),
    {
        let prev_hash = self.tip_hash.clone();
        let material = event_material(seq, fields, prev_hash.as_str());
        let digest = sha256_digest(material.as_str().as_bytes());
        let hash = hex_encode(digest.as_slice());
        proof {
            lower_hex_is_hex_digits(digest@);
        }
        let ghost old_records = self.records@;
        self.records.push(EventRecord { seq, payload, prev_hash, hash: hash.clone() });
        self.tip_hash = hash;
        assert(self.records@.subrange(0, old_records.len() as int) =~= old_records);
        proof {
            if old(self).chain_linked() {
                let n = old_records.len();
                assert forall|i: int| 0 < i < self.records@.len() implies
                    (#[trigger] self.records@[i]).prev_hash@ == self.records@[i - 1].hash@ by {
                    if i < n {
                        assert(self.records@[i] == old_records[i]);
                        assert(self.records@[i - 1] == old_records[i - 1]);
                    } else {
                        assert(self.records@[i - 1] == old_records[i - 1]);
                    }
                }
                if n > 0 {
                    assert(self.records@[0] == old_records[0]);
                }
            }
        }
    }

    /// The hash of the last entry.
    pub fn tip_hash(&self) -> (r: String)
        ensures
            r@ == self.tip_hash@,
    {
        self.tip_hash.clone()
    }
}

/// Appending is deterministic: the new entry's hash, and so the new tip, depends only on
/// the old tip, the sequence number and the committed parts of the payload.
pub proof fn append_is_deterministic_for_identical_payloads(
    tip: Seq<char>,
    seq: u64,
    left: OutputDigestFields,
    right: OutputDigestFields,
)
    requires
        left.verdict == right.verdict,
        left.reasons@ == right.reasons@,
        left.command_text@ == right.command_text@,
        left.shutdown == right.shutdown,
        left.contract_fingerprint@ == right.contract_fingerprint@,
    ensures
        spec_event_hash(seq, left, tip) == spec_event_hash(seq, right, tip),
{
    assert(fields_material(seq, left, tip) == fields_material(seq, right, tip));
}

} // verus!
