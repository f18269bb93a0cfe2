//! Deterministic artifact templates: every field of a template is a function of its
//! kind, its seed and the request's options.
use vstd::prelude::*;
use vstd::string::*;

use crate::text::{hex_fixed, push_hex_fixed};

verus! {

/// The kinds of artifact a template can produce.
#[derive(Debug, Clone, Copy, PartialEq, Eq, Structural, Hash)]
pub enum TemplateKind {
    EuReadinessCertificate,
    UnderwriterConfidencePacket,
    SimplexReversionPolicy,
    EvidenceMapHelloWorld,
}

pub open spec fn kind_name(kind: TemplateKind) -> Seq<char> {
    match kind {
        TemplateKind::EuReadinessCertificate => "EU Readiness Certificate"@,
        TemplateKind::UnderwriterConfidencePacket => "Underwriter Confidence Packet"@,
        TemplateKind::SimplexReversionPolicy => "Simplex Reversion Policy"@,
        TemplateKind::EvidenceMapHelloWorld => "Evidence Map Hello World"@,
    }
}

pub open spec fn kind_slug(kind: TemplateKind) -> Seq<char> {
    match kind {
        TemplateKind::EuReadinessCertificate => "eu-readiness-certificate"@,
        TemplateKind::UnderwriterConfidencePacket => "underwriter-confidence-packet"@,
        TemplateKind::SimplexReversionPolicy => "simplex-reversion-policy"@,
        TemplateKind::EvidenceMapHelloWorld => "evidence-map-hello-world"@,
    }
}

pub open spec fn kind_tag(kind: TemplateKind) -> u64 {
    match kind {
        TemplateKind::EuReadinessCertificate => 0xA1,
        TemplateKind::UnderwriterConfidencePacket => 0xB2,
        TemplateKind::SimplexReversionPolicy => 0xC3,
        TemplateKind::EvidenceMapHelloWorld => 0xD4,
    }
}

impl TemplateKind {
    /// The human-readable name of the template.
    pub fn name(self) -> (r: &'static str)
        ensures
            r@ == kind_name(self),
    {
        match self {
            TemplateKind::EuReadinessCertificate => "EU Readiness Certificate",
            TemplateKind::UnderwriterConfidencePacket => "Underwriter Confidence Packet",
            TemplateKind::SimplexReversionPolicy => "Simplex Reversion Policy",
            TemplateKind::EvidenceMapHelloWorld => "Evidence Map Hello World",
        }
    }

    /// The identifier written as the template's `kind`.
    pub fn slug(self) -> (r: &'static str)
        ensures
            r@ == kind_slug(self),
    {
        match self {
            TemplateKind::EuReadinessCertificate => "eu-readiness-certificate",
            TemplateKind::UnderwriterConfidencePacket => "underwriter-confidence-packet",
            TemplateKind::SimplexReversionPolicy => "simplex-reversion-policy",
            TemplateKind::EvidenceMapHelloWorld => "evidence-map-hello-world",
        }
    }

    /// The constant mixed into the seed to derive the artifact identifier.
    pub fn tag(self) -> (r: u64)
        ensures
            r == kind_tag(self),
    {
        match self {
            TemplateKind::EuReadinessCertificate => 0xA1,
            TemplateKind::UnderwriterConfidencePacket => 0xB2,
            TemplateKind::SimplexReversionPolicy => 0xC3,
            TemplateKind::EvidenceMapHelloWorld => 0xD4,
        }
    }
}

/// What a template is built from.
pub struct TemplateRequest {
    pub kind: TemplateKind,
    pub seed: u64,
    pub trust_mode: Option<String>,
    pub profile_bundle: Option<String>,
    pub include_signature_stub: bool,
}

/// The SplitMix64 finaliser of `seed`: an additive constant, then three xor-shift and
/// multiply rounds, all modulo 2^64.
pub open spec fn mix64(seed: u64) -> u64 {
    let v0 = seed.wrapping_add(0x9E37_79B9_7F4A_7C15);
    let v1 = v0 ^ (v0 >> 30u64);
    let v2 = v1.wrapping_mul(0xBF58_476D_1CE4_E5B9);
    let v3 = v2 ^ (v2 >> 27u64);
    let v4 = v3.wrapping_mul(0x94D0_49BB_1331_11EB);
    v4 ^ (v4 >> 31u64)
}

/// Sixteen lower-case hexadecimal digits of the mixed seed.
pub open spec fn spec_deterministic_hex(seed: u64) -> Seq<char> {
    hex_fixed(mix64(seed) as nat, 16)
}

proof fn hex_fixed_len(v: nat, width: nat)
    ensures
        hex_fixed(v, width).len() == width,
    decreases width,
{
    if width > 0 {
        hex_fixed_len(v / 16, (width - 1) as nat);
    }
}

/// Every identifier derived from a seed is exactly sixteen hexadecimal digits long, as
/// `{:016x}` writes a 64-bit value.
pub proof fn identifiers_have_sixteen_digits(seed: u64)
    ensures
        spec_deterministic_hex(seed).len() == 16,
{
    hex_fixed_len(mix64(seed) as nat, 16);
}

fn mix(seed: u64) -> (r: u64)
    ensures
        r == mix64(seed),
{
    let mut value = seed.wrapping_add(0x9E37_79B9_7F4A_7C15);
    value = value ^ (value >> 30u64);
    value = value.wrapping_mul(0xBF58_476D_1CE4_E5B9);
    value = value ^ (value >> 27u64);
    value = value.wrapping_mul(0x94D0_49BB_1331_11EB);
    value ^ (value >> 31u64)
}

/// The identifier derived from a seed: sixteen zero-padded lower-case hexadecimal digits.
pub fn deterministic_hex(seed: u64) -> (r: String)
    ensures
        r@ == spec_deterministic_hex(seed),
{
    let mut out = String::new();
    push_hex_fixed(&mut out, mix(seed), 16);
    assert(out@ =~= spec_deterministic_hex(seed));
    out
}

/// `prefix` followed by the identifier derived from `seed`.
fn prefixed_hex(prefix: &str, seed: u64) -> (r: String)
    ensures
        r@ == prefix@ + spec_deterministic_hex(seed),
{
    let mut out = prefix.to_string();
    push_hex_fixed(&mut out, mix(seed), 16);
    out
}

/// The width of the range a metric is drawn from: `max - min`, and at least one.
pub open spec fn metric_span(min: u32, max: u32) -> int {
    if max > min { max - min } else { 1 }
}

/// A metric in `min ..= min + span`, taken from the low 32 bits of the seed.
pub open spec fn spec_bounded_metric(seed: u64, min: u32, max: u32) -> int {
    min + ((seed as u32) as int) % (metric_span(min, max) + 1)
}

/// `min` plus the low 32 bits of `seed` reduced modulo one more than the span.
pub fn bounded_metric(seed: u64, min: u32, max: u32) -> (r: u32)
    requires
        metric_span(min, max) < u32::MAX,
        spec_bounded_metric(seed, min, max) <= u32::MAX,
    ensures
        r == spec_bounded_metric(seed, min, max),
        min <= r <= min + metric_span(min, max),
{
    let span: u32 = if max > min { max - min } else { 1 };
    let low = seed as u32;
    min + low % (span + 1)
}

/// The kind-specific fields of a template.
pub enum ArtifactFields {
    EuReadinessCertificate { certificate: String, jurisdiction: String, readiness_score: u32 },
    UnderwriterConfidencePacket { packet: String, risk_band: String, confidence: u32 },
    SimplexReversionPolicy { policy: String, trigger: String, fallback_mode: String },
    EvidenceMapHelloWorld { map_id: String, state: String, tuple: Vec<String> },
}

pub open spec fn fields_match(fields: ArtifactFields, kind: TemplateKind, seed: u64) -> bool {
    match kind {
        TemplateKind::EuReadinessCertificate => fields matches ArtifactFields::EuReadinessCertificate {
            certificate, jurisdiction, readiness_score }
            && certificate@ == "EU-READY-"@ + spec_deterministic_hex(seed ^ 0x11)
            && jurisdiction@ == "EASA"@
            && readiness_score == spec_bounded_metric(seed, 60, 98),
        TemplateKind::UnderwriterConfidencePacket => fields matches ArtifactFields::UnderwriterConfidencePacket {
            packet, risk_band, confidence }
            && packet@ == "UW-CONF-"@ + spec_deterministic_hex(seed ^ 0x22)
            && risk_band@ == (if spec_bounded_metric(seed, 0, 100) > 70 { "LOW"@ } else { "MEDIUM"@ })
            && confidence == spec_bounded_metric(seed ^ 0x33, 50, 99),
        TemplateKind::SimplexReversionPolicy => fields matches ArtifactFields::SimplexReversionPolicy {
            policy, trigger, fallback_mode }
            && policy@ == "SIMPLEX-"@ + spec_deterministic_hex(seed ^ 0x44)
            && trigger@ == "heartbeat.lost"@
            && fallback_mode@ == "safe-hover"@,
        TemplateKind::EvidenceMapHelloWorld => fields matches ArtifactFields::EvidenceMapHelloWorld {
            map_id, state, tuple }
            && map_id@ == "EVIDENCE-"@ + spec_deterministic_hex(seed ^ 0x55)
            && state@ == "hello-world"@
            && tuple@.len() == 5
            && tuple@[0]@ == "S"@ && tuple@[1]@ == "F"@ && tuple@[2]@ == "E"@
            && tuple@[3]@ == "G"@ && tuple@[4]@ == "I"@,
    }
}

/// The kind-specific fields of a template for `kind` and `seed`.
pub fn artifact_fields(kind: TemplateKind, seed: u64) -> (r: ArtifactFields)
    ensures
        fields_match(r, kind, seed),
{
    match kind {
        TemplateKind::EuReadinessCertificate => ArtifactFields::EuReadinessCertificate {
            certificate: prefixed_hex("EU-READY-", seed ^ 0x11),
            jurisdiction: "EASA".to_string(),
            readiness_score: bounded_metric(seed, 60, 98),
        },
        TemplateKind::UnderwriterConfidencePacket => {
            let band = if bounded_metric(seed, 0, 100) > 70 { "LOW".to_string() } else { "MEDIUM".to_string() };
            ArtifactFields::UnderwriterConfidencePacket {
                packet: prefixed_hex("UW-CONF-", seed ^ 0x22),
                risk_band: band,
                confidence: bounded_metric(seed ^ 0x33, 50, 99),
            }
        },
        TemplateKind::SimplexReversionPolicy => ArtifactFields::SimplexReversionPolicy {
            policy: prefixed_hex("SIMPLEX-", seed ^ 0x44),
            trigger: "heartbeat.lost".to_string(),
            fallback_mode: "safe-hover".to_string(),
        },
        TemplateKind::EvidenceMapHelloWorld => {
            let tuple = vec!["S".to_string(), "F".to_string(), "E".to_string(), "G".to_string(), "I".to_string()];
            ArtifactFields::EvidenceMapHelloWorld {
                map_id: prefixed_hex("EVIDENCE-", seed ^ 0x55),
                state: "hello-world".to_string(),
                tuple,
            }
        },
    }
}

/// The non-production signature placeholder of a template.
pub struct SignatureStub {
    pub algorithm: String,
    pub kid: String,
    pub signature: String,
}

/// Everything a template document states, before it is serialised.
pub struct TemplateContent {
    pub template_version: String,
    pub kind: TemplateKind,
    pub slug: String,
    pub name: String,
    pub seed: u64,
    pub artifact_id: String,
    pub trust_mode: String,
    pub profile_bundle: String,
    pub artifact: ArtifactFields,
    pub signature_stub: Option<SignatureStub>,
}

pub open spec fn or_default(v: Option<String>, default: Seq<char>) -> Seq<char> {
    match v {
        Some(s) => s@,
        None => default,
    }
}

fn owned_or(v: &Option<String>, default: &str) -> (r: String)
    ensures
        r@ == or_default(*v, default@),
{
    match v {
        Some(s) => s.clone(),
        None => default.to_string(),
    }
}

/// The content of the template a request asks for: version `1.0.0`, the kind's slug and
/// name, the seed, the identifier derived from the seed and the kind's tag, the trust mode
/// (`dev-local` by default) and profile bundle (`dev-local@1.0.0` by default), the
/// kind-specific fields, and, when asked for, an `ES256` signature placeholder.
pub fn build_template(request: &TemplateRequest) -> (r: TemplateContent)
    ensures
        r.template_version@ == "1.0.0"@,
        r.kind == request.kind,
        r.slug@ == kind_slug(request.kind),
        r.name@ == kind_name(request.kind),
        r.seed == request.seed,
        r.artifact_id@ == spec_deterministic_hex(request.seed ^ kind_tag(request.kind)),
        r.trust_mode@ == or_default(request.trust_mode, "dev-local"@),
        r.profile_bundle@ == or_default(request.profile_bundle, "dev-local@1.0.0"@),
        fields_match(r.artifact, request.kind, request.seed),
        request.include_signature_stub <==> r.signature_stub is Some,
        r.signature_stub matches Some(stub) ==> {
            &&& stub.algorithm@ == "ES256"@
            &&& stub.kid@ == "demo-"@ + spec_deterministic_hex(request.seed ^ 0x5A5A)
            &&& stub.signature@ == "NON_PRODUCTION_SIGNATURE_STUB"@
        },
{
    let kind = request.kind;
    let stub = if request.include_signature_stub {
        Some(SignatureStub {
            algorithm: "ES256".to_string(),
            kid: prefixed_hex("demo-", request.seed ^ 0x5A5A),
            signature: "NON_PRODUCTION_SIGNATURE_STUB".to_string(),
        })
    } else {
        None
    };
    TemplateContent {
        template_version: "1.0.0".to_string(),
        kind,
        slug: kind.slug().to_string(),
        name: kind.name().to_string(),
        seed: request.seed,
        artifact_id: deterministic_hex(request.seed ^ kind.tag()),
        trust_mode: owned_or(&request.trust_mode, "dev-local"),
        profile_bundle: owned_or(&request.profile_bundle, "dev-local@1.0.0"),
        artifact: artifact_fields(kind, request.seed),
        signature_stub: stub,
    }
}

} // verus!
