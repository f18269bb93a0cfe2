//! Deterministic mock evidence: a seeded xorshift generator and the events it draws.
//! Coordinates and impacts are kept as the raw 64-bit draw they are scaled from.
use vstd::prelude::*;
use vstd::string::*;

use crate::sdk::templates::spec_bounded_metric;
use crate::sdk::SdkError;
use crate::text::{decimal, push_decimal};

verus! {

/// The kinds of mock data the generator produces.
#[derive(Debug, Clone, Copy, PartialEq, Eq, Structural, Hash)]
pub enum MockScenario {
    FlightLog,
    MaintenanceLog,
    IncidentReplay,
}

pub open spec fn scenario_slug(s: MockScenario) -> Seq<char> {
    match s {
        MockScenario::FlightLog => "flight_log"@,
        MockScenario::MaintenanceLog => "maintenance_log"@,
        MockScenario::IncidentReplay => "incident_replay"@,
    }
}

pub open spec fn scenario_tag(s: MockScenario) -> u64 {
    match s {
        MockScenario::FlightLog => 0x101,
        MockScenario::MaintenanceLog => 0x202,
        MockScenario::IncidentReplay => 0x303,
    }
}

impl MockScenario {
    /// The scenario's identifier in a bundle.
    pub fn slug(self) -> (r: &'static str)
        ensures
            r@ == scenario_slug(self),
    {
        match self {
            MockScenario::FlightLog => "flight_log",
            MockScenario::MaintenanceLog => "maintenance_log",
            MockScenario::IncidentReplay => "incident_replay",
        }
    }

    /// The constant mixed into the seed of the scenario's generator.
    pub fn tag(self) -> (r: u64)
        ensures
            r == scenario_tag(self),
    {
        match self {
            MockScenario::FlightLog => 0x101,
            MockScenario::MaintenanceLog => 0x202,
            MockScenario::IncidentReplay => 0x303,
        }
    }
}

/// One xorshift step: shifts of 13 left, 7 right and 17 left, each xored in, modulo 2^64.
pub open spec fn xorshift(v: u64) -> u64 {
    let a = v ^ (v << 13u64);
    let b = a ^ (a >> 7u64);
    b ^ (b << 17u64)
}

/// The generator's state after `k` draws from state `s`; the `k`-th draw equals it.
pub open spec fn rng_state(s: u64, k: nat) -> u64
    decreases k,
{
    if k == 0 {
        s
    } else {
        xorshift(rng_state(s, (k - 1) as nat))
    }
}

/// Drawing `a` values and then `b` more is drawing `a + b` values.
pub proof fn rng_state_compose(s: u64, a: nat, b: nat)
    ensures
        rng_state(rng_state(s, a), b) == rng_state(s, a + b),
    decreases b,
{
    if b > 0 {
        rng_state_compose(s, a, (b - 1) as nat);
    }
}

/// The state a generator seeded with `seed` starts in.
pub open spec fn initial_state(seed: u64) -> u64 {
    seed.wrapping_add(0x9E37_79B9_7F4A_7C15)
}

/// A Boolean draw: whether the draw is even.
pub open spec fn bool_draw(v: u64) -> bool {
    v & 1 == 0
}

/// A seeded xorshift generator.
pub struct DeterministicRng {
    state: u64,
}

impl View for DeterministicRng {
    type V = u64;

    closed spec fn view(&self) -> u64 {
        self.state
    }
}

impl DeterministicRng {
    /// A generator whose state is the seed plus the golden-ratio constant, modulo 2^64.
    pub fn new(seed: u64) -> (r: Self)
        ensures
            r@ == initial_state(seed),
    {
        DeterministicRng { state: seed.wrapping_add(0x9E37_79B9_7F4A_7C15) }
    }

    /// The next draw, which also becomes the state.
    pub fn next_u64(&mut self) -> (r: u64)
        ensures
            r == xorshift(old(self)@),
            final(self)@ == r,
    {
        let mut value = self.state;
        value = value ^ (value << 13u64);
        value = value ^ (value >> 7u64);
        value = value ^ (value << 17u64);
        self.state = value;
        value
    }

    /// Whether the next draw is even.
    pub fn next_bool(&mut self) -> (r: bool)
        ensures
            r == bool_draw(xorshift(old(self)@)),
            final(self)@ == xorshift(old(self)@),
    {
        let v = self.next_u64();
        v & 1 == 0
    }

    /// A value in `min ..= min + span` from the low 32 bits of the next draw.
    pub fn next_range_u32(&mut self, min: u32, max: u32) -> (r: u32)
        requires
            crate::sdk::templates::metric_span(min, max) < u32::MAX,
            spec_bounded_metric(xorshift(old(self)@), min, max) <= u32::MAX,
        ensures
            r == spec_bounded_metric(xorshift(old(self)@), min, max),
            final(self)@ == xorshift(old(self)@),
    {
        let v = self.next_u64();
        let span: u32 = if max > min { max - min } else { 1 };
        let low = v as u32;
        min + low % (span + 1)
    }
}

/// What a mock request asks for.
pub struct MockDataRequest {
    pub scenario: MockScenario,
    pub seed: u64,
    pub records: usize,
}

/// One generated event.
pub enum MockEvent {
    FlightLog {
        index: usize,
        timestamp_ms: u64,
        altitude_m: u32,
        speed_mps: u32,
        latitude_draw: u64,
        longitude_draw: u64,
        heartbeat_ok: bool,
    },
    MaintenanceLog {
        index: usize,
        component: String,
        hours_since_service: u32,
        status: String,
        action: String,
    },
    IncidentReplay {
        index: usize,
        impact_draw: u64,
        interlock_triggered: bool,
        recovery_ms: u32,
        heartbeat_lost: bool,
    },
}

/// How many draws one event of a scenario takes.
pub open spec fn draws_per_event(s: MockScenario) -> nat {
    match s {
        MockScenario::FlightLog => 5,
        MockScenario::MaintenanceLog => 4,
        MockScenario::IncidentReplay => 4,
    }
}

/// Whether `e` is the event number `index` of `scenario` drawn from state `s`.
pub open spec fn event_matches(e: MockEvent, scenario: MockScenario, s: u64, index: int) -> bool {
    match scenario {
        MockScenario::FlightLog => e matches MockEvent::FlightLog {
            index: ix, timestamp_ms, altitude_m, speed_mps, latitude_draw, longitude_draw, heartbeat_ok }
            && ix == index
            && timestamp_ms == 1_700_000_000_000 + index * 1000
            && altitude_m == spec_bounded_metric(rng_state(s, 1), 80, 420)
            && speed_mps == spec_bounded_metric(rng_state(s, 2), 10, 70)
            && latitude_draw == rng_state(s, 3)
            && longitude_draw == rng_state(s, 4)
            && heartbeat_ok == bool_draw(rng_state(s, 5)),
        MockScenario::MaintenanceLog => e matches MockEvent::MaintenanceLog {
            index: ix, component, hours_since_service, status, action }
            && ix == index
            && component@ == "component-"@ + decimal(spec_bounded_metric(rng_state(s, 1), 1, 12) as nat)
            && hours_since_service == spec_bounded_metric(rng_state(s, 2), 1, 500)
            && status@ == (if bool_draw(rng_state(s, 3)) { "PASS"@ } else { "WARN"@ })
            && action@ == (if bool_draw(rng_state(s, 4)) { "inspection"@ } else { "replacement"@ }),
        MockScenario::IncidentReplay => e matches MockEvent::IncidentReplay {
            index: ix, impact_draw, interlock_triggered, recovery_ms, heartbeat_lost }
            && ix == index
            && impact_draw == rng_state(s, 1)
            && interlock_triggered == bool_draw(rng_state(s, 2))
            && recovery_ms == spec_bounded_metric(rng_state(s, 3), 40, 5000)
            && heartbeat_lost == !bool_draw(rng_state(s, 4)),
    }
}

/// Whether `events` is the full event list of a request: one event per record, event `i`
/// drawn from the generator after the draws of the events before it.
pub open spec fn events_match(events: Seq<MockEvent>, request: MockDataRequest) -> bool {
    let s0 = initial_state(request.seed ^ scenario_tag(request.scenario));
    &&& events.len() == request.records
    &&& forall|i: int| 0 <= i < events.len() ==> event_matches(#[trigger] events[i], request.scenario,
            rng_state(s0, (i * draws_per_event(request.scenario)) as nat), i)
}

/// Two events with the same fields.
pub open spec fn same_event(a: MockEvent, b: MockEvent) -> bool {
    match (a, b) {
        (MockEvent::FlightLog { index: i1, timestamp_ms: t1, altitude_m: a1, speed_mps: s1, latitude_draw: la1,
            longitude_draw: lo1, heartbeat_ok: h1 }, MockEvent::FlightLog { index: i2, timestamp_ms: t2,
            altitude_m: a2, speed_mps: s2, latitude_draw: la2, longitude_draw: lo2, heartbeat_ok: h2 }) =>
            i1 == i2 && t1 == t2 && a1 == a2 && s1 == s2 && la1 == la2 && lo1 == lo2 && h1 == h2,
        (MockEvent::MaintenanceLog { index: i1, component: c1, hours_since_service: h1, status: s1, action: a1 },
            MockEvent::MaintenanceLog { index: i2, component: c2, hours_since_service: h2, status: s2, action: a2 }) =>
            i1 == i2 && c1@ == c2@ && h1 == h2 && s1@ == s2@ && a1@ == a2@,
        (MockEvent::IncidentReplay { index: i1, impact_draw: d1, interlock_triggered: t1, recovery_ms: r1,
            heartbeat_lost: l1 }, MockEvent::IncidentReplay { index: i2, impact_draw: d2, interlock_triggered: t2,
            recovery_ms: r2, heartbeat_lost: l2 }) => i1 == i2 && d1 == d2 && t1 == t2 && r1 == r2 && l1 == l2,
        _ => false,
    }
}

/// Mock data is deterministic: two event lists generated for the same request agree event
/// for event.
pub proof fn generation_is_deterministic(a: Seq<MockEvent>, b: Seq<MockEvent>, request: MockDataRequest)
    requires
        events_match(a, request),
        events_match(b, request),
    ensures
        a.len() == b.len(),
        forall|i: int| 0 <= i < a.len() ==> same_event(#[trigger] a[i], b[i]),
{
    assert forall|i: int| 0 <= i < a.len() implies same_event(#[trigger] a[i], b[i]) by {
        let s0 = initial_state(request.seed ^ scenario_tag(request.scenario));
        let s = rng_state(s0, (i * draws_per_event(request.scenario)) as nat);
        assert(event_matches(a[i], request.scenario, s, i));
        assert(event_matches(b[i], request.scenario, s, i));
    }
}

fn next_event(rng: &mut DeterministicRng, scenario: MockScenario, index: usize) -> (r: MockEvent)
    requires
        index * 1000 + 1_700_000_000_000 <= u64::MAX,
    ensures
        event_matches(r, scenario, old(rng)@, index as int),
        final(rng)@ == rng_state(old(rng)@, draws_per_event(scenario)),
{
    let r = match scenario {
        MockScenario::FlightLog => {
            let timestamp_ms = 1_700_000_000_000u64 + (index as u64) * 1000;
            let altitude_m = rng.next_range_u32(80, 420);
            let speed_mps = rng.next_range_u32(10, 70);
            let latitude_draw = rng.next_u64();
            let longitude_draw = rng.next_u64();
            let heartbeat_ok = rng.next_bool();
            MockEvent::FlightLog { index, timestamp_ms, altitude_m, speed_mps, latitude_draw, longitude_draw, heartbeat_ok }
        },
        MockScenario::MaintenanceLog => {
            let unit = rng.next_range_u32(1, 12);
            let mut component = "component-".to_string();
            push_decimal(&mut component, unit as u64);
            let hours_since_service = rng.next_range_u32(1, 500);
            let status = if rng.next_bool() { "PASS".to_string() } else { "WARN".to_string() };
            let action = if rng.next_bool() { "inspection".to_string() } else { "replacement".to_string() };
            MockEvent::MaintenanceLog { index, component, hours_since_service, status, action }
        },
        MockScenario::IncidentReplay => {
            let impact_draw = rng.next_u64();
            let interlock_triggered = rng.next_bool();
            let recovery_ms = rng.next_range_u32(40, 5000);
            let heartbeat_lost = !rng.next_bool();
            MockEvent::IncidentReplay { index, impact_draw, interlock_triggered, recovery_ms, heartbeat_lost }
        },
    };
    proof {
        reveal_with_fuel(rng_state, 6);
    }
    r
}

/// The summary written beside the events.
pub struct MockSummary {
    pub scenario: MockScenario,
    pub seed: u64,
    pub records: usize,
    pub schema_version: String,
}

/// The content of a mock bundle, before it is serialised.
pub struct MockDataContent {
    pub scenario: MockScenario,
    pub seed: u64,
    pub events: Vec<MockEvent>,
    pub summary: MockSummary,
}

/// Generates the events of a request from a generator seeded with the request's seed xor
/// the scenario's tag. A request for no records is refused.
pub fn generate_bundle(request: &MockDataRequest) -> (r: Result<MockDataContent, SdkError>)
    requires
        request.records * 1000 + 1_700_000_000_000 <= u64::MAX,
    ensures
        request.records == 0 <==> r is Err,
        r matches Err(SdkError::InvalidConfig(m)) ==> m@ == "mock data request must contain at least one record"@,
        r is Err ==> r matches Err(SdkError::InvalidConfig(_)),
        r matches Ok(c) ==> {
            &&& c.scenario == request.scenario
            &&& c.seed == request.seed
            &&& events_match(c.events@, *request)
            &&& c.summary.scenario == request.scenario
            &&& c.summary.seed == request.seed
            &&& c.summary.records == request.records
            &&& c.summary.schema_version@ == "1.0.0"@
        },
{
    if request.records == 0 {
        return Err(SdkError::InvalidConfig("mock data request must contain at least one record".to_string()));
    }
    let scenario = request.scenario;
    let mut rng = DeterministicRng::new(request.seed ^ scenario.tag());
    let ghost s0 = rng@;
    let ghost d = draws_per_event(scenario);
    let mut events: Vec<MockEvent> = Vec::new();
    let mut index: usize = 0;
    while index < request.records
        invariant
            index <= request.records,
            request.records * 1000 + 1_700_000_000_000 <= u64::MAX,
            scenario == request.scenario,
            s0 == initial_state(request.seed ^ scenario_tag(request.scenario)),
            d == draws_per_event(scenario),
            events@.len() == index,
            rng@ == rng_state(s0, (index * d) as nat),
            forall|i: int| 0 <= i < index ==> event_matches(#[trigger] events@[i], scenario,
                rng_state(s0, (i * d) as nat), i),
        decreases request.records - index,
    {
        let event = next_event(&mut rng, scenario, index);
        proof {
            rng_state_compose(s0, (index * d) as nat, d);
            assert((index * d) as nat + d == ((index + 1) * d) as nat) by (nonlinear_arith);
        }
        events.push(event);
        index = index + 1;
    }
    Ok(MockDataContent {
        scenario,
        seed: request.seed,
        events,
        summary: MockSummary {
            scenario,
            seed: request.seed,
            records: request.records,
            schema_version: "1.0.0".to_string(),
        },
    })
}

} // verus!
