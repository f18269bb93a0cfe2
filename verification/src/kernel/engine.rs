//! The command the kernel lets through for each verdict.
use vstd::prelude::*;

use crate::kernel::verdict::Verdict;

verus! {

/// The command applied on a tick: roll, pitch and yaw rates, the climb rate, and whether
/// the vehicle shuts down. `T` is the type rates are measured in.
pub struct ConstrainedCommand<T> {
    pub roll_rate: T,
    pub pitch_rate: T,
    pub yaw_rate: T,
    pub climb_rate: T,
    pub shutdown: bool,
}

/// The command of a verdict. For `Allow` and `Clamp` the request passes, its rates and
/// climb rate clamped to their limits; `Hold` stops every rate; `Override` stops the rates
/// and descends at `descent`; `Shutdown` stops everything and shuts down.
pub open spec fn spec_command<T>(verdict: Verdict, rates: (T, T, T), climb: T, zero: T, descent: T) -> ConstrainedCommand<T> {
    match verdict {
        Verdict::Allow | Verdict::Clamp => ConstrainedCommand {
            roll_rate: rates.0,
            pitch_rate: rates.1,
            yaw_rate: rates.2,
            climb_rate: climb,
            shutdown: false,
        },
        Verdict::Hold => ConstrainedCommand { roll_rate: zero, pitch_rate: zero, yaw_rate: zero, climb_rate: zero, shutdown: false },
        Verdict::Override => ConstrainedCommand {
            roll_rate: zero,
            pitch_rate: zero,
            yaw_rate: zero,
            climb_rate: descent,
            shutdown: false,
        },
        Verdict::Shutdown => ConstrainedCommand { roll_rate: zero, pitch_rate: zero, yaw_rate: zero, climb_rate: zero, shutdown: true },
    }
}

/// The command the kernel applies for a verdict, given the clamped request, the zero rate
/// and the descent rate of an override.
pub fn command_for_verdict<T: Copy>(verdict: Verdict, rates: (T, T, T), climb: T, zero: T, descent: T) -> (r:
    ConstrainedCommand<T>)
    ensures
        r == spec_command(verdict, rates, climb, zero, descent),
{
    match verdict {
        Verdict::Allow | Verdict::Clamp => ConstrainedCommand {
            roll_rate: rates.0,
            pitch_rate: rates.1,
            yaw_rate: rates.2,
            climb_rate: climb,
            shutdown: false,
        },
        Verdict::Hold => ConstrainedCommand { roll_rate: zero, pitch_rate: zero, yaw_rate: zero, climb_rate: zero, shutdown: false },
        Verdict::Override => ConstrainedCommand {
            roll_rate: zero,
            pitch_rate: zero,
            yaw_rate: zero,
            climb_rate: descent,
            shutdown: false,
        },
        Verdict::Shutdown => ConstrainedCommand { roll_rate: zero, pitch_rate: zero, yaw_rate: zero, climb_rate: zero, shutdown: true },
    }
}

/// Only a `Shutdown` verdict shuts the vehicle down, and every verdict more restrictive
/// than `Clamp` stops the requested rates.
pub proof fn only_shutdown_shuts_down<T>(verdict: Verdict, rates: (T, T, T), climb: T, zero: T, descent: T)
    ensures
        spec_command(verdict, rates, climb, zero, descent).shutdown <==> verdict == Verdict::Shutdown,
        verdict != Verdict::Allow && verdict != Verdict::Clamp ==> {
            let c = spec_command(verdict, rates, climb, zero, descent);
            c.roll_rate == zero && c.pitch_rate == zero && c.yaw_rate == zero
        },
{
}

/// The command of each verdict, field by field: `Allow` and `Clamp` pass the clamped roll,
/// pitch and yaw rates and climb rate through in that order without shutting down; `Hold`
/// stops every rate and the climb; `Override` stops the rates and descends at `descent`;
/// `Shutdown` stops everything and shuts down.
pub proof fn command_fields_per_verdict<T>(verdict: Verdict, rates: (T, T, T), climb: T, zero: T, descent: T)
    ensures
        ({
            let c = spec_command(verdict, rates, climb, zero, descent);
            &&& (verdict == Verdict::Allow || verdict == Verdict::Clamp) ==> (c.roll_rate == rates.0
                && c.pitch_rate == rates.1 && c.yaw_rate == rates.2 && c.climb_rate == climb && !c.shutdown)
            &&& verdict == Verdict::Hold ==> (c.roll_rate == zero && c.pitch_rate == zero && c.yaw_rate == zero
                && c.climb_rate == zero && !c.shutdown)
            &&& verdict == Verdict::Override ==> (c.roll_rate == zero && c.pitch_rate == zero
                && c.yaw_rate == zero && c.climb_rate == descent && !c.shutdown)
            &&& verdict == Verdict::Shutdown ==> (c.roll_rate == zero && c.pitch_rate == zero
                && c.yaw_rate == zero && c.climb_rate == zero && c.shutdown)
        }),
{
}

} // verus!
