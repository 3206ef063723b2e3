//! The per-lane panic/abort path.
//!
//! On a locally detected contract violation a lane emits, best effort, a
//! diagnostic naming its scheduling-unit and lane coordinates through the
//! console writer, then permanently halts — and only that lane. The
//! transition to the halted state never depends on whether the diagnostic
//! could be written; a failure of the writer during the report is
//! swallowed, never re-raised. Sibling lanes keep running; if one later
//! waits at a group-wide barrier the halted lane would have joined, it
//! may deadlock — a property of the external driver, documented here.

use vstd::prelude::*;

use crate::util::{dec_digits, u32_to_decimal};

verus! {

/// The execution state of one lane.
#[derive(Clone, Copy, PartialEq, Eq, Structural, Debug)]
pub enum LaneStatus {
    /// The lane is executing.
    Running,
    /// The lane is permanently halted.
    Halted,
}

/// The diagnostic a violating lane reports: its work-group and
/// work-item coordinates, then the violation text, with a final line
/// break.
pub open spec fn spec_violation_message(
    wg_x: u32,
    wg_y: u32,
    wg_z: u32,
    wi_x: u32,
    wi_y: u32,
    wi_z: u32,
    info: Seq<char>,
) -> Seq<char> {
    "workgroup "@ + dec_digits(wg_x as nat) + ","@ + dec_digits(wg_y as nat) + ","@ + dec_digits(
        wg_z as nat,
    ) + " thread "@ + dec_digits(wi_x as nat) + ","@ + dec_digits(wi_y as nat) + ","@ + dec_digits(
        wi_z as nat,
    ) + " "@ + info + "\n"@
}

/// Renders the diagnostic for a violating lane.
pub fn violation_message(
    wg_x: u32,
    wg_y: u32,
    wg_z: u32,
    wi_x: u32,
    wi_y: u32,
    wi_z: u32,
    info: &str,
) -> (s: String)
    ensures
        s@ == spec_violation_message(wg_x, wg_y, wg_z, wi_x, wi_y, wi_z, info@),
{
    let mut s = String::from_str("workgroup ");
    let d = u32_to_decimal(wg_x);
    s.append(d.as_str());
    s.append(",");
    let d = u32_to_decimal(wg_y);
    s.append(d.as_str());
    s.append(",");
    let d = u32_to_decimal(wg_z);
    s.append(d.as_str());
    s.append(" thread ");
    let d = u32_to_decimal(wi_x);
    s.append(d.as_str());
    s.append(",");
    let d = u32_to_decimal(wi_y);
    s.append(d.as_str());
    s.append(",");
    let d = u32_to_decimal(wi_z);
    s.append(d.as_str());
    s.append(" ");
    s.append(info);
    s.append("\n");
    s
}

/// The decision a lane takes on a locally detected contract violation:
/// report this diagnostic (best effort), then halt this lane and no
/// other. The halt does not depend on the report's outcome — the
/// transition is fixed before the diagnostic is attempted, so a failing
/// writer cannot keep the lane running.
pub fn contract_violation_step(
    wg_x: u32,
    wg_y: u32,
    wg_z: u32,
    wi_x: u32,
    wi_y: u32,
    wi_z: u32,
    info: &str,
) -> (r: (String, LaneStatus))
    ensures
        r.1 == LaneStatus::Halted,
        r.0@ == spec_violation_message(wg_x, wg_y, wg_z, wi_x, wi_y, wi_z, info@),
{
    let message = violation_message(wg_x, wg_y, wg_z, wi_x, wi_y, wi_z, info);
    (message, LaneStatus::Halted)
}

} // verus!
