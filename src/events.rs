use vstd::prelude::*;

use crate::detect::DetectionOutcome;
use crate::ieee::Binary64;

verus! {

/// The kinds of record in the audit log.
#[derive(Clone, Copy, Debug, PartialEq, Eq, Structural)]
pub enum EventKind {
    ServiceStart,
    ServiceStop,
    PollError,
    BootDetected,
    NewDeviceBootBest,
    NewDeviceAllTimeBest,
    NewToolAllTimeBest,
    NewToolBestHashrateThs,
    NewToolBestEfficiencyJPerTh,
}

pub open spec fn kind_name(k: EventKind) -> Seq<char> {
    match k {
        EventKind::ServiceStart => "service_start"@,
        EventKind::ServiceStop => "service_stop"@,
        EventKind::PollError => "poll_error"@,
        EventKind::BootDetected => "boot_detected"@,
        EventKind::NewDeviceBootBest => "new_device_boot_best"@,
        EventKind::NewDeviceAllTimeBest => "new_device_all_time_best"@,
        EventKind::NewToolAllTimeBest => "new_tool_all_time_best"@,
        EventKind::NewToolBestHashrateThs => "new_tool_best_hashrate_ths"@,
        EventKind::NewToolBestEfficiencyJPerTh => "new_tool_best_efficiency_j_per_th"@,
    }
}

impl EventKind {
    /// The value of the record's `event` field.
    pub fn name(&self) -> (r: &'static str)
        ensures
            r@ == kind_name(*self),
    {
        match self {
            EventKind::ServiceStart => "service_start",
            EventKind::ServiceStop => "service_stop",
            EventKind::PollError => "poll_error",
            EventKind::BootDetected => "boot_detected",
            EventKind::NewDeviceBootBest => "new_device_boot_best",
            EventKind::NewDeviceAllTimeBest => "new_device_all_time_best",
            EventKind::NewToolAllTimeBest => "new_tool_all_time_best",
            EventKind::NewToolBestHashrateThs => "new_tool_best_hashrate_ths",
            EventKind::NewToolBestEfficiencyJPerTh => "new_tool_best_efficiency_j_per_th",
        }
    }
}

/// One audit record of a detection: its kind and, for a new best, the value.
/// A boot record carries the state snapshot, which the writer adds.
#[derive(Clone, Copy, Debug, PartialEq, Eq, Structural)]
pub struct EventRecord {
    pub kind: EventKind,
    pub value: Option<Binary64>,
}

pub open spec fn valued(kind: EventKind, v: Option<Binary64>) -> Seq<EventRecord> {
    match v {
        Some(x) => seq![EventRecord { kind, value: Some(x) }],
        None => seq![],
    }
}

/// The records of one outcome, in log order: boot, device boot best, device
/// all-time best, tool global best, best hashrate, best efficiency.
pub open spec fn records_of(o: DetectionOutcome) -> Seq<EventRecord> {
    (if o.boot_detected {
        seq![EventRecord { kind: EventKind::BootDetected, value: None }]
    } else {
        seq![]
    }) + valued(EventKind::NewDeviceBootBest, o.new_device_boot_best) + valued(
        EventKind::NewDeviceAllTimeBest,
        o.new_device_all_time_best,
    ) + valued(EventKind::NewToolAllTimeBest, o.new_tool_all_time_best) + valued(
        EventKind::NewToolBestHashrateThs,
        o.new_tool_best_hashrate_ths,
    ) + valued(EventKind::NewToolBestEfficiencyJPerTh, o.new_tool_best_efficiency_j_per_th)
}

fn push_valued(out: &mut Vec<EventRecord>, kind: EventKind, v: Option<Binary64>)
    ensures
        final(out)@ == old(out)@ + valued(kind, v),
{
    if let Some(x) = v {
        out.push(EventRecord { kind, value: Some(x) });
    }
    assert(final(out)@ =~= old(out)@ + valued(kind, v));
}

/// The audit records that an outcome calls for, one per event.
pub fn outcome_records(o: &DetectionOutcome) -> (r: Vec<EventRecord>)
    ensures
        r@ == records_of(*o),
{
    let mut out: Vec<EventRecord> = Vec::new();
    if o.boot_detected {
        out.push(EventRecord { kind: EventKind::BootDetected, value: None });
    }
    push_valued(&mut out, EventKind::NewDeviceBootBest, o.new_device_boot_best);
    push_valued(&mut out, EventKind::NewDeviceAllTimeBest, o.new_device_all_time_best);
    push_valued(&mut out, EventKind::NewToolAllTimeBest, o.new_tool_all_time_best);
    push_valued(&mut out, EventKind::NewToolBestHashrateThs, o.new_tool_best_hashrate_ths);
    push_valued(
        &mut out,
        EventKind::NewToolBestEfficiencyJPerTh,
        o.new_tool_best_efficiency_j_per_th,
    );
    assert(out@ =~= records_of(*o));
    out
}

} // verus!
