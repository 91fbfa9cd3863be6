//! The liveness snapshot of the daemon, and the synthetic event used to test
//! the detection pipeline end to end.

use vstd::prelude::*;

use crate::analysis::analyzer::{
    configured_slots, metadata_of, slot_description, slot_holds, slot_name, slot_version, Analyzer,
    AnalyzerConfig, AnalyzerId, AnalyzerIdView, AnalyzerMetadata, ConfiguredAnalyzer, Event,
    EventType, EventView, ExternalAnalyzers, Harness, RuntimeMetadata,
};
use crate::analysis::cell_info::{option_cell_view, ServingCellInfo};
use crate::daemon::events::LiveEvent;
use crate::REPORT_VERSION;

verus! {

/// A point-in-time liveness snapshot of the daemon.
#[derive(Debug)]
pub struct HealthStatus {
    /// Seconds since this daemon instance started.
    pub uptime_seconds: u64,
    /// True if running without DIAG/device access (frontend only).
    pub debug_mode: bool,
    /// True if a recording is active, which implies DIAG is open and read.
    pub recording_active: bool,
    /// Name of the active recording, if any.
    pub current_recording: Option<String>,
    /// The analyzers currently enabled, with their versions.
    pub analyzers: Vec<AnalyzerMetadata>,
    /// The most recently observed serving cell, if any SIB1 has been seen.
    pub last_cell: Option<ServingCellInfo>,
    /// The analysis report schema version this daemon emits.
    pub report_version: u32,
}

/// Result of injecting a test event.
#[derive(Debug, Clone, Copy)]
pub struct InjectResult {
    /// Number of live subscribers the test event was delivered to.
    pub delivered_to: usize,
}

/// The health snapshot: a recording is active exactly when one is named; the
/// analyzers listed are exactly those the configuration runs (with the
/// analyzers the library does not provide taken from `external`), in order,
/// with their metadata; the report version is the current one.
pub fn health_status<E: Analyzer>(
    uptime_seconds: u64,
    debug_mode: bool,
    current_recording: Option<String>,
    config: &AnalyzerConfig,
    external: ExternalAnalyzers<E>,
    runtime: RuntimeMetadata,
    last_cell: Option<ServingCellInfo>,
) -> (res: HealthStatus)
    ensures
        res.uptime_seconds == uptime_seconds,
        res.debug_mode == debug_mode,
        res.recording_active == (current_recording is Some),
        res.current_recording == current_recording,
        res.analyzers@.len() == configured_slots(*config).len(),
        forall|i: int|
            0 <= i < res.analyzers@.len() ==> {
                let slot = configured_slots(*config)[i];
                &&& (#[trigger] res.analyzers@[i]).name@ == slot_name(slot, external)
                &&& res.analyzers@[i].description@ == slot_description(slot, external)
                &&& res.analyzers@[i].version == slot_version(slot, external)
            },
        res.last_cell == last_cell,
        res.report_version == REPORT_VERSION,
{
    let recording_active = current_recording.is_some();
    let ghost x = external;
    let harness = Harness::<ConfiguredAnalyzer<E>>::new_with_config(config, external);
    let metadata = harness.get_metadata(runtime);
    proof {
        assert forall|i: int| 0 <= i < metadata.analyzers@.len() implies {
            let slot = configured_slots(*config)[i];
            &&& (#[trigger] metadata.analyzers@[i]).name@ == slot_name(slot, x)
            &&& metadata.analyzers@[i].description@ == slot_description(slot, x)
            &&& metadata.analyzers@[i].version == slot_version(slot, x)
        } by {
            assert(metadata_of(harness@, i, metadata.analyzers@[i]));
            assert(slot_holds(harness@.analyzers[i], configured_slots(*config)[i], x));
        }
    }
    HealthStatus {
        uptime_seconds,
        debug_mode,
        recording_active,
        current_recording,
        analyzers: metadata.analyzers,
        last_cell,
        report_version: REPORT_VERSION,
    }
}

/// The synthetic warning broadcast to validate the pipeline: High severity,
/// "Injected test event", from analyzer "Test Injection" version 1, at the
/// last-seen serving cell, with no timestamp or position.
pub fn injected_test_event(last_cell: Option<ServingCellInfo>) -> (res: LiveEvent)
    ensures
        res.timestamp is None,
        res.position is None,
        res.event@ == (EventView {
            event_type: EventType::High,
            message: "Injected test event"@,
            analyzer: Some(AnalyzerIdView { name: "Test Injection"@, version: 1 }),
            confidence: None,
            cell: option_cell_view(last_cell),
        }),
{
    let event = Event {
        event_type: EventType::High,
        message: String::from_str("Injected test event"),
        analyzer: Some(AnalyzerId { name: String::from_str("Test Injection"), version: 1 }),
        confidence: None,
        cell: last_cell,
    };
    LiveEvent { timestamp: None, position: None, event }
}

/// The outcome of broadcasting: the number of subscribers reached, 0 when
/// the broadcast failed for want of subscribers.
pub fn inject_result(sent: Option<usize>) -> (res: InjectResult)
    ensures
        res.delivered_to == match sent {
            Some(n) => n,
            None => 0,
        },
{
    match sent {
        Some(n) => InjectResult { delivered_to: n },
        None => InjectResult { delivered_to: 0 },
    }
}

} // verus!
