//! Events, analysis rows and report metadata, the [`Analyzer`] interface, and
//! the [`Harness`] that runs analyzers over a stream of messages.

use vstd::prelude::*;

use crate::analysis::attach_reject_storm::{
    spec_storm_step, storm_description, storm_name, storm_version,
    AttachRejectStormAnalyzer, StormView,
};
use crate::analysis::auth_anomaly::{
    auth_anomaly_description, auth_anomaly_name, auth_anomaly_version, spec_auth_step,
    AuthAnomalyAnalyzer, AuthView,
};
use crate::analysis::cell_info::{
    empty_cell, option_cell_view, plmn_display_name, PlmnView, ServingCellInfo,
    ServingCellInfoView, ServingCellTracker, ServingCellTrackerView, tracker_after_observe,
    with_physical, with_signal, current_or_empty,
};
use crate::analysis::imsi_paging::{
    imsi_paging_description, imsi_paging_name, imsi_paging_version, spec_imsi_paging_event,
    ImsiPagingAnalyzer,
};
use crate::analysis::information_element::{well_formed, InformationElement};
use crate::analysis::type0_sms::{
    spec_type0_event, type0_description, type0_name, type0_version, Type0SmsAnalyzer,
};
use crate::diag::diaglog::ml1::{spec_parse, ServingCellMeasurement};
use crate::text::{
    decimal, insert_sorted_unique, join, join_strings, strictly_sorted, string_views,
    usize_to_decimal,
};
use crate::REPORT_VERSION;

verus! {

/// Which analyzers are enabled. `auth_anomaly`, `type0_sms`,
/// `attach_reject_storm` and `imsi_paging` name analyzers this library
/// provides; the analyzers the other flags name are supplied to
/// [`Harness::new_with_config`] in an [`ExternalAnalyzers`].
#[derive(Debug, Clone, Copy)]
pub struct AnalyzerConfig {
    pub diagnostic_analyzer: bool,
    pub connection_redirect_2g_downgrade: bool,
    pub lte_sib6_and_7_downgrade: bool,
    pub null_cipher: bool,
    pub nas_null_cipher: bool,
    pub incomplete_sib: bool,
    pub test_analyzer: bool,
    pub imsi_requested: bool,
    pub auth_anomaly: bool,
    pub type0_sms: bool,
    pub attach_reject_storm: bool,
    pub imsi_paging: bool,
}

impl Default for AnalyzerConfig {
    /// Every analyzer enabled except the test analyzer.
    fn default() -> (res: Self)
        ensures
            res.imsi_requested && res.diagnostic_analyzer && res.connection_redirect_2g_downgrade
                && res.lte_sib6_and_7_downgrade && res.null_cipher && res.nas_null_cipher
                && res.incomplete_sib && !res.test_analyzer && res.auth_anomaly && res.type0_sms
                && res.attach_reject_storm && res.imsi_paging,
    {
        AnalyzerConfig {
            imsi_requested: true,
            diagnostic_analyzer: true,
            connection_redirect_2g_downgrade: true,
            lte_sib6_and_7_downgrade: true,
            null_cipher: true,
            nas_null_cipher: true,
            incomplete_sib: true,
            test_analyzer: false,
            auth_anomaly: true,
            type0_sms: true,
            attach_reject_storm: true,
            imsi_paging: true,
        }
    }
}

/// The severity level of an event. Informational does not result in any
/// alert on the display.
#[derive(Debug, Clone, Copy, PartialEq, Eq, Structural, PartialOrd, Ord)]
pub enum EventType {
    Informational,
    Low,
    Medium,
    High,
}

/// The position of a severity in the order Informational < Low < Medium <
/// High.
pub open spec fn severity_rank(t: EventType) -> int {
    match t {
        EventType::Informational => 0,
        EventType::Low => 1,
        EventType::Medium => 2,
        EventType::High => 3,
    }
}

/// The severity a current-format report names.
pub open spec fn severity_named(s: Seq<char>) -> Option<EventType> {
    if s == "Informational"@ {
        Some(EventType::Informational)
    } else if s == "Low"@ {
        Some(EventType::Low)
    } else if s == "Medium"@ {
        Some(EventType::Medium)
    } else if s == "High"@ {
        Some(EventType::High)
    } else {
        None
    }
}

/// The severity of a legacy "QualitativeWarning", which names Low, Medium or
/// High.
pub open spec fn warning_severity_named(s: Seq<char>) -> Option<EventType> {
    if s == "Low"@ {
        Some(EventType::Low)
    } else if s == "Medium"@ {
        Some(EventType::Medium)
    } else if s == "High"@ {
        Some(EventType::High)
    } else {
        None
    }
}

/// Severities are read by their names: a current-format report names each
/// of the four by itself, and a legacy warning names Low, Medium or High;
/// the two readings agree on those three, and a legacy warning is never
/// Informational.
pub proof fn lemma_severity_names(s: Seq<char>)
    ensures
        severity_named("Informational"@) == Some(EventType::Informational),
        severity_named("Low"@) == Some(EventType::Low),
        severity_named("Medium"@) == Some(EventType::Medium),
        severity_named("High"@) == Some(EventType::High),
        warning_severity_named("Low"@) == Some(EventType::Low),
        warning_severity_named("Medium"@) == Some(EventType::Medium),
        warning_severity_named("High"@) == Some(EventType::High),
        warning_severity_named(s) != Some(EventType::Informational),
        warning_severity_named(s) is Some ==> warning_severity_named(s) == severity_named(s),
{
    reveal_strlit("Informational");
    reveal_strlit("Low");
    reveal_strlit("Medium");
    reveal_strlit("High");
    assert("Informational"@.len() == 13);
    assert("Low"@.len() == 3);
    assert("Medium"@.len() == 6);
    assert("High"@.len() == 4);
}

impl Default for EventType {
    fn default() -> (res: Self)
        ensures
            res == EventType::Informational,
    {
        EventType::Informational
    }
}

impl EventType {
    /// The severity a report names: "Informational", "Low", "Medium" or
    /// "High"; `None` for any other name.
    pub fn from_name(s: &str) -> (res: Option<EventType>)
        ensures
            res == severity_named(s@),
    {
        if crate::text::str_eq(s, "Informational") {
            Some(EventType::Informational)
        } else if crate::text::str_eq(s, "Low") {
            Some(EventType::Low)
        } else if crate::text::str_eq(s, "Medium") {
            Some(EventType::Medium)
        } else if crate::text::str_eq(s, "High") {
            Some(EventType::High)
        } else {
            None
        }
    }

    /// The severity of a legacy `{"type": "QualitativeWarning", "severity":
    /// s}` event type: "Low", "Medium" or "High"; `None` for any other
    /// severity.
    pub fn from_warning_severity(s: &str) -> (res: Option<EventType>)
        ensures
            res == warning_severity_named(s@),
    {
        if crate::text::str_eq(s, "Low") {
            Some(EventType::Low)
        } else if crate::text::str_eq(s, "Medium") {
            Some(EventType::Medium)
        } else if crate::text::str_eq(s, "High") {
            Some(EventType::High)
        } else {
            None
        }
    }

    /// The larger of two severities.
    pub fn max_with(self, other: EventType) -> (res: EventType)
        ensures
            severity_rank(res) == if severity_rank(self) >= severity_rank(other) {
                severity_rank(self)
            } else {
                severity_rank(other)
            },
            res == self || res == other,
    {
        let a: u8 = match self {
            EventType::Informational => 0,
            EventType::Low => 1,
            EventType::Medium => 2,
            EventType::High => 3,
        };
        let b: u8 = match other {
            EventType::Informational => 0,
            EventType::Low => 1,
            EventType::Medium => 2,
            EventType::High => 3,
        };
        if a >= b {
            self
        } else {
            other
        }
    }
}

/// Identifies the analyzer that produced an event.
#[derive(Debug)]
pub struct AnalyzerId {
    /// The analyzer's user-facing name.
    pub name: String,
    /// The analyzer's version.
    pub version: u32,
}

pub struct AnalyzerIdView {
    pub name: Seq<char>,
    pub version: u32,
}

impl View for AnalyzerId {
    type V = AnalyzerIdView;

    open spec fn view(&self) -> AnalyzerIdView {
        AnalyzerIdView { name: self.name@, version: self.version }
    }
}

impl Clone for AnalyzerId {
    fn clone(&self) -> (res: Self)
        ensures
            res == *self,
    {
        AnalyzerId { name: self.name.clone(), version: self.version }
    }
}

/// A user-facing signal emitted by an analyzer: a detection warning, or
/// information worth showing. Beyond the message, an event may carry which
/// analyzer fired, its confidence, and the serving cell at the time.
#[derive(Debug)]
pub struct Event {
    pub event_type: EventType,
    pub message: String,
    /// The analyzer that produced this event; stamped by the [`Harness`].
    pub analyzer: Option<AnalyzerId>,
    /// Optional analyzer-supplied confidence in `[0.0, 1.0]`, held as the bits
    /// of an IEEE-754 single-precision number.
    pub confidence: Option<u32>,
    /// The serving cell in effect when this event fired; stamped by the
    /// [`Harness`] from the most recently observed SIB1.
    pub cell: Option<ServingCellInfo>,
}

pub struct EventView {
    pub event_type: EventType,
    pub message: Seq<char>,
    pub analyzer: Option<AnalyzerIdView>,
    pub confidence: Option<u32>,
    pub cell: Option<ServingCellInfoView>,
}

pub open spec fn option_analyzer_view(a: Option<AnalyzerId>) -> Option<AnalyzerIdView> {
    match a {
        Some(a) => Some(a@),
        None => None,
    }
}

impl View for Event {
    type V = EventView;

    open spec fn view(&self) -> EventView {
        EventView {
            event_type: self.event_type,
            message: self.message@,
            analyzer: option_analyzer_view(self.analyzer),
            confidence: self.confidence,
            cell: option_cell_view(self.cell),
        }
    }
}

pub open spec fn option_event_view(e: Option<Event>) -> Option<EventView> {
    match e {
        Some(e) => Some(e@),
        None => None,
    }
}

/// An event with only a severity and a message.
pub open spec fn plain_event(event_type: EventType, message: Seq<char>) -> EventView {
    EventView { event_type, message, analyzer: None, confidence: None, cell: None }
}

impl Event {
    /// An event with the given severity and message and no structured
    /// context.
    pub fn new(event_type: EventType, message: String) -> (res: Event)
        ensures
            res@ == plain_event(event_type, message@),
    {
        Event { event_type, message, analyzer: None, confidence: None, cell: None }
    }
}

impl Clone for Event {
    fn clone(&self) -> (res: Self)
        ensures
            res == *self,
    {
        let analyzer = match &self.analyzer {
            Some(a) => Some(a.clone()),
            None => None,
        };
        let cell = match &self.cell {
            Some(c) => Some(c.clone()),
            None => None,
        };
        Event {
            event_type: self.event_type,
            message: self.message.clone(),
            analyzer,
            confidence: self.confidence,
            cell,
        }
    }
}

/// One heuristic for detecting an IMSI catcher. An analyzer may keep some
/// state between messages; rayhunter may run for many hours with many
/// analyzers side by side, so that state should stay small.
///
/// An implementation states, as spec functions, its name, description and
/// version, and the events it reports, from its current state, for any
/// stream of elements; its methods are held to them. Analyzing an element
/// reports the first event of the stream that starts with it, and leaves the
/// analyzer in the state that reports the rest of that stream: the state
/// after exactly one step. The provided defaults leave these values
/// unspecified: an implementation that keeps a default says nothing of that
/// value.
pub trait Analyzer {
    /// The analyzer's name.
    open spec fn spec_name(&self) -> Seq<char> {
        vstd::pervasive::arbitrary()
    }

    /// The analyzer's description.
    open spec fn spec_description(&self) -> Seq<char> {
        vstd::pervasive::arbitrary()
    }

    /// The analyzer's version.
    open spec fn spec_version(&self) -> u32 {
        vstd::pervasive::arbitrary()
    }

    /// The events the analyzer, from its current state, reports for a stream
    /// of elements, each with its packet number, one entry per element.
    open spec fn spec_events(&self, inputs: Seq<(InformationElement, usize)>) -> Seq<
        Option<EventView>,
    > {
        vstd::pervasive::arbitrary()
    }

    /// A user-friendly, concise name for the heuristic.
    fn get_name(&self) -> (res: String)
        ensures
            res@ == self.spec_name(),
    ;

    /// A user-friendly description of what the heuristic looks for, the
    /// events it may return, and its possible false positives.
    fn get_description(&self) -> (res: String)
        ensures
            res@ == self.spec_description(),
    ;

    /// Analyze a single information element, possibly returning an event.
    fn analyze_information_element(&mut self, ie: &InformationElement, packet_num: usize) -> (res:
        Option<Event>)
        requires
            well_formed(*ie),
        ensures
            option_event_view(res) == old(self).spec_events(seq![(*ie, packet_num)])[0],
            forall|rest: Seq<(InformationElement, usize)>|
                #[trigger] final(self).spec_events(rest) == old(self).spec_events(
                    seq![(*ie, packet_num)] + rest,
                ).drop_first(),
    ;

    /// The version of the heuristic; it only ever increases.
    fn get_version(&self) -> (res: u32)
        ensures
            res == self.spec_version(),
    ;
}

/// A boxed analyzer is an analyzer: it does what the analyzer in the box
/// does.
impl Analyzer for Box<dyn Analyzer> {
    open spec fn spec_name(&self) -> Seq<char> {
        (**self).spec_name()
    }

    open spec fn spec_description(&self) -> Seq<char> {
        (**self).spec_description()
    }

    open spec fn spec_version(&self) -> u32 {
        (**self).spec_version()
    }

    open spec fn spec_events(&self, inputs: Seq<(InformationElement, usize)>) -> Seq<
        Option<EventView>,
    > {
        (**self).spec_events(inputs)
    }

    fn get_name(&self) -> (res: String) {
        (**self).get_name()
    }

    fn get_description(&self) -> (res: String) {
        (**self).get_description()
    }

    fn analyze_information_element(&mut self, ie: &InformationElement, packet_num: usize) -> (res:
        Option<Event>) {
        (&mut **self).analyze_information_element(ie, packet_num)
    }

    fn get_version(&self) -> (res: u32) {
        (**self).get_version()
    }
}

/// Specific information on a given analyzer.
#[derive(Debug)]
pub struct AnalyzerMetadata {
    /// The analyzer name.
    pub name: String,
    /// A description of what the analyzer does.
    pub description: String,
    /// The deployed version of the analyzer code.
    pub version: u32,
}

/// The software the analysis ran on.
#[derive(Debug)]
pub struct RuntimeMetadata {
    pub rayhunter_version: String,
    pub system_os: String,
    pub arch: String,
}

/// The metadata for an analyzed report.
#[derive(Debug)]
pub struct ReportMetadata {
    /// Which analyzers were in use for the analysis.
    pub analyzers: Vec<AnalyzerMetadata>,
    /// The runtime during the recording and analysis.
    pub rayhunter: RuntimeMetadata,
    /// The version of the reporting format used; legacy unversioned reports
    /// read as 0.
    pub report_version: u32,
}

impl ReportMetadata {
    /// Normalize the report metadata to the current version.
    pub fn normalize(&mut self)
        ensures
            final(self).report_version == REPORT_VERSION,
            final(self).analyzers == old(self).analyzers,
            final(self).rayhunter == old(self).rayhunter,
    {
        self.report_version = REPORT_VERSION;
    }
}

/// What a line of an analysis report holds.
#[derive(Debug, Clone, Copy, PartialEq, Eq, Structural)]
pub enum ReportLine {
    /// The first line: the report metadata.
    Metadata,
    /// Every later line: one analysis row.
    Row,
}

/// Normalizer for analysis report lines. The first line is the report
/// metadata; the following lines are analysis rows. The decoding and
/// re-encoding of each line is done by the caller, who asks
/// [`begin_line`](Self::begin_line) which kind the next line is and hands
/// the outcome to [`finish_line`](Self::finish_line).
pub struct AnalysisLineNormalizer {
    pub is_first: bool,
}

impl AnalysisLineNormalizer {
    pub fn new() -> (res: Self)
        ensures
            res.is_first,
    {
        AnalysisLineNormalizer { is_first: true }
    }

    /// The kind of the next line: metadata for the first line, a row for
    /// every later one.
    pub fn begin_line(&mut self) -> (res: ReportLine)
        ensures
            res == if old(self).is_first {
                ReportLine::Metadata
            } else {
                ReportLine::Row
            },
            !final(self).is_first,
    {
        if self.is_first {
            self.is_first = false;
            ReportLine::Metadata
        } else {
            ReportLine::Row
        }
    }

    /// The normalized line: its re-encoding when the line decoded, otherwise
    /// the line unchanged; a newline is appended either way.
    pub fn finish_line(line: String, reencoded: Option<String>) -> (res: String)
        ensures
            res@ == match reencoded {
                Some(r) => r@,
                None => line@,
            } + "\n"@,
    {
        let mut out = match reencoded {
            Some(r) => r,
            None => line,
        };
        out.append("\n");
        out
    }
}

impl Default for AnalysisLineNormalizer {
    fn default() -> (res: Self)
        ensures
            res.is_first,
    {
        Self::new()
    }
}

/// A geographic position in WGS84 decimal degrees, held as the bits of the
/// IEEE-754 double-precision latitude and longitude.
#[derive(Debug, Clone, Copy, PartialEq, Eq, Structural)]
pub struct Position {
    pub lat_bits: u64,
    pub lon_bits: u64,
}

/// A packet's timestamp: seconds and nanoseconds since the Unix epoch, and
/// the UTC offset it was expressed in.
#[derive(Debug, Clone, Copy, PartialEq, Eq, Structural)]
pub struct PacketTimestamp {
    pub unix_seconds: i64,
    pub subsec_nanos: u32,
    pub utc_offset_seconds: i32,
}

/// One row of an analysis report: the packet's timestamp, why it was skipped
/// (if it was), one entry per analyzer, and the position at capture time.
#[derive(Debug)]
pub struct AnalysisRow {
    pub packet_timestamp: Option<PacketTimestamp>,
    pub skipped_message_reason: Option<String>,
    pub events: Vec<Option<Event>>,
    /// The GPS position in effect when this row's packet was captured, if a
    /// fix was available. Stamped by the daemon, not the analysis library.
    pub position: Option<Position>,
}

/// The value of an [`AnalysisRow`].
pub struct AnalysisRowView {
    pub packet_timestamp: Option<PacketTimestamp>,
    pub skipped_message_reason: Option<Seq<char>>,
    pub events: Seq<Option<EventView>>,
    pub position: Option<Position>,
}

pub open spec fn option_string_view(s: Option<String>) -> Option<Seq<char>> {
    match s {
        Some(s) => Some(s@),
        None => None,
    }
}

pub open spec fn event_views(v: Seq<Option<Event>>) -> Seq<Option<EventView>> {
    v.map_values(|e: Option<Event>| option_event_view(e))
}

impl View for AnalysisRow {
    type V = AnalysisRowView;

    open spec fn view(&self) -> AnalysisRowView {
        AnalysisRowView {
            packet_timestamp: self.packet_timestamp,
            skipped_message_reason: option_string_view(self.skipped_message_reason),
            events: event_views(self.events@),
            position: self.position,
        }
    }
}

/// A row with nothing in it.
pub open spec fn empty_row() -> AnalysisRowView {
    AnalysisRowView {
        packet_timestamp: None,
        skipped_message_reason: None,
        events: Seq::empty(),
        position: None,
    }
}

/// Some entry of the events is an event of severity above Informational.
pub open spec fn has_warning(events: Seq<Option<Event>>) -> bool {
    exists|i: int|
        0 <= i < events.len() && #[trigger] events[i] is Some && events[i]->0.event_type
            != EventType::Informational
}

/// An entry of an analysis report in the first (v1) format, which grouped
/// several analyses under one report entry.
pub struct LegacyAnalysisEntry {
    pub timestamp: PacketTimestamp,
    pub events: Vec<Option<Event>>,
}

impl AnalysisRow {
    pub fn new() -> (res: Self)
        ensures
            res@ == empty_row(),
    {
        let res = AnalysisRow {
            packet_timestamp: None,
            skipped_message_reason: None,
            events: Vec::new(),
            position: None,
        };
        assert(res@.events =~= Seq::<Option<EventView>>::empty());
        res
    }

    /// The highest severity among the row's events, Informational when there
    /// is none.
    pub fn get_max_event_type(&self) -> (res: EventType)
        ensures
            forall|i: int|
                0 <= i < self.events@.len() ==> (#[trigger] self.events@[i] matches Some(e)
                    ==> severity_rank(e.event_type) <= severity_rank(res)),
            res == EventType::Informational || exists|i: int|
                0 <= i < self.events@.len() && #[trigger] self.events@[i] is Some
                    && self.events@[i]->0.event_type == res,
    {
        let mut max = EventType::Informational;
        let mut i: usize = 0;
        while i < self.events.len()
            invariant
                i <= self.events@.len(),
                forall|j: int|
                    0 <= j < i ==> (#[trigger] self.events@[j] matches Some(e) ==> severity_rank(
                        e.event_type,
                    ) <= severity_rank(max)),
                max == EventType::Informational || exists|j: int|
                    0 <= j < i && #[trigger] self.events@[j] is Some
                        && self.events@[j]->0.event_type == max,
            decreases self.events.len() - i,
        {
            match &self.events[i] {
                Some(e) => {
                    max = max.max_with(e.event_type);
                },
                None => {},
            }
            i = i + 1;
        }
        max
    }

    /// Whether some event is more severe than Informational.
    pub fn contains_warnings(&self) -> (res: bool)
        ensures
            res == has_warning(self.events@),
    {
        let m = self.get_max_event_type();
        if m != EventType::Informational {
            assert(has_warning(self.events@));
        } else {
            assert forall|i: int|
                0 <= i < self.events@.len() && #[trigger] self.events@[i] is Some implies self.events@[i]->0.event_type
                == EventType::Informational by {
                assert(severity_rank(self.events@[i]->0.event_type) <= 0);
            }
        }
        m != EventType::Informational
    }

    /// A row is empty when it was not skipped and warns of nothing.
    pub fn is_empty(&self) -> (res: bool)
        ensures
            res == (self.skipped_message_reason is None && !has_warning(self.events@)),
    {
        self.skipped_message_reason.is_none() && !self.contains_warnings()
    }

    /// The row an entry of the first report format (v1) stands for: the first
    /// analysis entry, or, when there is none, the first skipped-message
    /// reason at the report's timestamp; `None` when there is neither.
    pub fn from_legacy(
        timestamp: PacketTimestamp,
        skipped_message_reasons: Vec<String>,
        analysis: Vec<LegacyAnalysisEntry>,
    ) -> (res: Option<AnalysisRow>)
        ensures
            analysis@.len() > 0 ==> {
                &&& res is Some
                &&& res->0.packet_timestamp == Some(analysis@[0].timestamp)
                &&& res->0.skipped_message_reason is None
                &&& res->0.events@ == analysis@[0].events@
                &&& res->0.position is None
            },
            analysis@.len() == 0 && skipped_message_reasons@.len() > 0 ==> {
                &&& res is Some
                &&& res->0.packet_timestamp == Some(timestamp)
                &&& res->0.skipped_message_reason == Some(skipped_message_reasons@[0])
                &&& res->0.events@.len() == 0
                &&& res->0.position is None
            },
            analysis@.len() == 0 && skipped_message_reasons@.len() == 0 ==> res is None,
    {
        let mut analysis = analysis;
        let mut reasons = skipped_message_reasons;
        if analysis.len() > 0 {
            let first = analysis.remove(0);
            Some(
                AnalysisRow {
                    packet_timestamp: Some(first.timestamp),
                    skipped_message_reason: None,
                    events: first.events,
                    position: None,
                },
            )
        } else if reasons.len() > 0 {
            let first_reason = reasons.remove(0);
            Some(
                AnalysisRow {
                    packet_timestamp: Some(timestamp),
                    skipped_message_reason: Some(first_reason),
                    events: Vec::new(),
                    position: None,
                },
            )
        } else {
            None
        }
    }
}

impl Default for AnalysisRow {
    fn default() -> (res: Self)
        ensures
            res@ == empty_row(),
    {
        Self::new()
    }
}

/// The state of one of the analyzers this library provides.
pub enum AnalyzerState {
    AttachRejectStorm(StormView),
    AuthAnomaly(AuthView),
    ImsiPaging,
    Type0Sms,
}

pub open spec fn analyzer_name(a: AnalyzerState) -> Seq<char> {
    match a {
        AnalyzerState::AttachRejectStorm(_) => storm_name(),
        AnalyzerState::AuthAnomaly(_) => auth_anomaly_name(),
        AnalyzerState::ImsiPaging => imsi_paging_name(),
        AnalyzerState::Type0Sms => type0_name(),
    }
}

pub open spec fn analyzer_description(a: AnalyzerState) -> Seq<char> {
    match a {
        AnalyzerState::AttachRejectStorm(_) => storm_description(),
        AnalyzerState::AuthAnomaly(_) => auth_anomaly_description(),
        AnalyzerState::ImsiPaging => imsi_paging_description(),
        AnalyzerState::Type0Sms => type0_description(),
    }
}

pub open spec fn analyzer_version(a: AnalyzerState) -> u32 {
    match a {
        AnalyzerState::AttachRejectStorm(_) => storm_version(),
        AnalyzerState::AuthAnomaly(_) => auth_anomaly_version(),
        AnalyzerState::ImsiPaging => imsi_paging_version(),
        AnalyzerState::Type0Sms => type0_version(),
    }
}

/// One of the provided analyzers after an information element, and the
/// event it reports.
pub open spec fn analyzer_step(a: AnalyzerState, ie: InformationElement, packet_num: usize) -> (
    AnalyzerState,
    Option<EventView>,
) {
    match a {
        AnalyzerState::AttachRejectStorm(s) => {
            let r = spec_storm_step(s, ie, packet_num);
            (AnalyzerState::AttachRejectStorm(r.0), r.1)
        },
        AnalyzerState::AuthAnomaly(s) => {
            let r = spec_auth_step(s, ie);
            (AnalyzerState::AuthAnomaly(r.0), r.1)
        },
        AnalyzerState::ImsiPaging => (AnalyzerState::ImsiPaging, spec_imsi_paging_event(ie)),
        AnalyzerState::Type0Sms => (AnalyzerState::Type0Sms, spec_type0_event(ie)),
    }
}

/// The events one of the provided analyzers reports, from state `a`, for a
/// stream of elements: each element moves it one step.
pub open spec fn builtin_events(a: AnalyzerState, inputs: Seq<(InformationElement, usize)>) -> Seq<
    Option<EventView>,
>
    decreases inputs.len(),
{
    if inputs.len() == 0 {
        Seq::empty()
    } else {
        let r = analyzer_step(a, inputs[0].0, inputs[0].1);
        seq![r.1] + builtin_events(r.0, inputs.drop_first())
    }
}

/// A provided analyzer's first event for a stream is that of one step, and
/// after that step it reports the rest of the stream.
pub proof fn lemma_builtin_events_step(a: AnalyzerState, ie: InformationElement, packet_num: usize)
    ensures
        builtin_events(a, seq![(ie, packet_num)])[0] == analyzer_step(a, ie, packet_num).1,
        forall|rest: Seq<(InformationElement, usize)>|
            #[trigger] builtin_events(analyzer_step(a, ie, packet_num).0, rest) == builtin_events(
                a,
                seq![(ie, packet_num)] + rest,
            ).drop_first(),
{
    let r = analyzer_step(a, ie, packet_num);
    assert forall|rest: Seq<(InformationElement, usize)>|
        #[trigger] builtin_events(r.0, rest) == builtin_events(
            a,
            seq![(ie, packet_num)] + rest,
        ).drop_first() by {
        let full = seq![(ie, packet_num)] + rest;
        assert(full[0] == (ie, packet_num));
        assert(full.drop_first() =~= rest);
        assert(builtin_events(a, full) == seq![r.1] + builtin_events(r.0, rest));
        assert((seq![r.1] + builtin_events(r.0, rest)).drop_first() =~= builtin_events(r.0, rest));
    }
    let one = seq![(ie, packet_num)];
    assert(one.drop_first() =~= Seq::<(InformationElement, usize)>::empty());
    assert(builtin_events(a, one) == seq![r.1] + builtin_events(r.0, one.drop_first()));
}

/// The analyzers this library provides.
pub enum BuiltinAnalyzer {
    AttachRejectStorm(AttachRejectStormAnalyzer),
    AuthAnomaly(AuthAnomalyAnalyzer),
    ImsiPaging(ImsiPagingAnalyzer),
    Type0Sms(Type0SmsAnalyzer),
}

impl View for BuiltinAnalyzer {
    type V = AnalyzerState;

    open spec fn view(&self) -> AnalyzerState {
        match self {
            BuiltinAnalyzer::AttachRejectStorm(a) => AnalyzerState::AttachRejectStorm(a@),
            BuiltinAnalyzer::AuthAnomaly(a) => AnalyzerState::AuthAnomaly(a@),
            BuiltinAnalyzer::ImsiPaging(_) => AnalyzerState::ImsiPaging,
            BuiltinAnalyzer::Type0Sms(_) => AnalyzerState::Type0Sms,
        }
    }
}

impl Analyzer for BuiltinAnalyzer {
    open spec fn spec_name(&self) -> Seq<char> {
        analyzer_name(self@)
    }

    open spec fn spec_description(&self) -> Seq<char> {
        analyzer_description(self@)
    }

    open spec fn spec_version(&self) -> u32 {
        analyzer_version(self@)
    }

    open spec fn spec_events(&self, inputs: Seq<(InformationElement, usize)>) -> Seq<
        Option<EventView>,
    > {
        builtin_events(self@, inputs)
    }

    fn get_name(&self) -> (res: String)
        ensures
            res@ == analyzer_name(self@),
    {
        match self {
            BuiltinAnalyzer::AttachRejectStorm(a) => a.get_name(),
            BuiltinAnalyzer::AuthAnomaly(a) => a.get_name(),
            BuiltinAnalyzer::ImsiPaging(a) => a.get_name(),
            BuiltinAnalyzer::Type0Sms(a) => a.get_name(),
        }
    }

    fn get_description(&self) -> (res: String)
        ensures
            res@ == analyzer_description(self@),
    {
        match self {
            BuiltinAnalyzer::AttachRejectStorm(a) => a.get_description(),
            BuiltinAnalyzer::AuthAnomaly(a) => a.get_description(),
            BuiltinAnalyzer::ImsiPaging(a) => a.get_description(),
            BuiltinAnalyzer::Type0Sms(a) => a.get_description(),
        }
    }

    fn get_version(&self) -> (res: u32)
        ensures
            res == analyzer_version(self@),
    {
        match self {
            BuiltinAnalyzer::AttachRejectStorm(a) => a.get_version(),
            BuiltinAnalyzer::AuthAnomaly(a) => a.get_version(),
            BuiltinAnalyzer::ImsiPaging(a) => a.get_version(),
            BuiltinAnalyzer::Type0Sms(a) => a.get_version(),
        }
    }

    fn analyze_information_element(&mut self, ie: &InformationElement, packet_num: usize) -> (res:
        Option<Event>)
        ensures
            final(self)@ == analyzer_step(old(self)@, *ie, packet_num).0,
            option_event_view(res) == analyzer_step(old(self)@, *ie, packet_num).1,
    {
        proof {
            lemma_builtin_events_step(self@, *ie, packet_num);
        }
        match self {
            BuiltinAnalyzer::AttachRejectStorm(a) => a.analyze_information_element(ie, packet_num),
            BuiltinAnalyzer::AuthAnomaly(a) => a.analyze_information_element(ie, packet_num),
            BuiltinAnalyzer::ImsiPaging(a) => a.analyze_information_element(ie, packet_num),
            BuiltinAnalyzer::Type0Sms(a) => a.analyze_information_element(ie, packet_num),
        }
    }
}

/// Runs a set of analyzers over a stream of messages, numbering the packets
/// and tracking the serving cell, and stamps each event with the analyzer
/// that produced it, the packet number and the serving cell.
pub struct Harness<A = Box<dyn Analyzer>> {
    analyzers: Vec<A>,
    packet_num: usize,
    serving_cell: ServingCellTracker,
}

/// The value of a [`Harness`].
pub struct HarnessView<A> {
    pub analyzers: Seq<A>,
    pub packet_num: usize,
    pub serving_cell: ServingCellTrackerView,
}

impl<A> View for Harness<A> {
    type V = HarnessView<A>;

    closed spec fn view(&self) -> HarnessView<A> {
        HarnessView {
            analyzers: self.analyzers@,
            packet_num: self.packet_num,
            serving_cell: self.serving_cell@,
        }
    }
}

/// An event as the harness hands it on, for packet `packet_num`: " (packet
/// N)" is appended to the message, the analyzer identity `name`/`version`
/// is filled in unless already set, and the serving cell `cell` is filled in
/// unless already set, unknown or empty.
pub open spec fn stamp_event_by(
    e: Option<EventView>,
    name: Seq<char>,
    version: u32,
    packet_num: usize,
    cell: Option<ServingCellInfoView>,
) -> Option<EventView> {
    match e {
        None => None,
        Some(ev) => Some(
            EventView {
                message: ev.message + " (packet "@ + decimal(packet_num as nat) + ")"@,
                analyzer: if ev.analyzer is None {
                    Some(AnalyzerIdView { name, version })
                } else {
                    ev.analyzer
                },
                cell: if ev.cell is None && cell is Some && cell->0 != empty_cell() {
                    cell
                } else {
                    ev.cell
                },
                ..ev
            },
        ),
    }
}

/// The event analyzer `a` reports, in its current state, for an element
/// seen as packet `packet_num`: the first event of the stream that starts
/// with it.
pub open spec fn next_event<A: Analyzer>(a: A, ie: InformationElement, packet_num: usize) -> Option<
    EventView,
> {
    a.spec_events(seq![(ie, packet_num)])[0]
}

/// `after` is analyzer `before` after exactly one step, on an element seen
/// as packet `packet_num`: for every stream, it reports what `before`
/// reports for that stream preceded by the element, less the first event.
pub open spec fn stepped_once<A: Analyzer>(
    before: A,
    ie: InformationElement,
    packet_num: usize,
    after: A,
) -> bool {
    forall|rest: Seq<(InformationElement, usize)>|
        #[trigger] after.spec_events(rest) == before.spec_events(
            seq![(ie, packet_num)] + rest,
        ).drop_first()
}

/// The harness `h` becomes `after` on an information element and hands on
/// `events`: the packet counter is unchanged; the serving cell is updated
/// from the element first; there is one entry per analyzer, in order, and
/// entry `i` is the event analyzer `i` reports in its state before the
/// element, stamped with the analyzer's name and version (read after it ran)
/// and the serving cell after the update; and each analyzer has taken
/// exactly one step on the element.
pub open spec fn ie_step<A: Analyzer>(
    h: HarnessView<A>,
    ie: InformationElement,
    after: HarnessView<A>,
    events: Seq<Option<EventView>>,
) -> bool {
    let cell = tracker_after_observe(h.serving_cell, ie).current;
    &&& after.packet_num == h.packet_num
    &&& after.serving_cell == tracker_after_observe(h.serving_cell, ie)
    &&& after.analyzers.len() == h.analyzers.len()
    &&& events.len() == h.analyzers.len()
    &&& forall|i: int|
        0 <= i < h.analyzers.len() ==> #[trigger] stepped_once(
            h.analyzers[i],
            ie,
            h.packet_num,
            after.analyzers[i],
        )
    &&& forall|i: int|
        0 <= i < events.len() ==> #[trigger] events[i] == stamp_event_by(
            next_event(h.analyzers[i], ie, h.packet_num),
            after.analyzers[i].spec_name(),
            after.analyzers[i].spec_version(),
            h.packet_num,
            cell,
        )
}

/// The provided analyzers report plain events: no analyzer identity, no
/// confidence and no cell of their own.
pub proof fn lemma_analyzer_events_plain(a: AnalyzerState, ie: InformationElement, packet_num: usize)
    ensures
        analyzer_step(a, ie, packet_num).1 matches Some(e) ==> e.analyzer is None && e.cell is None
            && e.confidence is None,
{
}

/// Whatever the analyzers, the harness hands on one entry per analyzer, in
/// order: an entry is an event exactly when that analyzer reported one, and
/// then it has the analyzer's severity and its message followed by
/// " (packet N)"; it names the analyzer that produced it (by the name and
/// version the analyzer gives) unless the analyzer named one itself; and it
/// carries the serving cell known after the element when that cell is not
/// empty and the analyzer set no cell of its own, and never an empty cell
/// that the harness filled in.
pub proof fn lemma_harness_stamps_events<A: Analyzer>(
    h: HarnessView<A>,
    ie: InformationElement,
    after: HarnessView<A>,
    events: Seq<Option<EventView>>,
)
    requires
        ie_step(h, ie, after, events),
    ensures
        events.len() == h.analyzers.len(),
        forall|i: int|
            #![trigger events[i]]
            0 <= i < events.len() ==> {
                let reported = next_event(h.analyzers[i], ie, h.packet_num);
                let cell = tracker_after_observe(h.serving_cell, ie).current;
                &&& events[i] is Some == reported is Some
                &&& events[i] matches Some(e) ==> {
                    &&& e.event_type == reported->0.event_type
                    &&& e.message == reported->0.message + " (packet "@ + decimal(
                        h.packet_num as nat,
                    ) + ")"@
                    &&& e.analyzer == if reported->0.analyzer is None {
                        Some(
                            AnalyzerIdView {
                                name: after.analyzers[i].spec_name(),
                                version: after.analyzers[i].spec_version(),
                            },
                        )
                    } else {
                        reported->0.analyzer
                    }
                    &&& reported->0.cell is None ==> (e.cell matches Some(c) ==> c != empty_cell()
                        && cell == Some(c))
                    &&& reported->0.cell is None ==> ((cell matches Some(c) && c != empty_cell())
                        ==> e.cell == cell)
                    &&& reported->0.cell is Some ==> e.cell == reported->0.cell
                }
            },
{
}

/// The first `k` elements of a run of the harness, each with the packet
/// number the harness gave it.
pub open spec fn run_inputs<A>(
    states: Seq<HarnessView<A>>,
    elements: Seq<InformationElement>,
    k: int,
) -> Seq<(InformationElement, usize)> {
    Seq::new(k as nat, |j: int| (elements[j], states[j].packet_num))
}

/// `s` without its first `n` entries, dropped one at a time.
pub open spec fn drop_n<T>(s: Seq<T>, n: nat) -> Seq<T>
    decreases n,
{
    if n == 0 {
        s
    } else {
        drop_n(s, (n - 1) as nat).drop_first()
    }
}

/// From the state before element `k` of a run, analyzer `i` reports for any
/// further stream what it reported at the start for the first `k` elements
/// followed by that stream, less the first `k` events.
proof fn lemma_harness_run_state<A: Analyzer>(
    states: Seq<HarnessView<A>>,
    elements: Seq<InformationElement>,
    events: Seq<Seq<Option<EventView>>>,
    k: int,
    i: int,
    rest: Seq<(InformationElement, usize)>,
)
    requires
        states.len() == elements.len() + 1,
        events.len() == elements.len(),
        forall|j: int|
            0 <= j < elements.len() ==> #[trigger] ie_step(
                states[j],
                elements[j],
                states[j + 1],
                events[j],
            ),
        0 <= k <= elements.len(),
        0 <= i < states[0].analyzers.len(),
    ensures
        i < states[k].analyzers.len(),
        states[k].analyzers[i].spec_events(rest) == drop_n(
            states[0].analyzers[i].spec_events(run_inputs(states, elements, k) + rest),
            k as nat,
        ),
    decreases k,
{
    if k == 0 {
        assert(run_inputs(states, elements, 0) + rest =~= rest);
    } else {
        let e = (elements[k - 1], states[k - 1].packet_num);
        lemma_harness_run_state(states, elements, events, k - 1, i, seq![e] + rest);
        let j = k - 1;
        assert(ie_step(states[j], elements[j], states[j + 1], events[j]));
        assert(stepped_once(
            states[k - 1].analyzers[i],
            elements[k - 1],
            states[k - 1].packet_num,
            states[k].analyzers[i],
        ));
        assert(run_inputs(states, elements, k - 1) + (seq![e] + rest) =~= run_inputs(
            states,
            elements,
            k,
        ) + rest);
    }
}

/// Over a run of the harness, each analyzer sees every element exactly once,
/// in order. If `states` are the harness before each element and after the
/// last, and `events` the entries handed on for each element, then the entry
/// of analyzer `i` for element `k` is the event that analyzer, from its
/// state at the start, reports for element `k` of the stream of the first
/// `k + 1` elements, stamped; and from the state before element `k` it
/// reports for any further stream what it reported at the start for the
/// first `k` elements followed by that stream, less the first `k` events.
pub proof fn lemma_harness_run<A: Analyzer>(
    states: Seq<HarnessView<A>>,
    elements: Seq<InformationElement>,
    events: Seq<Seq<Option<EventView>>>,
    k: int,
    i: int,
    rest: Seq<(InformationElement, usize)>,
)
    requires
        states.len() == elements.len() + 1,
        events.len() == elements.len(),
        forall|j: int|
            0 <= j < elements.len() ==> #[trigger] ie_step(
                states[j],
                elements[j],
                states[j + 1],
                events[j],
            ),
        0 <= k <= elements.len(),
        0 <= i < states[0].analyzers.len(),
    ensures
        i < states[k].analyzers.len(),
        states[k].analyzers[i].spec_events(rest) == drop_n(
            states[0].analyzers[i].spec_events(run_inputs(states, elements, k) + rest),
            k as nat,
        ),
        k < elements.len() ==> events[k][i] == stamp_event_by(
            drop_n(
                states[0].analyzers[i].spec_events(run_inputs(states, elements, k + 1)),
                k as nat,
            )[0],
            states[k + 1].analyzers[i].spec_name(),
            states[k + 1].analyzers[i].spec_version(),
            states[k].packet_num,
            tracker_after_observe(states[k].serving_cell, elements[k]).current,
        ),
{
    lemma_harness_run_state(states, elements, events, k, i, rest);
    if k < elements.len() {
        let e = (elements[k], states[k].packet_num);
        lemma_harness_run_state(states, elements, events, k, i, seq![e]);
        assert(ie_step(states[k], elements[k], states[k + 1], events[k]));
        assert(run_inputs(states, elements, k) + seq![e] =~= run_inputs(states, elements, k + 1));
    }
}

/// The value of a borrowed, optional cell.
pub open spec fn option_ref_cell_view(cell: Option<&ServingCellInfo>) -> Option<ServingCellInfoView> {
    match cell {
        Some(c) => Some(c@),
        None => None,
    }
}

/// Appends " (packet N)" to an event's message and fills in the analyzer
/// identity and serving cell where they are unset.
fn stamp<A: Analyzer>(
    maybe_event: Option<Event>,
    analyzer: &A,
    packet_num: usize,
    cell: Option<&ServingCellInfo>,
) -> (res: Option<Event>)
    ensures
        option_event_view(res) == stamp_event_by(
            option_event_view(maybe_event),
            analyzer.spec_name(),
            analyzer.spec_version(),
            packet_num,
            option_ref_cell_view(cell),
        ),
{
    match maybe_event {
        None => None,
        Some(mut event) => {
            event.message.append(" (packet ");
            let n = usize_to_decimal(packet_num);
            event.message.append(n.as_str());
            event.message.append(")");
            if event.analyzer.is_none() {
                event.analyzer = Some(
                    AnalyzerId { name: analyzer.get_name(), version: analyzer.get_version() },
                );
            }
            if event.cell.is_none() {
                match cell {
                    Some(c) => {
                        if !c.is_empty() {
                            event.cell = Some(c.clone());
                        }
                    },
                    None => {},
                }
            }
            Some(event)
        },
    }
}

/// Runs the analyzers over one element, in order, and stamps the events
/// they report with their name and version (read after they ran), the
/// packet number and the cell.
fn run_analyzers<A: Analyzer>(
    analyzers: Vec<A>,
    ie: &InformationElement,
    packet_num: usize,
    cell: Option<&ServingCellInfo>,
) -> (res: (Vec<A>, Vec<Option<Event>>))
    requires
        well_formed(*ie),
    ensures
        res.0@.len() == analyzers@.len(),
        res.1@.len() == analyzers@.len(),
        forall|j: int|
            0 <= j < analyzers@.len() ==> #[trigger] stepped_once(
                analyzers@[j],
                *ie,
                packet_num,
                res.0@[j],
            ),
        forall|j: int|
            0 <= j < analyzers@.len() ==> #[trigger] option_event_view(res.1@[j]) == stamp_event_by(
                next_event(analyzers@[j], *ie, packet_num),
                res.0@[j].spec_name(),
                res.0@[j].spec_version(),
                packet_num,
                option_ref_cell_view(cell),
            ),
{
    let ghost all = analyzers@;
    let mut remaining = analyzers;
    let n = remaining.len();
    let mut done: Vec<A> = Vec::new();
    let mut events: Vec<Option<Event>> = Vec::new();
    let mut i: usize = 0;
    while i < n
        invariant
            n == all.len(),
            i <= n,
            remaining@ == all.skip(i as int),
            done@.len() == i,
            events@.len() == i,
            forall|j: int| 0 <= j < i ==> #[trigger] stepped_once(all[j], *ie, packet_num, done@[j]),
            forall|j: int|
                0 <= j < i ==> #[trigger] option_event_view(events@[j]) == stamp_event_by(
                    next_event(all[j], *ie, packet_num),
                    done@[j].spec_name(),
                    done@[j].spec_version(),
                    packet_num,
                    option_ref_cell_view(cell),
                ),
            well_formed(*ie),
        decreases n - i,
    {
        let mut a = remaining.remove(0);
        proof {
            assert(a == all[i as int]);
            assert(remaining@ =~= all.skip(i + 1));
        }
        let ghost before = a;
        let e = a.analyze_information_element(ie, packet_num);
        assert(stepped_once(before, *ie, packet_num, a));
        let stamped = stamp(e, &a, packet_num, cell);
        let ghost d0 = done@;
        let ghost e0 = events@;
        done.push(a);
        events.push(stamped);
        proof {
            assert forall|j: int| 0 <= j < i + 1 implies #[trigger] option_event_view(events@[j])
                == stamp_event_by(
                next_event(all[j], *ie, packet_num),
                done@[j].spec_name(),
                done@[j].spec_version(),
                packet_num,
                option_ref_cell_view(cell),
            ) by {
                if j < i {
                    assert(events@[j] == e0[j]);
                    assert(done@[j] == d0[j]);
                }
            }
            assert forall|j: int| 0 <= j < i + 1 implies #[trigger] stepped_once(
                all[j],
                *ie,
                packet_num,
                done@[j],
            ) by {
                if j < i {
                    assert(done@[j] == d0[j]);
                }
            }
        }
        i = i + 1;
    }
    (done, events)
}

/// What a DIAG message carried at the physical layer, read from its log
/// header or body before any gsmtap conversion.
pub enum PhysicalContext {
    /// An LTE RRC OTA log packet, whose header gives the PCI and EARFCN.
    RrcOta { pci: u16, earfcn: u32 },
    /// An LTE ML1 serving-cell measurement (`0xB193`) log packet body.
    Ml1ServingCellMeas(Vec<u8>),
    /// Any other message.
    Other,
}

/// What converting a DIAG message to gsmtap gave.
pub enum GsmtapOutcome {
    /// The conversion failed, with the rendered error.
    Failed(String),
    /// The message has no gsmtap form.
    NoMessage,
    /// A gsmtap message with its timestamp, and the information element it
    /// decodes to (or the rendered decoding error).
    Message { timestamp: PacketTimestamp, element: Result<InformationElement, String> },
}

/// A DIAG message read from a QMDL recording, as the harness reads it.
pub struct QmdlMessage {
    pub physical: PhysicalContext,
    pub gsmtap: GsmtapOutcome,
}

/// What reading a gsmtap packet from a pcap capture gave.
pub enum PcapGsmtap {
    /// The gsmtap header could not be read, with the rendered error.
    HeaderError(String),
    /// The payload could not be decoded, with the rendered error.
    ElementError(String),
    /// The decoded information element.
    Element(InformationElement),
}

/// A packet of a pcap capture, as the harness reads it.
pub struct PcapPacket {
    pub timestamp: PacketTimestamp,
    pub gsmtap: PcapGsmtap,
}

/// Offset of the gsmtap header in a captured packet's data, after its IPv4
/// and UDP headers.
pub const GSMTAP_OFFSET: usize = 28;

/// Offset of the gsmtap payload in a captured packet's data, after the
/// 16-byte gsmtap header.
pub const GSMTAP_PAYLOAD_OFFSET: usize = 44;

/// The gsmtap type and subtype of a captured packet: bytes 2 and 12 of its
/// gsmtap header.
pub fn pcap_gsmtap_type(data: &[u8]) -> (res: (u8, u8))
    requires
        data@.len() > GSMTAP_OFFSET + 12,
    ensures
        res == (data@[GSMTAP_OFFSET + 2], data@[GSMTAP_OFFSET + 12]),
{
    (data[GSMTAP_OFFSET + 2], data[GSMTAP_OFFSET + 12])
}

/// The gsmtap payload of a captured packet: everything after its gsmtap
/// header.
pub fn pcap_gsmtap_payload(data: &[u8]) -> (res: Vec<u8>)
    requires
        data@.len() >= GSMTAP_PAYLOAD_OFFSET,
    ensures
        res@ == data@.skip(GSMTAP_PAYLOAD_OFFSET as int),
{
    let payload = vstd::slice::slice_subrange(data, GSMTAP_PAYLOAD_OFFSET, data.len());
    vstd::slice::slice_to_vec(payload)
}

/// Unix time of the GPS epoch, 1980-01-06T00:00:00Z, which pcap packet
/// timestamps count from.
pub const GPS_EPOCH_UNIX_SECONDS: i64 = 315964800;

impl PacketTimestamp {
    /// The UTC timestamp `seconds` and `nanos` after the GPS epoch.
    pub fn after_gps_epoch(seconds: u64, nanos: u32) -> (res: PacketTimestamp)
        requires
            seconds <= i64::MAX - GPS_EPOCH_UNIX_SECONDS,
            nanos < 1_000_000_000,
        ensures
            res.unix_seconds == GPS_EPOCH_UNIX_SECONDS + seconds,
            res.subsec_nanos == nanos,
            res.utc_offset_seconds == 0,
    {
        PacketTimestamp {
            unix_seconds: GPS_EPOCH_UNIX_SECONDS + seconds as i64,
            subsec_nanos: nanos,
            utc_offset_seconds: 0,
        }
    }
}

/// The tracker after the physical-layer context of a DIAG message: an RRC
/// OTA header records PCI and EARFCN; an ML1 measurement that decodes updates
/// the signal of a serving cell on its EARFCN.
pub open spec fn tracker_after_physical(t: ServingCellTrackerView, p: PhysicalContext) -> ServingCellTrackerView {
    match p {
        PhysicalContext::RrcOta { pci, earfcn } => ServingCellTrackerView {
            current: Some(with_physical(current_or_empty(t.current), pci, earfcn)),
            ..t
        },
        PhysicalContext::Ml1ServingCellMeas(body) => match spec_parse(body@) {
            Some(m) => ServingCellTrackerView {
                current: match t.current {
                    Some(c) => Some(with_signal(c, m.earfcn, m.rsrp, m.rsrq)),
                    None => None,
                },
                ..t
            },
            None => t,
        },
        PhysicalContext::Other => t,
    }
}

/// A row holding a timestamp and a skip reason.
pub open spec fn skipped_row(ts: Option<PacketTimestamp>, reason: Seq<char>) -> AnalysisRowView {
    AnalysisRowView { packet_timestamp: ts, skipped_message_reason: Some(reason), ..empty_row() }
}

/// The harness `h` becomes `after` on a QMDL message, which yields `row`.
/// The packet counter advances once per message, readable or not. An
/// unreadable message, or one whose gsmtap conversion or decoding failed,
/// yields a row with the error as its skip reason; a message without gsmtap
/// form yields an empty row; otherwise the row holds the packet's timestamp
/// and the analyzers' entries. The physical-layer context is recorded even
/// when the conversion fails.
pub open spec fn qmdl_step<A: Analyzer>(
    h: HarnessView<A>,
    msg: Result<QmdlMessage, String>,
    after: HarnessView<A>,
    row: AnalysisRowView,
) -> bool {
    let h1 = HarnessView { packet_num: (h.packet_num + 1) as usize, ..h };
    match msg {
        Err(e) => after == h1 && row == skipped_row(None, e@),
        Ok(m) => {
            let h2 = HarnessView {
                serving_cell: tracker_after_physical(h.serving_cell, m.physical),
                ..h1
            };
            match m.gsmtap {
                GsmtapOutcome::Failed(e) => after == h2 && row == skipped_row(None, e@),
                GsmtapOutcome::NoMessage => after == h2 && row == empty_row(),
                GsmtapOutcome::Message { timestamp, element } => match element {
                    Err(e) => after == h2 && row == skipped_row(Some(timestamp), e@),
                    Ok(ie) => {
                        &&& row.packet_timestamp == Some(timestamp)
                        &&& row.skipped_message_reason is None
                        &&& row.position is None
                        &&& ie_step(h2, ie, after, row.events)
                    },
                },
            }
        },
    }
}

/// A QMDL message whose information element, if it has one, is well formed.
pub open spec fn qmdl_well_formed(msg: Result<QmdlMessage, String>) -> bool {
    msg matches Ok(m) ==> (m.gsmtap matches GsmtapOutcome::Message { element: Ok(ie), .. } ==> well_formed(ie))
}

/// The harness `h` becomes `after` on a pcap packet, which yields `row`: the
/// row holds the packet's timestamp, and either the analyzers' entries or
/// why the packet was skipped.
pub open spec fn pcap_step<A: Analyzer>(h: HarnessView<A>, packet: PcapPacket, after: HarnessView<A>, row: AnalysisRowView) -> bool {
    let h1 = HarnessView { packet_num: (h.packet_num + 1) as usize, ..h };
    let ts = Some(packet.timestamp);
    match packet.gsmtap {
        PcapGsmtap::HeaderError(e) => after == h1 && row == skipped_row(ts, "failed to read GsmtapHeader: "@ + e@),
        PcapGsmtap::ElementError(e) => after == h1 && row == skipped_row(
            ts,
            "in packet "@ + decimal(h1.packet_num as nat)
                + ", failed to convert gsmtap message to IE: "@ + e@,
        ),
        PcapGsmtap::Element(ie) => {
            &&& row.packet_timestamp == ts
            &&& row.skipped_message_reason is None
            &&& row.position is None
            &&& ie_step(h1, ie, after, row.events)
        },
    }
}

/// What runs at one position of a configured harness: one of the analyzers
/// this library provides, in its initial state, or one supplied from outside.
pub enum ConfiguredSlot {
    Provided(AnalyzerState),
    ImsiRequested,
    ConnectionRedirect2GDowngrade,
    LteSib6And7Downgrade,
    NullCipher,
    NasNullCipher,
    IncompleteSib,
    TestAnalyzer,
    DiagnosticAnalyzer,
}

/// The analyzers a configuration can enable that this library does not
/// provide; whoever builds a configured harness supplies them.
pub struct ExternalAnalyzers<E> {
    pub imsi_requested: E,
    pub connection_redirect_2g_downgrade: E,
    pub lte_sib6_and_7_downgrade: E,
    pub null_cipher: E,
    pub nas_null_cipher: E,
    pub incomplete_sib: E,
    pub test_analyzer: E,
    pub diagnostic_analyzer: E,
}

/// The analyzers a configuration enables, one per flag that is set, in the
/// order they run.
pub open spec fn configured_slots(c: AnalyzerConfig) -> Seq<ConfiguredSlot> {
    let s1 = with_slot(Seq::empty(), c.imsi_requested, ConfiguredSlot::ImsiRequested);
    let s2 = with_slot(
        s1,
        c.connection_redirect_2g_downgrade,
        ConfiguredSlot::ConnectionRedirect2GDowngrade,
    );
    let s3 = with_slot(s2, c.lte_sib6_and_7_downgrade, ConfiguredSlot::LteSib6And7Downgrade);
    let s4 = with_slot(s3, c.null_cipher, ConfiguredSlot::NullCipher);
    let s5 = with_slot(s4, c.nas_null_cipher, ConfiguredSlot::NasNullCipher);
    let s6 = with_slot(s5, c.incomplete_sib, ConfiguredSlot::IncompleteSib);
    let s7 = with_slot(s6, c.test_analyzer, ConfiguredSlot::TestAnalyzer);
    let s8 = with_slot(
        s7,
        c.auth_anomaly,
        ConfiguredSlot::Provided(
            AnalyzerState::AuthAnomaly(AuthView { saw_connection_start: false, saw_auth_request: false }),
        ),
    );
    let s9 = with_slot(s8, c.type0_sms, ConfiguredSlot::Provided(AnalyzerState::Type0Sms));
    let s10 = with_slot(
        s9,
        c.attach_reject_storm,
        ConfiguredSlot::Provided(
            AnalyzerState::AttachRejectStorm(StormView { history: Seq::empty(), alerted: false }),
        ),
    );
    let s11 = with_slot(s10, c.imsi_paging, ConfiguredSlot::Provided(AnalyzerState::ImsiPaging));
    with_slot(s11, c.diagnostic_analyzer, ConfiguredSlot::DiagnosticAnalyzer)
}

/// The supplied analyzer for a slot that is not one of the provided ones.
pub open spec fn slot_external<E>(slot: ConfiguredSlot, x: ExternalAnalyzers<E>) -> Option<E> {
    match slot {
        ConfiguredSlot::Provided(_) => None,
        ConfiguredSlot::ImsiRequested => Some(x.imsi_requested),
        ConfiguredSlot::ConnectionRedirect2GDowngrade => Some(x.connection_redirect_2g_downgrade),
        ConfiguredSlot::LteSib6And7Downgrade => Some(x.lte_sib6_and_7_downgrade),
        ConfiguredSlot::NullCipher => Some(x.null_cipher),
        ConfiguredSlot::NasNullCipher => Some(x.nas_null_cipher),
        ConfiguredSlot::IncompleteSib => Some(x.incomplete_sib),
        ConfiguredSlot::TestAnalyzer => Some(x.test_analyzer),
        ConfiguredSlot::DiagnosticAnalyzer => Some(x.diagnostic_analyzer),
    }
}

/// Analyzer `a` is what runs at `slot`, with the analyzers `x` supplied: the
/// provided analyzer in the slot's state, or the supplied one itself.
pub open spec fn slot_holds<E>(a: ConfiguredAnalyzer<E>, slot: ConfiguredSlot, x: ExternalAnalyzers<E>) -> bool {
    match slot {
        ConfiguredSlot::Provided(s) => a matches ConfiguredAnalyzer::Provided(b) && b@ == s,
        _ => a == ConfiguredAnalyzer::External(slot_external(slot, x)->0),
    }
}

/// The name of what runs at `slot`.
pub open spec fn slot_name<E: Analyzer>(slot: ConfiguredSlot, x: ExternalAnalyzers<E>) -> Seq<char> {
    match slot {
        ConfiguredSlot::Provided(s) => analyzer_name(s),
        _ => slot_external(slot, x)->0.spec_name(),
    }
}

/// The description of what runs at `slot`.
pub open spec fn slot_description<E: Analyzer>(slot: ConfiguredSlot, x: ExternalAnalyzers<E>) -> Seq<char> {
    match slot {
        ConfiguredSlot::Provided(s) => analyzer_description(s),
        _ => slot_external(slot, x)->0.spec_description(),
    }
}

/// The version of what runs at `slot`.
pub open spec fn slot_version<E: Analyzer>(slot: ConfiguredSlot, x: ExternalAnalyzers<E>) -> u32 {
    match slot {
        ConfiguredSlot::Provided(s) => analyzer_version(s),
        _ => slot_external(slot, x)->0.spec_version(),
    }
}

/// An analyzer of a configured harness: one this library provides, or one
/// supplied from outside it.
pub enum ConfiguredAnalyzer<E> {
    Provided(BuiltinAnalyzer),
    External(E),
}

impl<E: Analyzer> Analyzer for ConfiguredAnalyzer<E> {
    open spec fn spec_name(&self) -> Seq<char> {
        match self {
            ConfiguredAnalyzer::Provided(a) => analyzer_name(a@),
            ConfiguredAnalyzer::External(a) => a.spec_name(),
        }
    }

    open spec fn spec_description(&self) -> Seq<char> {
        match self {
            ConfiguredAnalyzer::Provided(a) => analyzer_description(a@),
            ConfiguredAnalyzer::External(a) => a.spec_description(),
        }
    }

    open spec fn spec_version(&self) -> u32 {
        match self {
            ConfiguredAnalyzer::Provided(a) => analyzer_version(a@),
            ConfiguredAnalyzer::External(a) => a.spec_version(),
        }
    }

    open spec fn spec_events(&self, inputs: Seq<(InformationElement, usize)>) -> Seq<
        Option<EventView>,
    > {
        match self {
            ConfiguredAnalyzer::Provided(a) => builtin_events(a@, inputs),
            ConfiguredAnalyzer::External(a) => a.spec_events(inputs),
        }
    }

    fn get_name(&self) -> (res: String) {
        match self {
            ConfiguredAnalyzer::Provided(a) => a.get_name(),
            ConfiguredAnalyzer::External(a) => a.get_name(),
        }
    }

    fn get_description(&self) -> (res: String) {
        match self {
            ConfiguredAnalyzer::Provided(a) => a.get_description(),
            ConfiguredAnalyzer::External(a) => a.get_description(),
        }
    }

    fn analyze_information_element(&mut self, ie: &InformationElement, packet_num: usize) -> (res:
        Option<Event>) {
        match self {
            ConfiguredAnalyzer::Provided(a) => {
                proof {
                    lemma_builtin_events_step(a@, *ie, packet_num);
                }
                a.analyze_information_element(ie, packet_num)
            },
            ConfiguredAnalyzer::External(a) => a.analyze_information_element(ie, packet_num),
        }
    }

    fn get_version(&self) -> (res: u32) {
        match self {
            ConfiguredAnalyzer::Provided(a) => a.get_version(),
            ConfiguredAnalyzer::External(a) => a.get_version(),
        }
    }
}

/// The slots after `slot`, added when `enabled`.
#[verifier::opaque]
pub open spec fn with_slot(slots: Seq<ConfiguredSlot>, enabled: bool, slot: ConfiguredSlot) -> Seq<
    ConfiguredSlot,
> {
    if enabled {
        slots.push(slot)
    } else {
        slots
    }
}

/// The fixed position of each analyzer among those a configuration enables.
pub open spec fn slot_rank(slot: ConfiguredSlot) -> int {
    match slot {
        ConfiguredSlot::ImsiRequested => 0,
        ConfiguredSlot::ConnectionRedirect2GDowngrade => 1,
        ConfiguredSlot::LteSib6And7Downgrade => 2,
        ConfiguredSlot::NullCipher => 3,
        ConfiguredSlot::NasNullCipher => 4,
        ConfiguredSlot::IncompleteSib => 5,
        ConfiguredSlot::TestAnalyzer => 6,
        ConfiguredSlot::Provided(AnalyzerState::AuthAnomaly(_)) => 7,
        ConfiguredSlot::Provided(AnalyzerState::Type0Sms) => 8,
        ConfiguredSlot::Provided(AnalyzerState::AttachRejectStorm(_)) => 9,
        ConfiguredSlot::Provided(AnalyzerState::ImsiPaging) => 10,
        ConfiguredSlot::DiagnosticAnalyzer => 11,
    }
}

/// Slots in strictly increasing fixed position, all before position `bound`.
pub open spec fn ranked_below(slots: Seq<ConfiguredSlot>, bound: int) -> bool {
    &&& forall|i: int, j: int|
        0 <= i < j < slots.len() ==> slot_rank(#[trigger] slots[i]) < slot_rank(#[trigger] slots[j])
    &&& forall|i: int| 0 <= i < slots.len() ==> slot_rank(#[trigger] slots[i]) < bound
}

/// Adding a slot when enabled: what the slots hold afterwards, their number,
/// and their order when the new slot comes after all the others.
proof fn lemma_with_slot(slots: Seq<ConfiguredSlot>, enabled: bool, slot: ConfiguredSlot)
    ensures
        forall|y: ConfiguredSlot|
            #[trigger] with_slot(slots, enabled, slot).contains(y) <==> (slots.contains(y) || (
            enabled && y == slot)),
        with_slot(slots, enabled, slot).len() == slots.len() + (if enabled {
            1int
        } else {
            0int
        }),
        ranked_below(slots, slot_rank(slot)) ==> ranked_below(
            with_slot(slots, enabled, slot),
            slot_rank(slot) + 1,
        ),
{
    reveal(with_slot);
    let after = with_slot(slots, enabled, slot);
    assert forall|y: ConfiguredSlot| #[trigger] after.contains(y) <==> (slots.contains(y) || (
    enabled && y == slot)) by {
        if enabled {
            if after.contains(y) {
                let k = choose|k: int| 0 <= k < after.len() && after[k] == y;
                if k < slots.len() {
                    assert(slots[k] == y);
                }
            }
            if slots.contains(y) {
                let k = choose|k: int| 0 <= k < slots.len() && slots[k] == y;
                assert(after[k] == y);
            }
            if y == slot {
                assert(after[slots.len() as int] == y);
            }
        }
    }
}

/// A configuration enables each analyzer exactly when its own flag is set:
/// IMSI requested, 2G redirect, SIB 6/7 downgrade, null cipher, NAS null
/// cipher, incomplete SIB, the test analyzer, authentication anomaly (in
/// its initial state), Type-0 SMS, attach reject storm (in its initial
/// state), IMSI paging and diagnostic; one analyzer per flag that is set.
pub proof fn lemma_configured_slots_follow_flags(c: AnalyzerConfig)
    ensures
        configured_slots(c).contains(ConfiguredSlot::ImsiRequested) == c.imsi_requested,
        configured_slots(c).contains(ConfiguredSlot::ConnectionRedirect2GDowngrade)
            == c.connection_redirect_2g_downgrade,
        configured_slots(c).contains(ConfiguredSlot::LteSib6And7Downgrade)
            == c.lte_sib6_and_7_downgrade,
        configured_slots(c).contains(ConfiguredSlot::NullCipher) == c.null_cipher,
        configured_slots(c).contains(ConfiguredSlot::NasNullCipher) == c.nas_null_cipher,
        configured_slots(c).contains(ConfiguredSlot::IncompleteSib) == c.incomplete_sib,
        configured_slots(c).contains(ConfiguredSlot::TestAnalyzer) == c.test_analyzer,
        configured_slots(c).contains(
            ConfiguredSlot::Provided(
                AnalyzerState::AuthAnomaly(
                    AuthView { saw_connection_start: false, saw_auth_request: false },
                ),
            ),
        ) == c.auth_anomaly,
        configured_slots(c).contains(ConfiguredSlot::Provided(AnalyzerState::Type0Sms))
            == c.type0_sms,
        configured_slots(c).contains(
            ConfiguredSlot::Provided(
                AnalyzerState::AttachRejectStorm(StormView { history: Seq::empty(), alerted: false }),
            ),
        ) == c.attach_reject_storm,
        configured_slots(c).contains(ConfiguredSlot::Provided(AnalyzerState::ImsiPaging))
            == c.imsi_paging,
        configured_slots(c).contains(ConfiguredSlot::DiagnosticAnalyzer) == c.diagnostic_analyzer,
        configured_slots(c).len() == (if c.imsi_requested { 1int } else { 0int }) + (
        if c.connection_redirect_2g_downgrade { 1int } else { 0int }) + (
        if c.lte_sib6_and_7_downgrade { 1int } else { 0int }) + (if c.null_cipher {
            1int
        } else {
            0int
        }) + (if c.nas_null_cipher { 1int } else { 0int }) + (if c.incomplete_sib {
            1int
        } else {
            0int
        }) + (if c.test_analyzer { 1int } else { 0int }) + (if c.auth_anomaly {
            1int
        } else {
            0int
        }) + (if c.type0_sms { 1int } else { 0int }) + (if c.attach_reject_storm {
            1int
        } else {
            0int
        }) + (if c.imsi_paging { 1int } else { 0int }) + (if c.diagnostic_analyzer {
            1int
        } else {
            0int
        }),
{
    let auth = ConfiguredSlot::Provided(
        AnalyzerState::AuthAnomaly(AuthView { saw_connection_start: false, saw_auth_request: false }),
    );
    let storm = ConfiguredSlot::Provided(
        AnalyzerState::AttachRejectStorm(StormView { history: Seq::empty(), alerted: false }),
    );
    let s0 = Seq::<ConfiguredSlot>::empty();
    let s1 = with_slot(s0, c.imsi_requested, ConfiguredSlot::ImsiRequested);
    let s2 = with_slot(
        s1,
        c.connection_redirect_2g_downgrade,
        ConfiguredSlot::ConnectionRedirect2GDowngrade,
    );
    let s3 = with_slot(s2, c.lte_sib6_and_7_downgrade, ConfiguredSlot::LteSib6And7Downgrade);
    let s4 = with_slot(s3, c.null_cipher, ConfiguredSlot::NullCipher);
    let s5 = with_slot(s4, c.nas_null_cipher, ConfiguredSlot::NasNullCipher);
    let s6 = with_slot(s5, c.incomplete_sib, ConfiguredSlot::IncompleteSib);
    let s7 = with_slot(s6, c.test_analyzer, ConfiguredSlot::TestAnalyzer);
    let s8 = with_slot(s7, c.auth_anomaly, auth);
    let s9 = with_slot(s8, c.type0_sms, ConfiguredSlot::Provided(AnalyzerState::Type0Sms));
    let s10 = with_slot(s9, c.attach_reject_storm, storm);
    let s11 = with_slot(s10, c.imsi_paging, ConfiguredSlot::Provided(AnalyzerState::ImsiPaging));
    let s12 = with_slot(s11, c.diagnostic_analyzer, ConfiguredSlot::DiagnosticAnalyzer);
    assert(s12 == configured_slots(c));
    lemma_with_slot(s0, c.imsi_requested, ConfiguredSlot::ImsiRequested);
    lemma_with_slot(
        s1,
        c.connection_redirect_2g_downgrade,
        ConfiguredSlot::ConnectionRedirect2GDowngrade,
    );
    lemma_with_slot(s2, c.lte_sib6_and_7_downgrade, ConfiguredSlot::LteSib6And7Downgrade);
    lemma_with_slot(s3, c.null_cipher, ConfiguredSlot::NullCipher);
    lemma_with_slot(s4, c.nas_null_cipher, ConfiguredSlot::NasNullCipher);
    lemma_with_slot(s5, c.incomplete_sib, ConfiguredSlot::IncompleteSib);
    lemma_with_slot(s6, c.test_analyzer, ConfiguredSlot::TestAnalyzer);
    lemma_with_slot(s7, c.auth_anomaly, auth);
    lemma_with_slot(s8, c.type0_sms, ConfiguredSlot::Provided(AnalyzerState::Type0Sms));
    lemma_with_slot(s9, c.attach_reject_storm, storm);
    lemma_with_slot(s10, c.imsi_paging, ConfiguredSlot::Provided(AnalyzerState::ImsiPaging));
    lemma_with_slot(s11, c.diagnostic_analyzer, ConfiguredSlot::DiagnosticAnalyzer);
}

/// A configuration's analyzers run in a fixed order: IMSI requested, 2G
/// redirect, SIB 6/7 downgrade, null cipher, NAS null cipher, incomplete SIB,
/// the test analyzer, authentication anomaly, Type-0 SMS, attach reject
/// storm, IMSI paging, diagnostic.
pub proof fn lemma_configured_slots_in_order(c: AnalyzerConfig)
    ensures
        forall|i: int, j: int|
            0 <= i < j < configured_slots(c).len() ==> slot_rank(#[trigger] configured_slots(c)[i])
                < slot_rank(#[trigger] configured_slots(c)[j]),
{
    let auth = ConfiguredSlot::Provided(
        AnalyzerState::AuthAnomaly(AuthView { saw_connection_start: false, saw_auth_request: false }),
    );
    let storm = ConfiguredSlot::Provided(
        AnalyzerState::AttachRejectStorm(StormView { history: Seq::empty(), alerted: false }),
    );
    let s0 = Seq::<ConfiguredSlot>::empty();
    let s1 = with_slot(s0, c.imsi_requested, ConfiguredSlot::ImsiRequested);
    let s2 = with_slot(
        s1,
        c.connection_redirect_2g_downgrade,
        ConfiguredSlot::ConnectionRedirect2GDowngrade,
    );
    let s3 = with_slot(s2, c.lte_sib6_and_7_downgrade, ConfiguredSlot::LteSib6And7Downgrade);
    let s4 = with_slot(s3, c.null_cipher, ConfiguredSlot::NullCipher);
    let s5 = with_slot(s4, c.nas_null_cipher, ConfiguredSlot::NasNullCipher);
    let s6 = with_slot(s5, c.incomplete_sib, ConfiguredSlot::IncompleteSib);
    let s7 = with_slot(s6, c.test_analyzer, ConfiguredSlot::TestAnalyzer);
    let s8 = with_slot(s7, c.auth_anomaly, auth);
    let s9 = with_slot(s8, c.type0_sms, ConfiguredSlot::Provided(AnalyzerState::Type0Sms));
    let s10 = with_slot(s9, c.attach_reject_storm, storm);
    let s11 = with_slot(s10, c.imsi_paging, ConfiguredSlot::Provided(AnalyzerState::ImsiPaging));
    let s12 = with_slot(s11, c.diagnostic_analyzer, ConfiguredSlot::DiagnosticAnalyzer);
    assert(s12 == configured_slots(c));
    assert(ranked_below(s0, 0));
    lemma_with_slot(s0, c.imsi_requested, ConfiguredSlot::ImsiRequested);
    lemma_with_slot(
        s1,
        c.connection_redirect_2g_downgrade,
        ConfiguredSlot::ConnectionRedirect2GDowngrade,
    );
    lemma_with_slot(s2, c.lte_sib6_and_7_downgrade, ConfiguredSlot::LteSib6And7Downgrade);
    lemma_with_slot(s3, c.null_cipher, ConfiguredSlot::NullCipher);
    lemma_with_slot(s4, c.nas_null_cipher, ConfiguredSlot::NasNullCipher);
    lemma_with_slot(s5, c.incomplete_sib, ConfiguredSlot::IncompleteSib);
    lemma_with_slot(s6, c.test_analyzer, ConfiguredSlot::TestAnalyzer);
    lemma_with_slot(s7, c.auth_anomaly, auth);
    lemma_with_slot(s8, c.type0_sms, ConfiguredSlot::Provided(AnalyzerState::Type0Sms));
    lemma_with_slot(s9, c.attach_reject_storm, storm);
    lemma_with_slot(s10, c.imsi_paging, ConfiguredSlot::Provided(AnalyzerState::ImsiPaging));
    lemma_with_slot(s11, c.diagnostic_analyzer, ConfiguredSlot::DiagnosticAnalyzer);
}

/// Adding the analyzer of one more slot keeps the others.
proof fn lemma_push_slot<E>(
    analyzers: Seq<ConfiguredAnalyzer<E>>,
    slots: Seq<ConfiguredSlot>,
    a: ConfiguredAnalyzer<E>,
    slot: ConfiguredSlot,
    x: ExternalAnalyzers<E>,
)
    requires
        analyzers.len() == slots.len(),
        forall|i: int| 0 <= i < slots.len() ==> #[trigger] slot_holds(analyzers[i], slots[i], x),
        slot_holds(a, slot, x),
    ensures
        analyzers.push(a).len() == slots.push(slot).len(),
        forall|i: int|
            0 <= i < slots.push(slot).len() ==> #[trigger] slot_holds(
                analyzers.push(a)[i],
                slots.push(slot)[i],
                x,
            ),
{
    assert forall|i: int| 0 <= i < slots.push(slot).len() implies #[trigger] slot_holds(
        analyzers.push(a)[i],
        slots.push(slot)[i],
        x,
    ) by {
        if i < slots.len() {
            assert(slot_holds(analyzers[i], slots[i], x));
        }
    }
}

/// The display names of the operators among the PLMNs.
pub open spec fn carrier_names(observed: Set<PlmnView>) -> Set<Seq<char>> {
    Set::new(|n: Seq<char>| exists|p: PlmnView| observed.contains(p) && n == plmn_display_name(p))
}

/// `m` is the metadata of analyzer `i` of the harness `h`.
pub open spec fn metadata_of<A: Analyzer>(h: HarnessView<A>, i: int, m: AnalyzerMetadata) -> bool {
    &&& m.name@ == h.analyzers[i].spec_name()
    &&& m.description@ == h.analyzers[i].spec_description()
    &&& m.version == h.analyzers[i].spec_version()
}

impl Default for Harness {
    /// The same as [`Harness::new`].
    fn default() -> (res: Self)
        ensures
            res@.analyzers.len() == 0,
            res@.packet_num == 0,
            res@.serving_cell.current is None,
            res@.serving_cell.observed == Set::<PlmnView>::empty(),
    {
        Self::new()
    }
}

impl Harness {
    /// A harness with no analyzers, at packet 0, having seen no cell; any
    /// analyzer can be added to it.
    pub fn new() -> (res: Self)
        ensures
            res@.analyzers.len() == 0,
            res@.packet_num == 0,
            res@.serving_cell.current is None,
            res@.serving_cell.observed == Set::<PlmnView>::empty(),
    {
        Harness::<Box<dyn Analyzer>>::empty()
    }
}

impl<E: Analyzer> Harness<ConfiguredAnalyzer<E>> {
    /// A harness running the analyzers the configuration enables, one per
    /// flag that is set, in the order of [`configured_slots`]: the analyzers
    /// this library provides in their initial state, and for the others the
    /// analyzers supplied in `external`.
    pub fn new_with_config(analyzer_config: &AnalyzerConfig, external: ExternalAnalyzers<E>) -> (res:
        Self)
        ensures
            res@.analyzers.len() == configured_slots(*analyzer_config).len(),
            forall|i: int|
                0 <= i < res@.analyzers.len() ==> #[trigger] slot_holds(
                    res@.analyzers[i],
                    configured_slots(*analyzer_config)[i],
                    external,
                ),
            res@.packet_num == 0,
            res@.serving_cell.current is None,
            res@.serving_cell.observed == Set::<PlmnView>::empty(),
    {
        let ghost x = external;
        let c = analyzer_config;
        let mut harness = Harness::<ConfiguredAnalyzer<E>>::empty();
        let ghost s0 = Seq::<ConfiguredSlot>::empty();
        harness.add_slot(
            c.imsi_requested,
            ConfiguredAnalyzer::External(external.imsi_requested),
            Ghost(s0),
            Ghost(ConfiguredSlot::ImsiRequested),
            Ghost(x),
        );
        let ghost s1 = with_slot(s0, c.imsi_requested, ConfiguredSlot::ImsiRequested);
        harness.add_slot(
            c.connection_redirect_2g_downgrade,
            ConfiguredAnalyzer::External(external.connection_redirect_2g_downgrade),
            Ghost(s1),
            Ghost(ConfiguredSlot::ConnectionRedirect2GDowngrade),
            Ghost(x),
        );
        let ghost s2 = with_slot(s1, c.connection_redirect_2g_downgrade, ConfiguredSlot::ConnectionRedirect2GDowngrade);
        harness.add_slot(
            c.lte_sib6_and_7_downgrade,
            ConfiguredAnalyzer::External(external.lte_sib6_and_7_downgrade),
            Ghost(s2),
            Ghost(ConfiguredSlot::LteSib6And7Downgrade),
            Ghost(x),
        );
        let ghost s3 = with_slot(s2, c.lte_sib6_and_7_downgrade, ConfiguredSlot::LteSib6And7Downgrade);
        harness.add_slot(
            c.null_cipher,
            ConfiguredAnalyzer::External(external.null_cipher),
            Ghost(s3),
            Ghost(ConfiguredSlot::NullCipher),
            Ghost(x),
        );
        let ghost s4 = with_slot(s3, c.null_cipher, ConfiguredSlot::NullCipher);
        harness.add_slot(
            c.nas_null_cipher,
            ConfiguredAnalyzer::External(external.nas_null_cipher),
            Ghost(s4),
            Ghost(ConfiguredSlot::NasNullCipher),
            Ghost(x),
        );
        let ghost s5 = with_slot(s4, c.nas_null_cipher, ConfiguredSlot::NasNullCipher);
        harness.add_slot(
            c.incomplete_sib,
            ConfiguredAnalyzer::External(external.incomplete_sib),
            Ghost(s5),
            Ghost(ConfiguredSlot::IncompleteSib),
            Ghost(x),
        );
        let ghost s6 = with_slot(s5, c.incomplete_sib, ConfiguredSlot::IncompleteSib);
        harness.add_slot(
            c.test_analyzer,
            ConfiguredAnalyzer::External(external.test_analyzer),
            Ghost(s6),
            Ghost(ConfiguredSlot::TestAnalyzer),
            Ghost(x),
        );
        let ghost s7 = with_slot(s6, c.test_analyzer, ConfiguredSlot::TestAnalyzer);
        harness.add_slot(
            c.auth_anomaly,
            ConfiguredAnalyzer::Provided(BuiltinAnalyzer::AuthAnomaly(AuthAnomalyAnalyzer::new())),
            Ghost(s7),
            Ghost(ConfiguredSlot::Provided(AnalyzerState::AuthAnomaly(AuthView { saw_connection_start: false, saw_auth_request: false }))),
            Ghost(x),
        );
        let ghost s8 = with_slot(s7, c.auth_anomaly, ConfiguredSlot::Provided(AnalyzerState::AuthAnomaly(AuthView { saw_connection_start: false, saw_auth_request: false })));
        harness.add_slot(
            c.type0_sms,
            ConfiguredAnalyzer::Provided(BuiltinAnalyzer::Type0Sms(Type0SmsAnalyzer {})),
            Ghost(s8),
            Ghost(ConfiguredSlot::Provided(AnalyzerState::Type0Sms)),
            Ghost(x),
        );
        let ghost s9 = with_slot(s8, c.type0_sms, ConfiguredSlot::Provided(AnalyzerState::Type0Sms));
        harness.add_slot(
            c.attach_reject_storm,
            ConfiguredAnalyzer::Provided(BuiltinAnalyzer::AttachRejectStorm(AttachRejectStormAnalyzer::new())),
            Ghost(s9),
            Ghost(ConfiguredSlot::Provided(AnalyzerState::AttachRejectStorm(StormView { history: Seq::empty(), alerted: false }))),
            Ghost(x),
        );
        let ghost s10 = with_slot(s9, c.attach_reject_storm, ConfiguredSlot::Provided(AnalyzerState::AttachRejectStorm(StormView { history: Seq::empty(), alerted: false })));
        harness.add_slot(
            c.imsi_paging,
            ConfiguredAnalyzer::Provided(BuiltinAnalyzer::ImsiPaging(ImsiPagingAnalyzer {})),
            Ghost(s10),
            Ghost(ConfiguredSlot::Provided(AnalyzerState::ImsiPaging)),
            Ghost(x),
        );
        let ghost s11 = with_slot(s10, c.imsi_paging, ConfiguredSlot::Provided(AnalyzerState::ImsiPaging));
        harness.add_slot(
            c.diagnostic_analyzer,
            ConfiguredAnalyzer::External(external.diagnostic_analyzer),
            Ghost(s11),
            Ghost(ConfiguredSlot::DiagnosticAnalyzer),
            Ghost(x),
        );
        let ghost s12 = with_slot(s11, c.diagnostic_analyzer, ConfiguredSlot::DiagnosticAnalyzer);
        assert(s12 == configured_slots(*analyzer_config));
        harness
    }

    /// Adds `a`, the analyzer of `slot`, when `enabled`.
    fn add_slot(
        &mut self,
        enabled: bool,
        a: ConfiguredAnalyzer<E>,
        Ghost(slots): Ghost<Seq<ConfiguredSlot>>,
        Ghost(slot): Ghost<ConfiguredSlot>,
        Ghost(x): Ghost<ExternalAnalyzers<E>>,
    )
        requires
            old(self)@.analyzers.len() == slots.len(),
            forall|i: int|
                0 <= i < slots.len() ==> #[trigger] slot_holds(old(self)@.analyzers[i], slots[i], x),
            enabled ==> slot_holds(a, slot, x),
        ensures
            final(self)@.analyzers.len() == with_slot(slots, enabled, slot).len(),
            forall|i: int|
                0 <= i < final(self)@.analyzers.len() ==> #[trigger] slot_holds(
                    final(self)@.analyzers[i],
                    with_slot(slots, enabled, slot)[i],
                    x,
                ),
            final(self)@.packet_num == old(self)@.packet_num,
            final(self)@.serving_cell == old(self)@.serving_cell,
    {
        proof {
            reveal(with_slot);
        }
        if enabled {
            proof {
                lemma_push_slot(self@.analyzers, slots, a, slot, x);
            }
            self.add_analyzer(a);
        }
    }
}

impl<A: Analyzer> Harness<A> {
    /// A harness with no analyzers, at packet 0, having seen no cell.
    fn empty() -> (res: Self)
        ensures
            res@.analyzers.len() == 0,
            res@.packet_num == 0,
            res@.serving_cell.current is None,
            res@.serving_cell.observed == Set::<PlmnView>::empty(),
    {
        Harness { analyzers: Vec::new(), packet_num: 0, serving_cell: ServingCellTracker::new() }
    }

    /// Adds an analyzer, run after the ones already present.
    pub fn add_analyzer(&mut self, analyzer: A)
        ensures
            final(self)@.analyzers == old(self)@.analyzers.push(analyzer),
            final(self)@.packet_num == old(self)@.packet_num,
            final(self)@.serving_cell == old(self)@.serving_cell,
    {
        self.analyzers.push(analyzer);
    }

    /// The most recently observed serving cell, if any.
    pub fn current_serving_cell(&self) -> (res: Option<ServingCellInfo>)
        ensures
            option_cell_view(res) == self@.serving_cell.current,
    {
        self.serving_cell.current()
    }

    /// The operators seen during this run: the distinct display names of the
    /// observed PLMNs, in increasing order, joined with ", "; `None` if no
    /// PLMN has been observed.
    pub fn observed_carrier(&self) -> (res: Option<String>)
        ensures
            res is None <==> self@.serving_cell.observed.len() == 0,
            res matches Some(s) ==> exists|names: Seq<Seq<char>>|
                #![trigger join(names, ", "@)]
                strictly_sorted(names) && names.to_set() == carrier_names(self@.serving_cell.observed)
                    && s@ == join(names, ", "@),
    {
        let plmns = self.serving_cell.observed_plmns();
        let ghost pv = crate::analysis::cell_info::plmn_views(plmns@);
        let mut names: Vec<String> = Vec::new();
        let mut i: usize = 0;
        assert(string_views(names@).to_set() =~= Set::<Seq<char>>::empty());
        while i < plmns.len()
            invariant
                pv == crate::analysis::cell_info::plmn_views(plmns@),
                i <= plmns@.len(),
                strictly_sorted(string_views(names@)),
                forall|n: Seq<char>|
                    string_views(names@).to_set().contains(n) <==> exists|j: int|
                        0 <= j < i && n == plmn_display_name(#[trigger] pv[j]),
            decreases plmns.len() - i,
        {
            let name = plmns[i].display_name();
            proof {
                assert(pv[i as int] == plmns@[i as int]@);
            }
            let ghost before = string_views(names@);
            insert_sorted_unique(&mut names, name);
            proof {
                assert forall|n: Seq<char>|
                    string_views(names@).to_set().contains(n) <==> exists|j: int|
                        0 <= j < i + 1 && n == plmn_display_name(#[trigger] pv[j]) by {
                    if string_views(names@).to_set().contains(n) && n != plmn_display_name(pv[i as int]) {
                        assert(before.to_set().contains(n));
                    }
                    if exists|j: int| 0 <= j < i + 1 && n == plmn_display_name(#[trigger] pv[j]) {
                        let j = choose|j: int| 0 <= j < i + 1 && n == plmn_display_name(#[trigger] pv[j]);
                        if j < i {
                            assert(before.to_set().contains(n));
                        }
                    }
                }
            }
            i = i + 1;
        }
        let ghost nv = string_views(names@);
        assert(nv.to_set() =~= carrier_names(self@.serving_cell.observed)) by {
            assert forall|n: Seq<char>| nv.to_set().contains(n) <==> carrier_names(self@.serving_cell.observed).contains(n) by {
                if nv.to_set().contains(n) {
                    let j = choose|j: int| 0 <= j < pv.len() && n == plmn_display_name(#[trigger] pv[j]);
                    assert(pv.to_set().contains(pv[j]));
                }
                if carrier_names(self@.serving_cell.observed).contains(n) {
                    let p = choose|p: PlmnView| self@.serving_cell.observed.contains(p) && n == plmn_display_name(p);
                    let j = choose|j: int| 0 <= j < pv.len() && pv[j] == p;
                    assert(n == plmn_display_name(pv[j]));
                }
            }
        }
        if names.len() == 0 {
            proof {
                if self@.serving_cell.observed.len() != 0 {
                    assert(pv.len() > 0) by {
                        if pv.len() == 0 {
                            assert(pv.to_set() =~= Set::<PlmnView>::empty());
                        }
                    }
                    assert(nv.to_set().contains(plmn_display_name(pv[0])));
                }
            }
            None
        } else {
            proof {
                assert(nv.to_set().contains(nv[0]));
                let j = choose|j: int| 0 <= j < pv.len() && nv[0] == plmn_display_name(#[trigger] pv[j]);
                assert(self@.serving_cell.observed.contains(pv[j]));
            }
            let joined = join_strings(&names, ", ");
            assert(strictly_sorted(nv) && nv.to_set() == carrier_names(self@.serving_cell.observed) && joined@ == join(nv, ", "@));
            Some(joined)
        }
    }

    /// Runs every analyzer over one information element, after updating the
    /// serving cell from it, and stamps the events they report. The packet
    /// counter is left to the callers that read packets, which advance it
    /// exactly once per packet.
    pub fn analyze_information_element(&mut self, ie: &InformationElement) -> (res: Vec<
        Option<Event>,
    >)
        requires
            well_formed(*ie),
        ensures
            ie_step(old(self)@, *ie, final(self)@, event_views(res@)),
    {
        self.serving_cell.observe(ie);
        let packet_num = self.packet_num;
        let mut analyzers: Vec<A> = Vec::new();
        std::mem::swap(&mut analyzers, &mut self.analyzers);
        let (analyzers, events) = run_analyzers(
            analyzers,
            ie,
            packet_num,
            self.serving_cell.current_ref(),
        );
        self.analyzers = analyzers;
        proof {
            assert forall|j: int| 0 <= j < events@.len() implies #[trigger] event_views(events@)[j]
                == option_event_view(events@[j]) by {}
        }
        events
    }

    /// Analyzes one message of a QMDL recording.
    pub fn analyze_qmdl_message(&mut self, maybe_qmdl_message: Result<QmdlMessage, String>) -> (res:
        AnalysisRow)
        requires
            old(self)@.packet_num < usize::MAX,
            qmdl_well_formed(maybe_qmdl_message),
        ensures
            qmdl_step(old(self)@, maybe_qmdl_message, final(self)@, res@),
    {
        let mut row = AnalysisRow::new();
        self.packet_num = self.packet_num + 1;
        let qmdl_message = match maybe_qmdl_message {
            Ok(msg) => msg,
            Err(err) => {
                row.skipped_message_reason = Some(err);
                return row;
            },
        };
        match &qmdl_message.physical {
            PhysicalContext::RrcOta { pci, earfcn } => {
                self.serving_cell.observe_physical(*pci, *earfcn);
            },
            PhysicalContext::Ml1ServingCellMeas(body) => {
                match ServingCellMeasurement::parse(body.as_slice()) {
                    Some(m) => self.serving_cell.observe_signal(m.earfcn, m.rsrp, m.rsrq),
                    None => {},
                }
            },
            PhysicalContext::Other => {},
        }
        match qmdl_message.gsmtap {
            GsmtapOutcome::Failed(err) => {
                row.skipped_message_reason = Some(err);
                row
            },
            GsmtapOutcome::NoMessage => row,
            GsmtapOutcome::Message { timestamp, element } => {
                row.packet_timestamp = Some(timestamp);
                match element {
                    Err(err) => {
                        row.skipped_message_reason = Some(err);
                        row
                    },
                    Ok(ie) => {
                        row.events = self.analyze_information_element(&ie);
                        row
                    },
                }
            },
        }
    }

    /// Analyzes the messages of a QMDL recording in order, one row each: the
    /// harness goes through one state per message, each step as
    /// [`analyze_qmdl_message`](Self::analyze_qmdl_message) takes it.
    pub fn analyze_qmdl_messages(&mut self, messages: Vec<Result<QmdlMessage, String>>) -> (res: Vec<
        AnalysisRow,
    >)
        requires
            old(self)@.packet_num + messages@.len() <= usize::MAX,
            forall|i: int| 0 <= i < messages@.len() ==> qmdl_well_formed(#[trigger] messages@[i]),
        ensures
            res@.len() == messages@.len(),
            final(self)@.packet_num == old(self)@.packet_num + messages@.len(),
            exists|states: Seq<HarnessView<A>>|
                {
                    &&& states.len() == messages@.len() + 1
                    &&& states[0] == old(self)@
                    &&& states[messages@.len() as int] == final(self)@
                    &&& forall|k: int|
                        #![trigger res@[k]]
                        0 <= k < messages@.len() ==> qmdl_step(
                            states[k],
                            messages@[k],
                            states[k + 1],
                            res@[k]@,
                        )
                },
    {
        let ghost h0 = self@;
        let ghost all = messages@;
        let ghost mut states: Seq<HarnessView<A>> = seq![h0];
        let mut remaining = messages;
        let mut rows: Vec<AnalysisRow> = Vec::new();
        let n = remaining.len();
        let mut i: usize = 0;
        while i < n
            invariant
                n == all.len(),
                i <= n,
                remaining@ == all.skip(i as int),
                rows@.len() == i,
                states.len() == i + 1,
                states[0] == h0,
                states[i as int] == self@,
                forall|k: int|
                    #![trigger rows@[k]]
                    0 <= k < i ==> qmdl_step(states[k], all[k], states[k + 1], rows@[k]@),
                h0.packet_num + n <= usize::MAX,
                self@.packet_num == h0.packet_num + i,
                forall|k: int| 0 <= k < all.len() ==> qmdl_well_formed(#[trigger] all[k]),
            decreases n - i,
        {
            let m = remaining.remove(0);
            proof {
                assert(m == all[i as int]);
                assert(remaining@ =~= all.skip(i + 1));
            }
            let ghost before = self@;
            let row = self.analyze_qmdl_message(m);
            let ghost r0 = rows@;
            let ghost s0 = states;
            rows.push(row);
            proof {
                states = states.push(self@);
                assert forall|k: int| 0 <= k < i + 1 implies #[trigger] qmdl_step(
                    states[k],
                    all[k],
                    states[k + 1],
                    rows@[k]@,
                ) by {
                    if k < i {
                        assert(rows@[k] == r0[k]);
                        assert(states[k] == s0[k]);
                        assert(states[k + 1] == s0[k + 1]);
                    }
                }
                assert(forall|k: int| 0 <= k < i + 1 ==> qmdl_step(states[k], all[k], states[k + 1], #[trigger] rows@[k]@));
            }
            i = i + 1;
        }
        proof {
            assert(states.len() == all.len() + 1);
        }
        rows
    }

    /// Analyzes one gsmtap packet of a pcap capture.
    pub fn analyze_pcap_packet(&mut self, packet: PcapPacket) -> (res: AnalysisRow)
        requires
            old(self)@.packet_num < usize::MAX,
            packet.gsmtap matches PcapGsmtap::Element(ie) ==> well_formed(ie),
        ensures
            pcap_step(old(self)@, packet, final(self)@, res@),
    {
        self.packet_num = self.packet_num + 1;
        let mut row = AnalysisRow::new();
        row.packet_timestamp = Some(packet.timestamp);
        match packet.gsmtap {
            PcapGsmtap::HeaderError(err) => {
                let mut msg = String::from_str("failed to read GsmtapHeader: ");
                msg.append(err.as_str());
                row.skipped_message_reason = Some(msg);
                row
            },
            PcapGsmtap::ElementError(err) => {
                let mut msg = String::from_str("in packet ");
                let n = usize_to_decimal(self.packet_num);
                msg.append(n.as_str());
                msg.append(", failed to convert gsmtap message to IE: ");
                msg.append(err.as_str());
                row.skipped_message_reason = Some(msg);
                row
            },
            PcapGsmtap::Element(ie) => {
                row.events = self.analyze_information_element(&ie);
                row
            },
        }
    }

    /// The report metadata: each analyzer's name, description and version,
    /// in order, the given runtime, and the current report version.
    pub fn get_metadata(&self, rayhunter: RuntimeMetadata) -> (res: ReportMetadata)
        ensures
            res.analyzers@.len() == self@.analyzers.len(),
            forall|i: int| 0 <= i < res.analyzers@.len() ==> metadata_of(self@, i, #[trigger] res.analyzers@[i]),
            res.rayhunter == rayhunter,
            res.report_version == REPORT_VERSION,
    {
        let mut analyzers: Vec<AnalyzerMetadata> = Vec::new();
        let mut i: usize = 0;
        while i < self.analyzers.len()
            invariant
                i <= self.analyzers@.len(),
                analyzers@.len() == i,
                forall|j: int| 0 <= j < i ==> metadata_of(self@, j, #[trigger] analyzers@[j]),
            decreases self.analyzers.len() - i,
        {
            let a = &self.analyzers[i];
            analyzers.push(AnalyzerMetadata {
                name: a.get_name(),
                description: a.get_description(),
                version: a.get_version(),
            });
            i = i + 1;
        }
        ReportMetadata { analyzers, rayhunter, report_version: REPORT_VERSION }
    }
}

} // verus!
