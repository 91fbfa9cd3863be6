//! Detects an abnormal burst of Attach Reject or Tracking Area Update Reject
//! messages within a short packet window.

use std::collections::VecDeque;

use vstd::prelude::*;

use crate::analysis::analyzer::{builtin_events, lemma_builtin_events_step, option_event_view, AnalyzerState, plain_event, Analyzer, Event, EventType, EventView};
use crate::analysis::information_element::{
    EmmCause, InformationElement, LteInformationElement, NasMessage,
};
use crate::text::{decimal, usize_to_decimal};

verus! {

/// The maximum number of packets between rejects to consider them part of the
/// same storm. Rejects further apart than this age out of the window.
pub const WINDOW_SIZE: usize = 200;

/// Number of Attach/TAU Rejects within the window that triggers an alert.
pub const REJECT_THRESHOLD: usize = 3;

/// The reject cause of an Attach Reject or a TAU Reject.
#[derive(Clone, Copy, Debug)]
pub enum RejectCause {
    PLMNNotAllowed,
    EPSServicesNotAllowed,
    EPSServicesAndNonEPSServicesNotAllowed,
    EPSServicesNotAllowedInThisPLMN,
    RoamingNotAllowedInThisTrackingArea,
    NoSuitableCellsInTrackingArea,
    NetworkFailure,
    Congestion,
    Other(&'static str),
}

/// The reject cause an EMM cause value denotes (3GPP TS 24.301, 9.9.3.9).
pub open spec fn spec_reject_cause(code: u8) -> RejectCause {
    if code == 11 {
        RejectCause::PLMNNotAllowed
    } else if code == 7 {
        RejectCause::EPSServicesNotAllowed
    } else if code == 8 {
        RejectCause::EPSServicesAndNonEPSServicesNotAllowed
    } else if code == 14 {
        RejectCause::EPSServicesNotAllowedInThisPLMN
    } else if code == 13 {
        RejectCause::RoamingNotAllowedInThisTrackingArea
    } else if code == 15 {
        RejectCause::NoSuitableCellsInTrackingArea
    } else if code == 17 {
        RejectCause::NetworkFailure
    } else if code == 22 {
        RejectCause::Congestion
    } else if code == 2 {
        RejectCause::Other("IMSI unknown in HSS")
    } else if code == 3 {
        RejectCause::Other("Illegal UE")
    } else if code == 5 {
        RejectCause::Other("IMEI not accepted")
    } else if code == 6 {
        RejectCause::Other("Illegal ME")
    } else {
        RejectCause::Other("Other")
    }
}

impl RejectCause {
    /// The reject cause of an EMM cause value; Attach Reject and TAU Reject
    /// share the cause values.
    pub fn from_emm_cause(cause: EmmCause) -> (res: RejectCause)
        ensures
            res == spec_reject_cause(cause.0),
    {
        let code = cause.0;
        if code == 11 {
            RejectCause::PLMNNotAllowed
        } else if code == 7 {
            RejectCause::EPSServicesNotAllowed
        } else if code == 8 {
            RejectCause::EPSServicesAndNonEPSServicesNotAllowed
        } else if code == 14 {
            RejectCause::EPSServicesNotAllowedInThisPLMN
        } else if code == 13 {
            RejectCause::RoamingNotAllowedInThisTrackingArea
        } else if code == 15 {
            RejectCause::NoSuitableCellsInTrackingArea
        } else if code == 17 {
            RejectCause::NetworkFailure
        } else if code == 22 {
            RejectCause::Congestion
        } else if code == 2 {
            RejectCause::Other("IMSI unknown in HSS")
        } else if code == 3 {
            RejectCause::Other("Illegal UE")
        } else if code == 5 {
            RejectCause::Other("IMEI not accepted")
        } else if code == 6 {
            RejectCause::Other("Illegal ME")
        } else {
            RejectCause::Other("Other")
        }
    }
}

/// Causes that indicate "wrong SIM / wrong carrier" rather than an attack.
pub open spec fn spec_is_wrong_sim(cause: RejectCause) -> bool {
    match cause {
        RejectCause::PLMNNotAllowed
        | RejectCause::EPSServicesNotAllowed
        | RejectCause::EPSServicesAndNonEPSServicesNotAllowed
        | RejectCause::EPSServicesNotAllowedInThisPLMN
        | RejectCause::RoamingNotAllowedInThisTrackingArea => true,
        _ => false,
    }
}

/// The EMM cause values of 3GPP TS 24.301 (9.9.3.9) and the names a reject
/// with each is reported by: #11 PLMN not allowed, #7 EPS services not
/// allowed, #8 EPS and non-EPS services not allowed, #14 EPS services not
/// allowed in this PLMN, #13 roaming not allowed in this tracking area, #15
/// no suitable cells in the tracking area, #17 network failure, #22
/// congestion, #2 IMSI unknown in HSS, #3 illegal UE, #5 IMEI not accepted,
/// #6 illegal ME; any other value is reported as "Other".
pub proof fn lemma_emm_cause_codes(code: u8)
    ensures
        spec_reject_cause(11) == RejectCause::PLMNNotAllowed,
        spec_reject_cause(7) == RejectCause::EPSServicesNotAllowed,
        spec_reject_cause(8) == RejectCause::EPSServicesAndNonEPSServicesNotAllowed,
        spec_reject_cause(14) == RejectCause::EPSServicesNotAllowedInThisPLMN,
        spec_reject_cause(13) == RejectCause::RoamingNotAllowedInThisTrackingArea,
        spec_reject_cause(15) == RejectCause::NoSuitableCellsInTrackingArea,
        spec_reject_cause(17) == RejectCause::NetworkFailure,
        spec_reject_cause(22) == RejectCause::Congestion,
        spec_cause_name(spec_reject_cause(11)) == "PLMN not allowed"@,
        spec_cause_name(spec_reject_cause(7)) == "EPS services not allowed"@,
        spec_cause_name(spec_reject_cause(8)) == "EPS+non-EPS services not allowed"@,
        spec_cause_name(spec_reject_cause(14)) == "EPS not allowed in this PLMN"@,
        spec_cause_name(spec_reject_cause(13)) == "Roaming not allowed in TA"@,
        spec_cause_name(spec_reject_cause(15)) == "No suitable cells in TA"@,
        spec_cause_name(spec_reject_cause(17)) == "Network failure"@,
        spec_cause_name(spec_reject_cause(22)) == "Congestion"@,
        spec_cause_name(spec_reject_cause(2)) == "IMSI unknown in HSS"@,
        spec_cause_name(spec_reject_cause(3)) == "Illegal UE"@,
        spec_cause_name(spec_reject_cause(5)) == "IMEI not accepted"@,
        spec_cause_name(spec_reject_cause(6)) == "Illegal ME"@,
        !(code == 2 || code == 3 || code == 5 || code == 6 || code == 7 || code == 8 || code == 11
            || code == 13 || code == 14 || code == 15 || code == 17 || code == 22)
            ==> spec_cause_name(spec_reject_cause(code)) == "Other"@,
{
}

/// The "wrong SIM" causes are exactly the five a SIM or carrier mismatch
/// produces: PLMN not allowed, EPS services not allowed, EPS and non-EPS
/// services not allowed, EPS services not allowed in this PLMN, and roaming
/// not allowed in this tracking area; by EMM cause code (3GPP TS 24.301),
/// exactly #7, #8, #11, #13 and #14.
pub proof fn lemma_wrong_sim_causes(cause: RejectCause, code: u8)
    ensures
        spec_is_wrong_sim(cause) <==> (cause == RejectCause::PLMNNotAllowed || cause
            == RejectCause::EPSServicesNotAllowed || cause
            == RejectCause::EPSServicesAndNonEPSServicesNotAllowed || cause
            == RejectCause::EPSServicesNotAllowedInThisPLMN || cause
            == RejectCause::RoamingNotAllowedInThisTrackingArea),
        spec_is_wrong_sim(spec_reject_cause(code)) <==> (code == 7 || code == 8 || code == 11
            || code == 13 || code == 14),
{
}

/// Cause codes that indicate "wrong SIM / wrong carrier" rather than an attack.
pub fn is_wrong_sim_cause(cause: &RejectCause) -> (res: bool)
    ensures
        res == spec_is_wrong_sim(*cause),
{
    match cause {
        RejectCause::PLMNNotAllowed
        | RejectCause::EPSServicesNotAllowed
        | RejectCause::EPSServicesAndNonEPSServicesNotAllowed
        | RejectCause::EPSServicesNotAllowedInThisPLMN
        | RejectCause::RoamingNotAllowedInThisTrackingArea => true,
        _ => false,
    }
}

/// The name a cause is reported by.
pub open spec fn spec_cause_name(cause: RejectCause) -> Seq<char> {
    match cause {
        RejectCause::PLMNNotAllowed => "PLMN not allowed"@,
        RejectCause::EPSServicesNotAllowed => "EPS services not allowed"@,
        RejectCause::EPSServicesAndNonEPSServicesNotAllowed => "EPS+non-EPS services not allowed"@,
        RejectCause::EPSServicesNotAllowedInThisPLMN => "EPS not allowed in this PLMN"@,
        RejectCause::RoamingNotAllowedInThisTrackingArea => "Roaming not allowed in TA"@,
        RejectCause::NoSuitableCellsInTrackingArea => "No suitable cells in TA"@,
        RejectCause::NetworkFailure => "Network failure"@,
        RejectCause::Congestion => "Congestion"@,
        RejectCause::Other(name) => name@,
    }
}

/// The name a cause is reported by.
pub fn cause_name(cause: &RejectCause) -> (res: &'static str)
    ensures
        res@ == spec_cause_name(*cause),
{
    match cause {
        RejectCause::PLMNNotAllowed => "PLMN not allowed",
        RejectCause::EPSServicesNotAllowed => "EPS services not allowed",
        RejectCause::EPSServicesAndNonEPSServicesNotAllowed => "EPS+non-EPS services not allowed",
        RejectCause::EPSServicesNotAllowedInThisPLMN => "EPS not allowed in this PLMN",
        RejectCause::RoamingNotAllowedInThisTrackingArea => "Roaming not allowed in TA",
        RejectCause::NoSuitableCellsInTrackingArea => "No suitable cells in TA",
        RejectCause::NetworkFailure => "Network failure",
        RejectCause::Congestion => "Congestion",
        RejectCause::Other(name) => name,
    }
}

/// Detects an abnormal burst of Attach Reject or Tracking Area Update Reject
/// messages within a short packet window. Legitimate networks occasionally
/// reject a device (roaming, congestion), but multiple rapid rejects suggest
/// a fake cell forcing repeated attach attempts to harvest identifiers on
/// each cycle.
///
/// If all rejects in the burst use "wrong SIM" causes, the event is only
/// Informational and reports a likely SIM/carrier mismatch.
pub struct AttachRejectStormAnalyzer {
    /// The (packet number, cause) of the rejects in the window, oldest first.
    pub reject_history: VecDeque<(usize, RejectCause)>,
    /// Whether the current storm has already been reported.
    pub alerted_for_current_storm: bool,
}

/// The state of the storm detector.
pub struct StormView {
    pub history: Seq<(usize, RejectCause)>,
    pub alerted: bool,
}

impl View for AttachRejectStormAnalyzer {
    type V = StormView;

    open spec fn view(&self) -> StormView {
        StormView { history: self.reject_history@, alerted: self.alerted_for_current_storm }
    }
}

/// `a - b`, or 0 when `b` is larger.
pub open spec fn saturating_diff(a: usize, b: usize) -> nat {
    if a >= b {
        (a - b) as nat
    } else {
        0
    }
}

/// A reject at packet `p` has aged out of the window at packet `current`.
pub open spec fn is_expired(current: usize, p: usize) -> bool {
    saturating_diff(current, p) > WINDOW_SIZE
}

/// The number of leading rejects that have aged out at packet `current`.
pub open spec fn expired_prefix(h: Seq<(usize, RejectCause)>, current: usize) -> nat
    decreases h.len(),
{
    if h.len() > 0 && is_expired(current, h[0].0) {
        1 + expired_prefix(h.drop_first(), current)
    } else {
        0
    }
}

/// The detector after dropping the rejects that aged out at `current`: the
/// alert is re-armed when that leaves fewer rejects than the threshold.
pub open spec fn spec_expire(s: StormView, current: usize) -> StormView {
    let k = expired_prefix(s.history, current);
    StormView {
        history: s.history.skip(k as int),
        alerted: s.alerted && !(k > 0 && s.history.len() - k < REJECT_THRESHOLD),
    }
}

/// Every reject in the window has a "wrong SIM" cause.
pub open spec fn all_wrong_sim(h: Seq<(usize, RejectCause)>) -> bool {
    forall|i: int| 0 <= i < h.len() ==> spec_is_wrong_sim(#[trigger] h[i].1)
}

/// The report of a burst that all has "wrong SIM" causes.
pub open spec fn mismatch_message(n: nat, span: nat, name: Seq<char>) -> Seq<char> {
    "SIM/carrier mismatch: "@ + decimal(n) + " rejects within "@ + decimal(span)
        + " packets, all cause '"@ + name
        + "' \u{2014} check that your SIM matches the device's carrier lock"@
}

/// The report of a burst with other causes.
pub open spec fn storm_message(n: nat, span: nat, name: Seq<char>) -> Seq<char> {
    "Attach/TAU Reject storm: "@ + decimal(n) + " rejects within "@ + decimal(span)
        + " packets (cause: '"@ + name + "') \u{2014} possible forced-reattach attack"@
}

/// The event for a storm whose window is `h` and whose latest reject arrived
/// at packet `p`: Informational when every cause is a "wrong SIM" cause,
/// Medium otherwise; the message gives the number of rejects, the packets
/// they span and the latest cause.
pub open spec fn storm_event(h: Seq<(usize, RejectCause)>, p: usize) -> EventView {
    let span = saturating_diff(p, h[0].0);
    let name = spec_cause_name(h.last().1);
    if all_wrong_sim(h) {
        plain_event(EventType::Informational, mismatch_message(h.len(), span, name))
    } else {
        plain_event(EventType::Medium, storm_message(h.len(), span, name))
    }
}

/// The detector after a reject with `cause` at packet `p`, and the event it
/// reports: rejects that aged out are dropped, the new one is recorded, and
/// a storm is reported once the window holds the threshold number of rejects,
/// unless it was already reported.
pub open spec fn spec_observe_reject(s: StormView, p: usize, cause: RejectCause) -> (
    StormView,
    Option<EventView>,
) {
    let e = spec_expire(s, p);
    let h = e.history.push((p, cause));
    if h.len() < REJECT_THRESHOLD || e.alerted {
        (StormView { history: h, alerted: e.alerted }, None)
    } else {
        (StormView { history: h, alerted: true }, Some(storm_event(h, p)))
    }
}

/// The reject cause a NAS message reports, if it is an Attach Reject or a
/// TAU Reject.
pub open spec fn ie_reject_cause(ie: InformationElement) -> Option<RejectCause> {
    match ie {
        InformationElement::LTE(LteInformationElement::Nas(NasMessage::AttachReject(c))) => Some(
            spec_reject_cause(c.0),
        ),
        InformationElement::LTE(
            LteInformationElement::Nas(NasMessage::TrackingAreaUpdateReject(c)),
        ) => Some(spec_reject_cause(c.0)),
        _ => None,
    }
}

/// The detector after an information element and the event it reports: only
/// Attach Rejects and TAU Rejects are counted.
pub open spec fn spec_storm_step(s: StormView, ie: InformationElement, packet_num: usize) -> (
    StormView,
    Option<EventView>,
) {
    match ie_reject_cause(ie) {
        Some(cause) => spec_observe_reject(s, packet_num, cause),
        None => (s, None),
    }
}

/// The leading `expired_prefix` rejects are exactly the leading run of aged-out
/// ones.
pub proof fn lemma_expired_prefix(h: Seq<(usize, RejectCause)>, current: usize)
    ensures
        expired_prefix(h, current) <= h.len(),
        forall|i: int| 0 <= i < expired_prefix(h, current) ==> is_expired(current, #[trigger] h[i].0),
        expired_prefix(h, current) < h.len() ==> !is_expired(current, h[expired_prefix(h, current) as int].0),
    decreases h.len(),
{
    if h.len() > 0 && is_expired(current, h[0].0) {
        lemma_expired_prefix(h.drop_first(), current);
        assert forall|i: int| 0 <= i < expired_prefix(h, current) implies is_expired(current, #[trigger] h[i].0) by {
            if i > 0 {
                assert(h[i] == h.drop_first()[i - 1]);
            }
        }
    }
}

/// A storm is reported only when the window holds at least the threshold
/// number of rejects, the newest being the one just observed; a lone reject,
/// or a second one, never alerts.
pub proof fn lemma_alert_needs_threshold(s: StormView, p: usize, cause: RejectCause)
    ensures
        spec_observe_reject(s, p, cause).1 is Some ==> {
            let h = spec_observe_reject(s, p, cause).0.history;
            &&& h.len() >= REJECT_THRESHOLD
            &&& h.last() == (p, cause)
        },
        s.history.len() + 1 < REJECT_THRESHOLD ==> spec_observe_reject(s, p, cause).1 is None,
{
    lemma_expired_prefix(s.history, p);
}

/// A storm is reported once: while it is unbroken (aging-out leaves at least
/// the threshold number of rejects), further rejects report nothing and the
/// storm stays reported.
pub proof fn lemma_storm_reported_once(s: StormView, p: usize, cause: RejectCause)
    requires
        s.alerted,
        s.history.len() - expired_prefix(s.history, p) >= REJECT_THRESHOLD,
    ensures
        spec_observe_reject(s, p, cause).1 is None,
        spec_observe_reject(s, p, cause).0.alerted,
{
}

/// A reported storm is Informational exactly when every reject in the window
/// has a "wrong SIM" cause, and Medium otherwise; it is never Low or High.
pub proof fn lemma_storm_severity(s: StormView, p: usize, cause: RejectCause)
    ensures
        spec_observe_reject(s, p, cause).1 matches Some(e) ==> {
            let h = spec_observe_reject(s, p, cause).0.history;
            &&& (e.event_type == EventType::Informational) == all_wrong_sim(h)
            &&& (e.event_type == EventType::Medium) == !all_wrong_sim(h)
        },
{
}

/// Rejects spread further apart than the window never accumulate: when every
/// recorded reject has aged out, the window holds only the new reject and
/// nothing is reported.
pub proof fn lemma_spread_rejects_never_accumulate(s: StormView, p: usize, cause: RejectCause)
    requires
        forall|i: int| 0 <= i < s.history.len() ==> is_expired(p, #[trigger] s.history[i].0),
    ensures
        spec_observe_reject(s, p, cause).0.history == seq![(p, cause)],
        spec_observe_reject(s, p, cause).1 is None,
{
    lemma_expired_prefix(s.history, p);
    let k = expired_prefix(s.history, p);
    if k < s.history.len() {
        assert(is_expired(p, s.history[k as int].0));
    }
    assert(s.history.skip(k as int) =~= Seq::<(usize, RejectCause)>::empty());
    assert(Seq::<(usize, RejectCause)>::empty().push((p, cause)) =~= seq![(p, cause)]);
}

/// Packet numbers that never decrease along the window.
pub open spec fn packets_ordered(h: Seq<(usize, RejectCause)>) -> bool {
    forall|i: int, j: int| 0 <= i <= j < h.len() ==> #[trigger] h[i].0 <= #[trigger] h[j].0
}

/// With packets numbered in order, the window holds exactly the recent
/// rejects: after a reject at packet `p` (no earlier than any recorded one),
/// the window stays in packet order and every reject in it is within
/// `WINDOW_SIZE` packets of `p`.
pub proof fn lemma_window_holds_recent_rejects(s: StormView, p: usize, cause: RejectCause)
    requires
        packets_ordered(s.history),
        forall|i: int| 0 <= i < s.history.len() ==> #[trigger] s.history[i].0 <= p,
    ensures
        packets_ordered(spec_observe_reject(s, p, cause).0.history),
        forall|i: int|
            0 <= i < spec_observe_reject(s, p, cause).0.history.len() ==> p
                - (#[trigger] spec_observe_reject(s, p, cause).0.history[i]).0 <= WINDOW_SIZE,
{
    lemma_expired_prefix(s.history, p);
    let k = expired_prefix(s.history, p) as int;
    let h = spec_observe_reject(s, p, cause).0.history;
    let kept = s.history.skip(k);
    assert(h == kept.push((p, cause)));
    assert forall|i: int, j: int| 0 <= i <= j < h.len() implies #[trigger] h[i].0 <= #[trigger] h[j].0 by {
        if j < kept.len() {
            assert(h[i] == s.history[k + i]);
            assert(h[j] == s.history[k + j]);
        } else if i < kept.len() {
            assert(h[i] == s.history[k + i]);
        }
    }
    assert forall|i: int| 0 <= i < h.len() implies p - (#[trigger] h[i]).0 <= WINDOW_SIZE by {
        if i < kept.len() {
            assert(h[i] == s.history[k + i]);
            assert(s.history[k] == s.history[k + 0]);
            assert(!is_expired(p, s.history[k].0));
            assert(s.history[k].0 <= s.history[k + i].0);
        }
    }
}

pub open spec fn storm_name() -> Seq<char> {
    "Attach Reject Storm"@
}

pub open spec fn storm_version() -> u32 {
    3
}

impl AttachRejectStormAnalyzer {
    pub fn new() -> (res: Self)
        ensures
            res@.history == Seq::<(usize, RejectCause)>::empty(),
            !res@.alerted,
    {
        AttachRejectStormAnalyzer { reject_history: VecDeque::new(), alerted_for_current_storm: false }
    }

    /// Remove rejects that are older than `WINDOW_SIZE` packets from
    /// `current_packet`; the alert is re-armed when fewer than the threshold
    /// remain.
    pub fn expire_old(&mut self, current_packet: usize)
        ensures
            final(self)@ == spec_expire(old(self)@, current_packet),
    {
        let ghost h0 = self.reject_history@;
        let ghost a0 = self.alerted_for_current_storm;
        let ghost mut j: nat = 0;
        while self.reject_history.len() > 0
            invariant
                self.reject_history@ == h0.skip(j as int),
                j <= h0.len(),
                expired_prefix(h0, current_packet) == j + expired_prefix(
                    self.reject_history@,
                    current_packet,
                ),
                self.alerted_for_current_storm == (a0 && !(j > 0 && h0.len() - j
                    < REJECT_THRESHOLD)),
            ensures
                self.reject_history@ == h0.skip(j as int),
                j <= h0.len(),
                expired_prefix(h0, current_packet) == j,
                self.alerted_for_current_storm == (a0 && !(j > 0 && h0.len() - j
                    < REJECT_THRESHOLD)),
            decreases self.reject_history@.len(),
        {
            let oldest = self.reject_history[0].0;
            let age = current_packet.saturating_sub(oldest);
            if age > WINDOW_SIZE {
                let ghost before = self.reject_history@;
                self.reject_history.pop_front();
                proof {
                    assert(before.drop_first() =~= self.reject_history@);
                    assert(h0.skip((j + 1) as int) =~= before.drop_first());
                    j = j + 1;
                }
                if self.reject_history.len() < REJECT_THRESHOLD {
                    self.alerted_for_current_storm = false;
                }
            } else {
                break;
            }
        }
    }

    /// Record a reject and return an event if it completes a storm.
    ///
    /// A single reject never alerts on its own; only a burst of the threshold
    /// number within the window does, once per storm. A burst whose causes are
    /// all "wrong SIM" is Informational (a SIM mismatch, not an attack); a
    /// burst with other causes is Medium (possible forced reattach).
    pub fn observe_reject(&mut self, packet_num: usize, cause: RejectCause) -> (res: Option<Event>)
        ensures
            final(self)@ == spec_observe_reject(old(self)@, packet_num, cause).0,
            option_event_view(res) == spec_observe_reject(old(self)@, packet_num, cause).1,
    {
        self.expire_old(packet_num);
        self.reject_history.push_back((packet_num, cause));
        if self.reject_history.len() < REJECT_THRESHOLD || self.alerted_for_current_storm {
            return None;
        }
        self.alerted_for_current_storm = true;
        let n = self.reject_history.len();
        let ghost h = self.reject_history@;
        let mut all_wrong_sim = true;
        let mut i: usize = 0;
        while i < n
            invariant
                n == h.len(),
                h == self.reject_history@,
                i <= n,
                all_wrong_sim == forall|k: int| 0 <= k < i ==> spec_is_wrong_sim(#[trigger] h[k].1),
            decreases n - i,
        {
            let w = is_wrong_sim_cause(&self.reject_history[i].1);
            all_wrong_sim = all_wrong_sim && w;
            i = i + 1;
        }
        let latest_cause = self.reject_history[n - 1].1;
        let span = packet_num.saturating_sub(self.reject_history[0].0);
        let name = cause_name(&latest_cause);
        let count = usize_to_decimal(n);
        let span_text = usize_to_decimal(span);
        if all_wrong_sim {
            let mut message = String::from_str("SIM/carrier mismatch: ");
            message.append(count.as_str());
            message.append(" rejects within ");
            message.append(span_text.as_str());
            message.append(" packets, all cause '");
            message.append(name);
            message.append("' \u{2014} check that your SIM matches the device's carrier lock");
            Some(Event::new(EventType::Informational, message))
        } else {
            let mut message = String::from_str("Attach/TAU Reject storm: ");
            message.append(count.as_str());
            message.append(" rejects within ");
            message.append(span_text.as_str());
            message.append(" packets (cause: '");
            message.append(name);
            message.append("') \u{2014} possible forced-reattach attack");
            Some(Event::new(EventType::Medium, message))
        }
    }
}

impl Default for AttachRejectStormAnalyzer {
    fn default() -> (res: Self)
        ensures
            res@.history == Seq::<(usize, RejectCause)>::empty(),
            !res@.alerted,
    {
        Self::new()
    }
}

pub open spec fn storm_description() -> Seq<char> {
    "Detects bursts of Attach Reject or TAU Reject messages within a short window. \
             Multiple rapid rejects suggest a fake cell forcing repeated attach attempts to \
             harvest IMSI/IMEI on each cycle. If all rejects are 'PLMN not allowed' type \
             causes, reports as a likely SIM/carrier mismatch instead."@
}

impl Analyzer for AttachRejectStormAnalyzer {
    open spec fn spec_name(&self) -> Seq<char> {
        storm_name()
    }

    open spec fn spec_description(&self) -> Seq<char> {
        storm_description()
    }

    open spec fn spec_version(&self) -> u32 {
        storm_version()
    }

    open spec fn spec_events(&self, inputs: Seq<(InformationElement, usize)>) -> Seq<
        Option<EventView>,
    > {
        builtin_events(AnalyzerState::AttachRejectStorm(self@), inputs)
    }

    fn get_name(&self) -> (res: String)
        ensures
            res@ == storm_name(),
    {
        String::from_str("Attach Reject Storm")
    }

    fn get_description(&self) -> (res: String)
        ensures
            res@ == storm_description(),
    {
        String::from_str(
            "Detects bursts of Attach Reject or TAU Reject messages within a short window. \
             Multiple rapid rejects suggest a fake cell forcing repeated attach attempts to \
             harvest IMSI/IMEI on each cycle. If all rejects are 'PLMN not allowed' type \
             causes, reports as a likely SIM/carrier mismatch instead.",
        )
    }

    fn get_version(&self) -> (res: u32)
        ensures
            res == storm_version(),
    {
        3
    }

    fn analyze_information_element(&mut self, ie: &InformationElement, packet_num: usize) -> (res:
        Option<Event>)
        ensures
            final(self)@ == spec_storm_step(old(self)@, *ie, packet_num).0,
            option_event_view(res) == spec_storm_step(old(self)@, *ie, packet_num).1,
    {
        proof {
            lemma_builtin_events_step(AnalyzerState::AttachRejectStorm(self@), *ie, packet_num);
        }
        let cause = match ie {
            InformationElement::LTE(LteInformationElement::Nas(NasMessage::AttachReject(c))) => {
                RejectCause::from_emm_cause(*c)
            },
            InformationElement::LTE(
                LteInformationElement::Nas(NasMessage::TrackingAreaUpdateReject(c)),
            ) => RejectCause::from_emm_cause(*c),
            _ => return None,
        };
        self.observe_reject(packet_num, cause)
    }
}

} // verus!
