//! Detects a Security Mode Command issued without a prior Authentication
//! Request in the current connection.
//!
//! In legitimate LTE, the MME runs EPS-AKA (Authentication Request ->
//! Response) before the Security Mode Command, so the UE can verify the
//! network's identity. Skipping authentication means the tower never proved
//! who it is, a hallmark of IMSI catchers.

use vstd::prelude::*;

use crate::analysis::analyzer::{builtin_events, lemma_builtin_events_step, option_event_view, AnalyzerState, plain_event, Analyzer, Event, EventType, EventView};
use crate::analysis::information_element::{
    DlDcchMessage, InformationElement, LteInformationElement, NasMessage,
};

verus! {

/// The messages the analyzer reacts to.
#[derive(Clone, Copy, PartialEq, Eq, Structural, Debug)]
pub enum NasEvent {
    /// Start of a NAS connection (Attach / TAU / Service Request).
    ConnectionStart,
    /// The network sent an Authentication Request.
    AuthRequest,
    /// The network sent a Security Mode Command.
    SecurityMode,
    /// The RRC connection was released (session end).
    ConnectionEnd,
}

/// Detects a Security Mode Command without prior authentication in a
/// connection observed from its start.
pub struct AuthAnomalyAnalyzer {
    /// Whether the start of the current connection was observed. If the
    /// capture joined mid-connection, authentication may predate it, so a
    /// bare Security Mode Command must not be treated as an anomaly.
    pub saw_connection_start: bool,
    /// Whether an Authentication Request was seen in the current connection.
    pub saw_auth_request: bool,
}

/// The state of the detector.
pub struct AuthView {
    pub saw_connection_start: bool,
    pub saw_auth_request: bool,
}

impl View for AuthAnomalyAnalyzer {
    type V = AuthView;

    open spec fn view(&self) -> AuthView {
        AuthView {
            saw_connection_start: self.saw_connection_start,
            saw_auth_request: self.saw_auth_request,
        }
    }
}

/// The text of the anomaly event.
pub open spec fn auth_anomaly_message() -> Seq<char> {
    "Security Mode Command issued without prior authentication \u{2014} tower never proved its identity"@
}

/// The detector after a message, and the event it reports: a Security Mode
/// Command fires (Medium) exactly when the connection's start was observed
/// and no Authentication Request has been seen since.
pub open spec fn spec_auth_observe(s: AuthView, e: NasEvent) -> (AuthView, Option<EventView>) {
    match e {
        NasEvent::ConnectionStart => (
            AuthView { saw_connection_start: true, saw_auth_request: false },
            None,
        ),
        NasEvent::AuthRequest => (AuthView { saw_auth_request: true, ..s }, None),
        NasEvent::SecurityMode => (
            s,
            if s.saw_connection_start && !s.saw_auth_request {
                Some(plain_event(EventType::Medium, auth_anomaly_message()))
            } else {
                None
            },
        ),
        NasEvent::ConnectionEnd => (
            AuthView { saw_connection_start: false, saw_auth_request: false },
            None,
        ),
    }
}

/// The message an information element is, as far as the detector is
/// concerned.
pub open spec fn ie_nas_event(ie: InformationElement) -> Option<NasEvent> {
    match ie {
        InformationElement::LTE(LteInformationElement::Nas(m)) => match m {
            NasMessage::AttachRequest
            | NasMessage::TrackingAreaUpdateRequest
            | NasMessage::ExtServiceRequest => Some(NasEvent::ConnectionStart),
            NasMessage::AuthenticationRequest => Some(NasEvent::AuthRequest),
            NasMessage::SecurityModeCommand => Some(NasEvent::SecurityMode),
            _ => None,
        },
        InformationElement::LTE(LteInformationElement::DlDcch(DlDcchMessage::RrcConnectionRelease)) => Some(NasEvent::ConnectionEnd),
        _ => None,
    }
}

/// The messages the detector follows: Attach Request, Tracking Area Update
/// Request and Extended Service Request start a connection; an
/// Authentication Request authenticates it; a Security Mode Command is what
/// is checked; an RRC Connection Release ends it. Every other message,
/// rejects included, is ignored.
pub proof fn lemma_followed_messages(ie: InformationElement)
    ensures
        ie_nas_event(InformationElement::LTE(LteInformationElement::Nas(NasMessage::AttachRequest)))
            == Some(NasEvent::ConnectionStart),
        ie_nas_event(
            InformationElement::LTE(LteInformationElement::Nas(NasMessage::TrackingAreaUpdateRequest)),
        ) == Some(NasEvent::ConnectionStart),
        ie_nas_event(InformationElement::LTE(LteInformationElement::Nas(NasMessage::ExtServiceRequest)))
            == Some(NasEvent::ConnectionStart),
        ie_nas_event(
            InformationElement::LTE(LteInformationElement::Nas(NasMessage::AuthenticationRequest)),
        ) == Some(NasEvent::AuthRequest),
        ie_nas_event(
            InformationElement::LTE(LteInformationElement::Nas(NasMessage::SecurityModeCommand)),
        ) == Some(NasEvent::SecurityMode),
        ie_nas_event(
            InformationElement::LTE(LteInformationElement::DlDcch(DlDcchMessage::RrcConnectionRelease)),
        ) == Some(NasEvent::ConnectionEnd),
        ie_nas_event(ie) is Some ==> (ie matches InformationElement::LTE(LteInformationElement::Nas(
            m,
        )) && (m is AttachRequest || m is TrackingAreaUpdateRequest || m is ExtServiceRequest
            || m is AuthenticationRequest || m is SecurityModeCommand)) || ie
            == InformationElement::LTE(LteInformationElement::DlDcch(DlDcchMessage::RrcConnectionRelease)),
{
}

/// The detector after an information element, and the event it reports.
pub open spec fn spec_auth_step(s: AuthView, ie: InformationElement) -> (AuthView, Option<EventView>) {
    match ie_nas_event(ie) {
        Some(e) => spec_auth_observe(s, e),
        None => (s, None),
    }
}

pub open spec fn auth_anomaly_name() -> Seq<char> {
    "Missing Authentication Before Security Mode"@
}

pub open spec fn auth_anomaly_version() -> u32 {
    1
}

/// The detector after a sequence of messages.
pub open spec fn auth_run(s: AuthView, events: Seq<NasEvent>) -> AuthView
    decreases events.len(),
{
    if events.len() == 0 {
        s
    } else {
        spec_auth_observe(auth_run(s, events.drop_last()), events.last()).0
    }
}

/// Within `events`, a connection start at `i` with no authentication request
/// and no connection end after it.
pub open spec fn unauthenticated_start_at(events: Seq<NasEvent>, i: int) -> bool {
    &&& 0 <= i < events.len()
    &&& events[i] == NasEvent::ConnectionStart
    &&& forall|j: int|
        i < j < events.len() ==> #[trigger] events[j] != NasEvent::ConnectionStart && events[j]
            != NasEvent::AuthRequest && events[j] != NasEvent::ConnectionEnd
}

/// A Security Mode Command after a sequence of messages, starting from a
/// fresh detector, is reported exactly when the sequence holds a connection
/// start followed by no authentication request, connection end or newer
/// connection start.
pub proof fn lemma_security_mode_fires_iff_unauthenticated(events: Seq<NasEvent>)
    ensures
        spec_auth_observe(
            auth_run(AuthView { saw_connection_start: false, saw_auth_request: false }, events),
            NasEvent::SecurityMode,
        ).1 is Some <==> exists|i: int| unauthenticated_start_at(events, i),
    decreases events.len(),
{
    let s0 = AuthView { saw_connection_start: false, saw_auth_request: false };
    lemma_auth_run_state(events);
    let s = auth_run(s0, events);
    if s.saw_connection_start && !s.saw_auth_request {
        let i = choose|i: int| unauthenticated_start_at(events, i);
        assert(unauthenticated_start_at(events, i));
    }
}

/// The state after a sequence: a connection start is "open" (observed, and
/// not yet authenticated) exactly when some connection start is followed by
/// no authentication request, connection end or newer start.
proof fn lemma_auth_run_state(events: Seq<NasEvent>)
    ensures
        ({
            let s = auth_run(
                AuthView { saw_connection_start: false, saw_auth_request: false },
                events,
            );
            (s.saw_connection_start && !s.saw_auth_request) <==> exists|i: int|
                unauthenticated_start_at(events, i)
        }),
    decreases events.len(),
{
    let s0 = AuthView { saw_connection_start: false, saw_auth_request: false };
    if events.len() > 0 {
        let prefix = events.drop_last();
        let last = events.last();
        let n = events.len() - 1;
        lemma_auth_run_state(prefix);
        let s = auth_run(s0, events);
        if last == NasEvent::ConnectionStart {
            assert(unauthenticated_start_at(events, n));
        } else if last == NasEvent::AuthRequest || last == NasEvent::ConnectionEnd {
            assert forall|i: int| !unauthenticated_start_at(events, i) by {
                if 0 <= i < n {
                    assert(events[n] == last);
                }
            }
        } else {
            assert forall|i: int| unauthenticated_start_at(events, i) <==> unauthenticated_start_at(
                prefix,
                i,
            ) by {
                if 0 <= i < n {
                    assert(events[i] == prefix[i]);
                    if unauthenticated_start_at(events, i) {
                        assert forall|j: int| i < j < prefix.len() implies #[trigger] prefix[j]
                            != NasEvent::ConnectionStart && prefix[j] != NasEvent::AuthRequest
                            && prefix[j] != NasEvent::ConnectionEnd by {
                            assert(events[j] == prefix[j]);
                        }
                    }
                    if unauthenticated_start_at(prefix, i) {
                        assert forall|j: int| i < j < events.len() implies #[trigger] events[j]
                            != NasEvent::ConnectionStart && events[j] != NasEvent::AuthRequest
                            && events[j] != NasEvent::ConnectionEnd by {
                            if j < n {
                                assert(events[j] == prefix[j]);
                            }
                        }
                    }
                }
            }
        }
    }
}

/// After the connection is released, a Security Mode Command is not reported
/// until a new connection start is observed.
pub proof fn lemma_no_alert_after_connection_end(s: AuthView)
    ensures
        spec_auth_observe(spec_auth_observe(s, NasEvent::ConnectionEnd).0, NasEvent::SecurityMode).1
            is None,
{
}

impl AuthAnomalyAnalyzer {
    pub fn new() -> (res: Self)
        ensures
            !res@.saw_connection_start,
            !res@.saw_auth_request,
    {
        AuthAnomalyAnalyzer { saw_connection_start: false, saw_auth_request: false }
    }

    /// Advance the state machine, and return an event if a Security Mode
    /// Command arrived without prior authentication in a connection observed
    /// from its start.
    pub fn observe(&mut self, event: NasEvent) -> (res: Option<Event>)
        ensures
            final(self)@ == spec_auth_observe(old(self)@, event).0,
            option_event_view(res) == spec_auth_observe(old(self)@, event).1,
    {
        match event {
            NasEvent::ConnectionStart => {
                self.saw_connection_start = true;
                self.saw_auth_request = false;
                None
            },
            NasEvent::AuthRequest => {
                self.saw_auth_request = true;
                None
            },
            NasEvent::SecurityMode => {
                if self.saw_connection_start && !self.saw_auth_request {
                    Some(
                        Event::new(
                            EventType::Medium,
                            String::from_str(
                                "Security Mode Command issued without prior authentication \u{2014} tower never proved its identity",
                            ),
                        ),
                    )
                } else {
                    None
                }
            },
            NasEvent::ConnectionEnd => {
                self.saw_connection_start = false;
                self.saw_auth_request = false;
                None
            },
        }
    }
}

impl Default for AuthAnomalyAnalyzer {
    fn default() -> (res: Self)
        ensures
            !res@.saw_connection_start,
            !res@.saw_auth_request,
    {
        Self::new()
    }
}

pub open spec fn auth_anomaly_description() -> Seq<char> {
    "Detects when the network enables ciphering (Security Mode Command) without first \
             authenticating via EPS-AKA. This means the tower never proved its identity, which \
             is a strong indicator of an IMSI catcher. False positives may occur on inter-eNB \
             handovers where the target eNB reuses the existing security context."@
}

impl Analyzer for AuthAnomalyAnalyzer {
    open spec fn spec_name(&self) -> Seq<char> {
        auth_anomaly_name()
    }

    open spec fn spec_description(&self) -> Seq<char> {
        auth_anomaly_description()
    }

    open spec fn spec_version(&self) -> u32 {
        auth_anomaly_version()
    }

    open spec fn spec_events(&self, inputs: Seq<(InformationElement, usize)>) -> Seq<
        Option<EventView>,
    > {
        builtin_events(AnalyzerState::AuthAnomaly(self@), inputs)
    }

    fn get_name(&self) -> (res: String)
        ensures
            res@ == auth_anomaly_name(),
    {
        String::from_str("Missing Authentication Before Security Mode")
    }

    fn get_description(&self) -> (res: String)
        ensures
            res@ == auth_anomaly_description(),
    {
        String::from_str(
            "Detects when the network enables ciphering (Security Mode Command) without first \
             authenticating via EPS-AKA. This means the tower never proved its identity, which \
             is a strong indicator of an IMSI catcher. False positives may occur on inter-eNB \
             handovers where the target eNB reuses the existing security context.",
        )
    }

    fn get_version(&self) -> (res: u32)
        ensures
            res == auth_anomaly_version(),
    {
        1
    }

    fn analyze_information_element(&mut self, ie: &InformationElement, packet_num: usize) -> (res:
        Option<Event>)
        ensures
            final(self)@ == spec_auth_step(old(self)@, *ie).0,
            option_event_view(res) == spec_auth_step(old(self)@, *ie).1,
    {
        proof {
            lemma_builtin_events_step(AnalyzerState::AuthAnomaly(self@), *ie, packet_num);
        }
        let event = match ie {
            InformationElement::LTE(LteInformationElement::Nas(m)) => match m {
                NasMessage::AttachRequest
                | NasMessage::TrackingAreaUpdateRequest
                | NasMessage::ExtServiceRequest => NasEvent::ConnectionStart,
                NasMessage::AuthenticationRequest => NasEvent::AuthRequest,
                NasMessage::SecurityModeCommand => NasEvent::SecurityMode,
                _ => return None,
            },
            InformationElement::LTE(
                LteInformationElement::DlDcch(DlDcchMessage::RrcConnectionRelease),
            ) => NasEvent::ConnectionEnd,
            _ => return None,
        };
        self.observe(event)
    }
}

} // verus!
