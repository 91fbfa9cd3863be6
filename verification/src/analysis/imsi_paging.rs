//! Detects paging by raw IMSI rather than by the temporary S-TMSI.
//!
//! Legitimate networks assign a TMSI during attach and page by it. Paging by
//! raw IMSI means either a cell-site simulator doing "presence testing"
//! (checking whether a target IMSI is in the area), or a network that lost
//! track of the device's TMSI, which is rare. Even one instance is flagged.

use vstd::prelude::*;

use crate::analysis::analyzer::{builtin_events, lemma_builtin_events_step, option_event_view, AnalyzerState, plain_event, Analyzer, Event, EventType, EventView};
use crate::analysis::cell_info::{digits_chars, digits_to_string};
use crate::analysis::information_element::{
    digits_fit, first_imsi, ie_paged_imsi, ie_paging_records, well_formed, InformationElement, LteInformationElement,
    PagingUeIdentity, PcchMessage,
};

verus! {

/// Detects paging by raw IMSI.
pub struct ImsiPagingAnalyzer {}

/// The text of the event for paging by the IMSI with `digits`.
pub open spec fn imsi_paging_message(digits: Seq<u8>) -> Seq<char> {
    "Device paged by raw IMSI ("@ + digits_chars(digits)
        + ") \u{2014} possible presence testing by cell-site simulator"@
}

/// The event an information element yields: High, naming the first IMSI
/// paged, when some paging record pages by IMSI.
pub open spec fn spec_imsi_paging_event(ie: InformationElement) -> Option<EventView> {
    match ie_paged_imsi(ie) {
        Some(digits) => Some(plain_event(EventType::High, imsi_paging_message(digits))),
        None => None,
    }
}

/// Paging reports an IMSI exactly when some paging record pages by IMSI,
/// and then it reports the digits of the first such record: every record
/// before it pages by S-TMSI.
pub proof fn lemma_first_paged_imsi(records: Seq<PagingUeIdentity>)
    ensures
        first_imsi(records) is Some <==> exists|i: int|
            0 <= i < records.len() && #[trigger] records[i] is Imsi,
        first_imsi(records) matches Some(d) ==> exists|i: int|
            0 <= i < records.len() && (#[trigger] records[i] matches PagingUeIdentity::Imsi(v)
                && v@ == d) && forall|j: int| 0 <= j < i ==> records[j] is STmsi,
    decreases records.len(),
{
    if records.len() > 0 {
        let rest = records.drop_first();
        lemma_first_paged_imsi(rest);
        match records[0] {
            PagingUeIdentity::Imsi(v) => {
                assert(records[0] is Imsi);
            },
            PagingUeIdentity::STmsi => {
                if exists|i: int| 0 <= i < records.len() && #[trigger] records[i] is Imsi {
                    let i = choose|i: int| 0 <= i < records.len() && #[trigger] records[i] is Imsi;
                    assert(rest[i - 1] is Imsi);
                }
                if exists|i: int| 0 <= i < rest.len() && #[trigger] rest[i] is Imsi {
                    let i = choose|i: int| 0 <= i < rest.len() && #[trigger] rest[i] is Imsi;
                    assert(records[i + 1] is Imsi);
                }
                if let Some(d) = first_imsi(rest) {
                    let i = choose|i: int|
                        0 <= i < rest.len() && (#[trigger] rest[i] matches PagingUeIdentity::Imsi(v)
                            && v@ == d) && forall|j: int| 0 <= j < i ==> rest[j] is STmsi;
                    assert(records[i + 1] == rest[i]);
                    assert forall|j: int| 0 <= j < i + 1 implies records[j] is STmsi by {
                        if j > 0 {
                            assert(records[j] == rest[j - 1]);
                        }
                    }
                }
            },
        }
    }
}

pub open spec fn imsi_paging_name() -> Seq<char> {
    "IMSI Paging (Presence Test)"@
}

pub open spec fn imsi_paging_version() -> u32 {
    1
}

pub open spec fn imsi_paging_description() -> Seq<char> {
    "Detects when the network pages a device using its raw IMSI instead of the \
             normal S-TMSI. This is a strong indicator of a cell-site simulator performing \
             presence testing \u{2014} checking if a specific subscriber is in the area. \
             Legitimate networks almost never page by IMSI."@
}

impl Analyzer for ImsiPagingAnalyzer {
    open spec fn spec_name(&self) -> Seq<char> {
        imsi_paging_name()
    }

    open spec fn spec_description(&self) -> Seq<char> {
        imsi_paging_description()
    }

    open spec fn spec_version(&self) -> u32 {
        imsi_paging_version()
    }

    open spec fn spec_events(&self, inputs: Seq<(InformationElement, usize)>) -> Seq<
        Option<EventView>,
    > {
        builtin_events(AnalyzerState::ImsiPaging, inputs)
    }

    fn get_name(&self) -> (res: String)
        ensures
            res@ == imsi_paging_name(),
    {
        String::from_str("IMSI Paging (Presence Test)")
    }

    fn get_description(&self) -> (res: String)
        ensures
            res@ == imsi_paging_description(),
    {
        String::from_str(
            "Detects when the network pages a device using its raw IMSI instead of the \
             normal S-TMSI. This is a strong indicator of a cell-site simulator performing \
             presence testing \u{2014} checking if a specific subscriber is in the area. \
             Legitimate networks almost never page by IMSI.",
        )
    }

    fn get_version(&self) -> (res: u32)
        ensures
            res == imsi_paging_version(),
    {
        1
    }

    fn analyze_information_element(&mut self, ie: &InformationElement, packet_num: usize) -> (res:
        Option<Event>)
        ensures
            option_event_view(res) == spec_imsi_paging_event(*ie),
    {
        proof {
            lemma_builtin_events_step(AnalyzerState::ImsiPaging, *ie, packet_num);
        }
        let records = match ie {
            InformationElement::LTE(LteInformationElement::Pcch(PcchMessage::Paging(paging))) => {
                match &paging.paging_record_list {
                    Some(list) => list,
                    None => return None,
                }
            },
            _ => return None,
        };
        let ghost all = records@;
        assert(ie_paging_records(*ie) == Some(all));
        let mut i: usize = 0;
        assert(all.skip(0) =~= all);
        while i < records.len()
            invariant
                all == records@,
                ie_paging_records(*ie) == Some(all),
                i <= records@.len(),
                first_imsi(all) == first_imsi(all.skip(i as int)),
                first_imsi(all) matches Some(d) ==> digits_fit(d),
            decreases records.len() - i,
        {
            proof {
                assert(all.skip(i as int).drop_first() =~= all.skip(i + 1));
                assert(all.skip(i as int)[0] == all[i as int]);
            }
            match &records[i] {
                PagingUeIdentity::Imsi(digits) => {
                    let mut message = String::from_str("Device paged by raw IMSI (");
                    let imsi = digits_to_string(digits);
                    message.append(imsi.as_str());
                    message.append(") \u{2014} possible presence testing by cell-site simulator");
                    proof {
                        lemma_builtin_events_step(AnalyzerState::ImsiPaging, *ie, packet_num);
                    }
                    return Some(Event::new(EventType::High, message));
                },
                PagingUeIdentity::STmsi => {},
            }
            i = i + 1;
        }
        None
    }
}

} // verus!
