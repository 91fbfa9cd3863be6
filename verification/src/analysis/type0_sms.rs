//! Detects Type-0 SMS ("silent SMS") delivered over NAS.
//!
//! These messages are processed by the baseband but never shown to the user:
//! no notification, no storage. They are used by IMSI catchers and law
//! enforcement to silently ping a device and confirm its presence on a cell.
//!
//! Detection: the SMS-DELIVER TPDU carried inside Downlink NAS Transport has
//! TP-Protocol-Identifier 0x40 ("Short Message Type 0", 3GPP TS 23.040
//! 9.2.3.9).

use vstd::prelude::*;

use crate::analysis::analyzer::{builtin_events, lemma_builtin_events_step, option_event_view, AnalyzerState, plain_event, Analyzer, Event, EventType, EventView};
use crate::analysis::information_element::{
    well_formed, InformationElement, LteInformationElement, NasMessage,
};

verus! {

/// Detects Type-0 SMS delivered over NAS.
pub struct Type0SmsAnalyzer {}

/// The TP-PID of an SMS-DELIVER TPDU (3GPP TS 23.040, 9.2.2.1): byte 0 holds
/// the TP-MTI (low 2 bits, 0 for SMS-DELIVER), bytes 1.. the originating
/// address (digit count, type of address, then the digits two per byte),
/// and the next byte is the TP-PID. `None` when the TPDU is not an
/// SMS-DELIVER or is too short.
pub open spec fn spec_tp_pid(tpdu: Seq<u8>) -> Option<u8> {
    if tpdu.len() < 3 || tpdu[0] % 4 != 0 {
        None
    } else {
        let pid_offset = 3 + (tpdu[1] + 1) / 2;
        if tpdu.len() <= pid_offset {
            None
        } else {
            Some(tpdu[pid_offset])
        }
    }
}

/// Whether a NAS container carries a Type-0 SMS (3GPP TS 24.011, 23.040):
/// an SMS CP-DATA (protocol discriminator 9, message type 1; the RP layer
/// starts at byte 3) whose RP-DATA network-to-MS (type 1) holds, after its
/// message reference, originating and destination addresses (each a length
/// byte and that many bytes), a non-empty RP-User-Data: a length byte and a
/// TPDU of that length, which is an SMS-DELIVER with TP-PID 0x40.
pub open spec fn spec_is_type0_sms(c: Seq<u8>) -> bool {
    &&& c.len() >= 4
    &&& c[0] % 16 == 9
    &&& c[1] == 1
    &&& {
        let rp = c.skip(3);
        &&& rp[0] % 8 == 1
        &&& rp.len() >= 3
        &&& {
            let da_offset = 3 + rp[2];
            &&& rp.len() > da_offset
            &&& {
                let ud_offset = da_offset + 1 + rp[da_offset];
                &&& rp.len() > ud_offset
                &&& {
                    let ud_len = rp[ud_offset];
                    let tpdu_start = ud_offset + 1;
                    &&& ud_len != 0
                    &&& rp.len() >= tpdu_start + ud_len
                    &&& spec_tp_pid(rp.subrange(tpdu_start, tpdu_start + ud_len)) == Some(0x40u8)
                }
            }
        }
    }
}

/// A Downlink NAS Transport container carrying an SMS: a CP-DATA header
/// (protocol discriminator 9, message type 1, then the CP length), and an
/// RP-DATA from the network (type 1) with its message reference, an
/// originator address of any length (a length byte, then that many bytes),
/// an empty destination address, and RP-User-Data holding `tpdu`.
pub open spec fn sms_container(cp_len: u8, reference: u8, originator: Seq<u8>, tpdu: Seq<u8>) -> Seq<
    u8,
> {
    seq![0x09u8, 0x01u8, cp_len, 0x01u8, reference, originator.len() as u8] + originator + seq![
        0u8,
        tpdu.len() as u8,
    ] + tpdu
}

/// An SMS-DELIVER TPDU (TP-MTI 0 in `first`) whose originating address has
/// `digits` digits of type `toa`, packed two per byte in `address`, followed
/// by the TP-PID `pid` and the rest of the message.
pub open spec fn sms_deliver(first: u8, digits: u8, toa: u8, address: Seq<u8>, pid: u8, rest: Seq<
    u8,
>) -> Seq<u8> {
    seq![first, digits, toa] + address + seq![pid] + rest
}

/// An SMS delivered over NAS is a Type-0 SMS exactly when its TP-PID is
/// 0x40, whatever the length of the RP originator address (the SMSC
/// address) and of the TP originating address before it.
pub proof fn lemma_type0_for_any_addresses(
    cp_len: u8,
    reference: u8,
    originator: Seq<u8>,
    first: u8,
    digits: u8,
    toa: u8,
    address: Seq<u8>,
    pid: u8,
    rest: Seq<u8>,
)
    requires
        originator.len() < 256,
        first % 4 == 0,
        address.len() == (digits + 1) / 2,
        sms_deliver(first, digits, toa, address, pid, rest).len() < 256,
    ensures
        spec_is_type0_sms(
            sms_container(
                cp_len,
                reference,
                originator,
                sms_deliver(first, digits, toa, address, pid, rest),
            ),
        ) == (pid == 0x40),
{
    let tpdu = sms_deliver(first, digits, toa, address, pid, rest);
    let c = sms_container(cp_len, reference, originator, tpdu);
    let n: int = originator.len() as int;
    let l: int = tpdu.len() as int;
    let rp = c.skip(3);
    assert(c[0] == 0x09u8 && c[1] == 0x01u8);
    assert(rp =~= seq![0x01u8, reference, n as u8] + originator + seq![0u8, l as u8] + tpdu);
    assert(rp[0] == 0x01u8);
    assert(rp[2] == n);
    assert(rp[3 + n] == 0u8);
    assert(rp[4 + n] == l);
    assert(rp.len() == 5 + n + l);
    assert(rp.subrange(5 + n, 5 + n + l) =~= tpdu);
    assert(tpdu[0] == first && tpdu[1] == digits);
    assert(tpdu[3 + (digits + 1) / 2] == pid);
}

/// Extract TP-PID from an SMS-DELIVER TPDU.
pub fn extract_tp_pid_from_sms_deliver(tpdu: &[u8]) -> (res: Option<u8>)
    ensures
        res == spec_tp_pid(tpdu@),
{
    if tpdu.len() == 0 {
        return None;
    }
    let first = tpdu[0];
    let tp_mti = first & 0x03;
    assert(first & 0x03 == first % 4) by (bit_vector);
    if tp_mti != 0x00 {
        return None;
    }
    if tpdu.len() < 3 {
        return None;
    }
    let addr_len_digits = tpdu[1] as usize;
    // The address digits take ceil(digits / 2) bytes.
    let addr_bytes = (addr_len_digits + 1) / 2;
    let tp_pid_offset = 1 + 1 + 1 + addr_bytes;
    if tpdu.len() <= tp_pid_offset {
        return None;
    }
    Some(tpdu[tp_pid_offset])
}

/// Whether the NAS container bytes of a Downlink NAS Transport carry a Type-0
/// (silent) SMS.
pub fn is_type0_sms(container: &[u8]) -> (res: bool)
    ensures
        res == spec_is_type0_sms(container@),
{
    if container.len() < 2 {
        return false;
    }
    let b0 = container[0];
    let pd = b0 & 0x0F;
    assert(b0 & 0x0F == b0 % 16) by (bit_vector);
    if pd != 0x09 {
        return false;
    }
    let cp_msg_type = container[1];
    if cp_msg_type != 0x01 {
        return false;
    }
    if container.len() < 4 {
        return false;
    }
    let rp = vstd::slice::slice_subrange(container, 3, container.len());
    assert(rp@ =~= container@.skip(3));
    if rp.len() == 0 {
        return false;
    }
    let r0 = rp[0];
    let rp_msg_type = r0 & 0x07;
    assert(r0 & 0x07 == r0 % 8) by (bit_vector);
    if rp_msg_type != 0x01 {
        return false;
    }
    if rp.len() < 3 {
        return false;
    }
    let rp_oa_len = rp[2] as usize;
    let rp_da_offset = 3 + rp_oa_len;
    if rp.len() <= rp_da_offset {
        return false;
    }
    let rp_da_len = rp[rp_da_offset] as usize;
    let rp_ud_offset = rp_da_offset + 1 + rp_da_len;
    if rp.len() <= rp_ud_offset {
        return false;
    }
    let rp_ud_len = rp[rp_ud_offset] as usize;
    let tpdu_start = rp_ud_offset + 1;
    if rp.len() < tpdu_start + rp_ud_len || rp_ud_len == 0 {
        return false;
    }
    let tpdu = vstd::slice::slice_subrange(rp, tpdu_start, tpdu_start + rp_ud_len);
    match extract_tp_pid_from_sms_deliver(tpdu) {
        Some(pid) => pid == 0x40,
        None => false,
    }
}

/// The container bytes a NAS message carries, if it is a Downlink NAS
/// Transport.
pub open spec fn ie_nas_container(ie: InformationElement) -> Option<Seq<u8>> {
    match ie {
        InformationElement::LTE(LteInformationElement::Nas(NasMessage::DlNasTransport(buf))) => Some(
            buf@,
        ),
        _ => None,
    }
}

/// The text of the silent-SMS event.
pub open spec fn type0_message() -> Seq<char> {
    "Silent SMS (Type-0) received \u{2014} may be used for location tracking"@
}

/// The event an information element yields: High when it is a Downlink NAS
/// Transport carrying a Type-0 SMS.
pub open spec fn spec_type0_event(ie: InformationElement) -> Option<EventView> {
    match ie_nas_container(ie) {
        Some(c) => if spec_is_type0_sms(c) {
            Some(plain_event(EventType::High, type0_message()))
        } else {
            None
        },
        None => None,
    }
}

pub open spec fn type0_name() -> Seq<char> {
    "Silent SMS (Type-0) Detected"@
}

pub open spec fn type0_version() -> u32 {
    1
}

pub open spec fn type0_description() -> Seq<char> {
    "Detects Type-0 (\"silent\") SMS messages delivered over NAS. These are invisible \
             to the user and are commonly used to track a device's location by confirming \
             its presence on a cell. Legitimate networks rarely send them to consumer devices."@
}

impl Analyzer for Type0SmsAnalyzer {
    open spec fn spec_name(&self) -> Seq<char> {
        type0_name()
    }

    open spec fn spec_description(&self) -> Seq<char> {
        type0_description()
    }

    open spec fn spec_version(&self) -> u32 {
        type0_version()
    }

    open spec fn spec_events(&self, inputs: Seq<(InformationElement, usize)>) -> Seq<
        Option<EventView>,
    > {
        builtin_events(AnalyzerState::Type0Sms, inputs)
    }

    fn get_name(&self) -> (res: String)
        ensures
            res@ == type0_name(),
    {
        String::from_str("Silent SMS (Type-0) Detected")
    }

    fn get_description(&self) -> (res: String)
        ensures
            res@ == type0_description(),
    {
        String::from_str(
            "Detects Type-0 (\"silent\") SMS messages delivered over NAS. These are invisible \
             to the user and are commonly used to track a device's location by confirming \
             its presence on a cell. Legitimate networks rarely send them to consumer devices.",
        )
    }

    fn get_version(&self) -> (res: u32)
        ensures
            res == type0_version(),
    {
        1
    }

    fn analyze_information_element(&mut self, ie: &InformationElement, packet_num: usize) -> (res:
        Option<Event>)
        ensures
            option_event_view(res) == spec_type0_event(*ie),
    {
        proof {
            lemma_builtin_events_step(AnalyzerState::Type0Sms, *ie, packet_num);
        }
        let container = match ie {
            InformationElement::LTE(LteInformationElement::Nas(NasMessage::DlNasTransport(buf))) => buf,
            _ => return None,
        };
        if is_type0_sms(container.as_slice()) {
            return Some(
                Event::new(
                    EventType::High,
                    String::from_str(
                        "Silent SMS (Type-0) received \u{2014} may be used for location tracking",
                    ),
                ),
            );
        }
        None
    }
}

} // verus!
