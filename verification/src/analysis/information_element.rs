//! The decoded over-the-air messages that the analyzers inspect.
//!
//! Each message is held as the plain values the heuristics read: which RRC or
//! NAS message it is, and the few fields (reject cause, paging identities,
//! SIB1 cell identity, SMS container bytes) that a heuristic looks at.
//! Messages of channels that no heuristic reads are kept only by their kind.

use vstd::prelude::*;

verus! {

/// A decoded message from one of the radio access technologies.
pub enum InformationElement {
    GSM,
    UMTS,
    LTE(LteInformationElement),
    FiveG,
}

/// An LTE message, by the logical channel or protocol it was carried on.
pub enum LteInformationElement {
    /// Downlink dedicated control channel (RRC).
    DlDcch(DlDcchMessage),
    /// Paging control channel (RRC).
    Pcch(PcchMessage),
    /// Broadcast system information (RRC).
    BcchDlSch(BcchDlSchMessage),
    /// A NAS (EPS mobility management) message.
    Nas(NasMessage),
    /// A message on any other channel.
    Other,
}

/// A downlink DCCH RRC message.
pub enum DlDcchMessage {
    RrcConnectionRelease,
    Other,
}

/// A paging channel RRC message.
pub enum PcchMessage {
    Paging(Paging),
    Other,
}

/// An RRC Paging message.
pub struct Paging {
    /// The paged UE identities, if the paging record list is present.
    pub paging_record_list: Option<Vec<PagingUeIdentity>>,
}

/// The identity a UE is paged by.
pub enum PagingUeIdentity {
    /// The temporary identity normally used for paging.
    STmsi,
    /// The permanent subscriber identity, as its decimal digits.
    Imsi(Vec<u8>),
}

/// A broadcast system information message.
pub enum BcchDlSchMessage {
    SystemInformationBlockType1(SystemInformationBlockType1),
    Other,
}

/// A PLMN identity as broadcast in SIB1: MCC and MNC digits.
pub struct PlmnIdentity {
    /// The MCC digits; absent when the MCC is inherited.
    pub mcc: Option<Vec<u8>>,
    /// The MNC digits.
    pub mnc: Vec<u8>,
}

/// The cell-access fields of an LTE SIB1 broadcast.
pub struct SystemInformationBlockType1 {
    /// The PLMNs the cell serves; the first is the primary PLMN.
    pub plmn_identity_list: Vec<PlmnIdentity>,
    /// The tracking area code bit string, most significant bit first.
    pub tracking_area_code: Vec<bool>,
    /// The E-UTRAN cell identity bit string, most significant bit first.
    pub cell_identity: Vec<bool>,
    /// The E-UTRA operating band.
    pub freq_band_indicator: u8,
}

/// The EMM cause value of a reject message (3GPP TS 24.301, 9.9.3.9).
#[derive(Clone, Copy, Debug)]
pub struct EmmCause(pub u8);

/// A NAS EPS mobility management message.
pub enum NasMessage {
    AttachRequest,
    TrackingAreaUpdateRequest,
    ExtServiceRequest,
    AuthenticationRequest,
    SecurityModeCommand,
    AttachReject(EmmCause),
    TrackingAreaUpdateReject(EmmCause),
    /// Downlink NAS Transport, with the bytes of its NAS message container.
    DlNasTransport(Vec<u8>),
    Other,
}

/// Digits whose character `'0' + d` fits in a byte.
pub open spec fn digits_fit(digits: Seq<u8>) -> bool {
    forall|i: int| 0 <= i < digits.len() ==> #[trigger] digits[i] < 208
}

/// A SIB1 whose identity fields can be decoded: the bit strings hold 1 to 32
/// bits and the digits of the first PLMN identity fit in a byte as characters.
pub open spec fn sib1_decodable(sib1: SystemInformationBlockType1) -> bool {
    &&& 1 <= sib1.tracking_area_code@.len() <= 32
    &&& 1 <= sib1.cell_identity@.len() <= 32
    &&& sib1.plmn_identity_list@.len() > 0 ==> {
        let id = sib1.plmn_identity_list@[0];
        &&& digits_fit(id.mnc@)
        &&& id.mcc matches Some(mcc) ==> digits_fit(mcc@)
    }
}

/// The SIB1 an information element carries, if it is one.
pub open spec fn ie_sib1(ie: InformationElement) -> Option<SystemInformationBlockType1> {
    match ie {
        InformationElement::LTE(
            LteInformationElement::BcchDlSch(BcchDlSchMessage::SystemInformationBlockType1(sib1)),
        ) => Some(sib1),
        _ => None,
    }
}

/// The digits of the first IMSI among paging records, if any record pages
/// by IMSI.
pub open spec fn first_imsi(records: Seq<PagingUeIdentity>) -> Option<Seq<u8>>
    decreases records.len(),
{
    if records.len() == 0 {
        None
    } else {
        match records[0] {
            PagingUeIdentity::Imsi(digits) => Some(digits@),
            PagingUeIdentity::STmsi => first_imsi(records.drop_first()),
        }
    }
}

/// The paging records an information element holds, if it is a Paging
/// message with a record list.
pub open spec fn ie_paging_records(ie: InformationElement) -> Option<Seq<PagingUeIdentity>> {
    match ie {
        InformationElement::LTE(LteInformationElement::Pcch(PcchMessage::Paging(paging))) => {
            match paging.paging_record_list {
                Some(list) => Some(list@),
                None => None,
            }
        },
        _ => None,
    }
}

/// The IMSI an information element pages by, if any.
pub open spec fn ie_paged_imsi(ie: InformationElement) -> Option<Seq<u8>> {
    match ie_paging_records(ie) {
        Some(records) => first_imsi(records),
        None => None,
    }
}

/// An information element the heuristics can decode without overflow: a SIB1
/// with 1 to 32 bit identity strings, and digits (PLMN, paged IMSI) whose
/// characters fit in a byte. The decoders this library receives its messages
/// from only produce such elements; the ASN.1 types bound digits to 0..9.
pub open spec fn well_formed(ie: InformationElement) -> bool {
    &&& ie_sib1(ie) matches Some(sib1) ==> sib1_decodable(sib1)
    &&& ie_paged_imsi(ie) matches Some(d) ==> digits_fit(d)
}

} // verus!
