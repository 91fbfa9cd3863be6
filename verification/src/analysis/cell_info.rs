//! Structured serving-cell context attached to analysis events.
//!
//! Downstream consumers (correlating a detection with other sensor
//! observations, or looking a cell up in a tower database) need a stable,
//! machine-readable identity of the serving cell at the moment an event fired.
//!
//! The identity fields (PLMN, TAC, cell id, band) come from the LTE SIB1
//! broadcast. The physical-layer fields come from Qualcomm DIAG log packets:
//! EARFCN and PCI from the LTE RRC OTA log header, RSRP/RSRQ from the LTE ML1
//! serving-cell measurement log. Signal levels are kept in sixteenths of a
//! dB (dBm for RSRP), the resolution the modem reports them in.

use vstd::prelude::*;

use crate::analysis::information_element::{
    digits_fit, ie_sib1, sib1_decodable, well_formed, BcchDlSchMessage, InformationElement,
    LteInformationElement, SystemInformationBlockType1,
};
use crate::analysis::mcc_mnc::{
    carrier_display, lookup, spec_country_name, spec_operator_name, Carrier, CarrierView,
};
use crate::text::{lemma_seq_lt_transitive, lemma_seq_order_basic, push_char, compare_str, seq_lt, seq_order};

verus! {

/// A PLMN (Public Land Mobile Network) identity: an operator's MCC + MNC.
///
/// Stored as digit strings so that leading zeros (significant in an MNC: "01"
/// is not "1") and the MNC's 2-vs-3-digit width are kept.
#[derive(Debug)]
pub struct Plmn {
    /// Mobile Country Code, 3 digits, e.g. "310".
    pub mcc: String,
    /// Mobile Network Code, 2 or 3 digits, e.g. "410" or "01".
    pub mnc: String,
}

/// The digits of a PLMN.
pub struct PlmnView {
    pub mcc: Seq<char>,
    pub mnc: Seq<char>,
}

impl View for Plmn {
    type V = PlmnView;

    open spec fn view(&self) -> PlmnView {
        PlmnView { mcc: self.mcc@, mnc: self.mnc@ }
    }
}

impl Clone for Plmn {
    fn clone(&self) -> (res: Self)
        ensures
            res == *self,
    {
        Plmn { mcc: self.mcc.clone(), mnc: self.mnc.clone() }
    }
}

/// What a PLMN resolves to in the operator/country table.
pub open spec fn plmn_carrier(p: PlmnView) -> CarrierView {
    CarrierView {
        operator: spec_operator_name(p.mcc, p.mnc),
        country: spec_country_name(p.mcc),
    }
}

/// The label of a PLMN: the resolved operator/country, or else the raw
/// `MCC-MNC` digits.
pub open spec fn plmn_display_name(p: PlmnView) -> Seq<char> {
    match carrier_display(plmn_carrier(p)) {
        Some(s) => s,
        None => p.mcc + "-"@ + p.mnc,
    }
}

impl Plmn {
    /// Resolve this PLMN to a named operator/country.
    pub fn carrier(&self) -> (res: Carrier)
        ensures
            res@ == plmn_carrier(self@),
    {
        lookup(self.mcc.as_str(), self.mnc.as_str())
    }

    /// A human-readable label for this PLMN, always non-empty: the resolved
    /// operator/country if known, otherwise the raw `MCC-MNC` digits.
    pub fn display_name(&self) -> (res: String)
        ensures
            res@ == plmn_display_name(self@),
            res@.len() > 0,
    {
        proof {
            reveal_strlit("-");
            reveal_strlit(" (");
            reveal_strlit("Unknown operator (");
            crate::analysis::mcc_mnc::lemma_operator_implies_country(self.mcc@, self.mnc@);
        }
        match self.carrier().display() {
            Some(s) => s,
            None => {
                let mut s = self.mcc.clone();
                s.append("-");
                s.append(self.mnc.as_str());
                s
            },
        }
    }
}

/// Structured identity and radio context of a serving cell, as much of it as
/// is known at a given moment. Every field is optional.
#[derive(Debug)]
pub struct ServingCellInfo {
    /// Serving PLMN (operator) identity.
    pub plmn: Option<Plmn>,
    /// Tracking Area Code.
    pub tac: Option<u32>,
    /// 28-bit E-UTRAN cell identity (ECI).
    pub cell_id: Option<u32>,
    /// E-UTRA operating band.
    pub band: Option<u16>,
    /// Serving E-UTRA Absolute Radio Frequency Channel Number.
    pub earfcn: Option<u32>,
    /// Physical Cell Identity.
    pub pci: Option<u16>,
    /// Reference Signal Received Power, in sixteenths of a dBm.
    pub rsrp: Option<i32>,
    /// Reference Signal Received Quality, in sixteenths of a dB.
    pub rsrq: Option<i32>,
    /// Signal-to-Interference-plus-Noise Ratio, in sixteenths of a dB.
    pub sinr: Option<i32>,
}

/// The value of a [`ServingCellInfo`].
pub struct ServingCellInfoView {
    pub plmn: Option<PlmnView>,
    pub tac: Option<u32>,
    pub cell_id: Option<u32>,
    pub band: Option<u16>,
    pub earfcn: Option<u32>,
    pub pci: Option<u16>,
    pub rsrp: Option<i32>,
    pub rsrq: Option<i32>,
    pub sinr: Option<i32>,
}

pub open spec fn option_plmn_view(p: Option<Plmn>) -> Option<PlmnView> {
    match p {
        Some(p) => Some(p@),
        None => None,
    }
}

impl View for ServingCellInfo {
    type V = ServingCellInfoView;

    open spec fn view(&self) -> ServingCellInfoView {
        ServingCellInfoView {
            plmn: option_plmn_view(self.plmn),
            tac: self.tac,
            cell_id: self.cell_id,
            band: self.band,
            earfcn: self.earfcn,
            pci: self.pci,
            rsrp: self.rsrp,
            rsrq: self.rsrq,
            sinr: self.sinr,
        }
    }
}

/// A cell about which nothing is known.
pub open spec fn empty_cell() -> ServingCellInfoView {
    ServingCellInfoView {
        plmn: None,
        tac: None,
        cell_id: None,
        band: None,
        earfcn: None,
        pci: None,
        rsrp: None,
        rsrq: None,
        sinr: None,
    }
}

impl Clone for ServingCellInfo {
    fn clone(&self) -> (res: Self)
        ensures
            res == *self,
    {
        let plmn = match &self.plmn {
            Some(p) => Some(p.clone()),
            None => None,
        };
        ServingCellInfo {
            plmn,
            tac: self.tac,
            cell_id: self.cell_id,
            band: self.band,
            earfcn: self.earfcn,
            pci: self.pci,
            rsrp: self.rsrp,
            rsrq: self.rsrq,
            sinr: self.sinr,
        }
    }
}

impl Default for ServingCellInfo {
    fn default() -> (res: Self)
        ensures
            res@ == empty_cell(),
    {
        ServingCellInfo {
            plmn: None,
            tac: None,
            cell_id: None,
            band: None,
            earfcn: None,
            pci: None,
            rsrp: None,
            rsrq: None,
            sinr: None,
        }
    }
}

/// The number a bit string denotes, most significant bit first.
pub open spec fn bits_be(bits: Seq<bool>) -> nat
    decreases bits.len(),
{
    if bits.len() == 0 {
        0
    } else {
        2 * bits_be(bits.drop_last()) + (if bits.last() {
            1nat
        } else {
            0nat
        })
    }
}

/// Two to the power `n`.
pub open spec fn two_pow(n: nat) -> nat
    decreases n,
{
    if n == 0 {
        1
    } else {
        2 * two_pow((n - 1) as nat)
    }
}

proof fn lemma_two_pow_monotone(i: nat, j: nat)
    requires
        i <= j,
    ensures
        two_pow(i) <= two_pow(j),
    decreases j,
{
    if i < j {
        lemma_two_pow_monotone(i, (j - 1) as nat);
    }
}

/// The first bit of a bit string is the most significant and the last the
/// least: a one followed by `k` zeros is 2^k, and `k` zeros followed by a one
/// is 1.
pub proof fn lemma_bits_be_msb_first(k: nat)
    ensures
        bits_be(seq![true] + Seq::new(k, |i: int| false)) == two_pow(k),
        bits_be(Seq::new(k, |i: int| false) + seq![true]) == 1,
    decreases k,
{
    let zeros = Seq::new(k, |i: int| false);
    lemma_bits_be_zeros(k);
    let a = seq![true] + zeros;
    let b = zeros + seq![true];
    assert(b.drop_last() =~= zeros);
    if k > 0 {
        lemma_bits_be_msb_first((k - 1) as nat);
        assert(a.drop_last() =~= seq![true] + Seq::new((k - 1) as nat, |i: int| false));
    } else {
        assert(a.drop_last() =~= Seq::<bool>::empty());
    }
}

/// A string of zeros denotes 0.
proof fn lemma_bits_be_zeros(k: nat)
    ensures
        bits_be(Seq::new(k, |i: int| false)) == 0,
    decreases k,
{
    if k > 0 {
        lemma_bits_be_zeros((k - 1) as nat);
        assert(Seq::new(k, |i: int| false).drop_last() =~= Seq::new((k - 1) as nat, |i: int| false));
    }
}

proof fn lemma_two_pow_32()
    ensures
        two_pow(32) == 4294967296,
{
    reveal_with_fuel(two_pow, 33);
}

/// Reads a bit string of 1 to 32 bits as a big-endian unsigned number (the
/// first bit is the most significant), as bitvec's `load_be::<u32>` does on
/// an MSB-first bit slice; that call panics on an empty or longer slice.
pub fn load_be_u32(bits: &Vec<bool>) -> (res: u32)
    requires
        1 <= bits@.len() <= 32,
    ensures
        res as nat == bits_be(bits@),
{
    let mut v: u64 = 0;
    let mut i: usize = 0;
    while i < bits.len()
        invariant
            i <= bits@.len() <= 32,
            v as nat == bits_be(bits@.take(i as int)),
            (v as nat) < two_pow(i as nat),
        decreases bits.len() - i,
    {
        proof {
            assert(bits@.take(i + 1).drop_last() =~= bits@.take(i as int));
            lemma_two_pow_monotone((i + 1) as nat, 32);
            lemma_two_pow_32();
        }
        let b: u64 = if bits[i] {
            1
        } else {
            0
        };
        v = 2 * v + b;
        i = i + 1;
    }
    proof {
        assert(bits@.take(bits@.len() as int) =~= bits@);
        lemma_two_pow_monotone(i as nat, 32);
        lemma_two_pow_32();
    }
    v as u32
}

/// Decimal digits rendered as characters, e.g. `[3, 1, 0]` -> "310".
pub open spec fn digits_chars(digits: Seq<u8>) -> Seq<char> {
    digits.map_values(|d: u8| (48 + d) as char)
}


/// Each decimal digit renders as its own character, '0' to '9', one
/// character per digit, in order; the rendering reads back as the number
/// the digits denote.
pub proof fn lemma_digits_render(digits: Seq<u8>)
    requires
        forall|i: int| 0 <= i < digits.len() ==> #[trigger] digits[i] < 10,
    ensures
        digits_chars(digits).len() == digits.len(),
        forall|i: int|
            0 <= i < digits.len() ==> '0' <= #[trigger] digits_chars(digits)[i] <= '9'
                && digits_chars(digits)[i] as int - 48 == digits[i],
{
}

/// Concatenate single decimal digits into a string, e.g. `[3, 1, 0]` -> "310".
pub fn digits_to_string(digits: &Vec<u8>) -> (res: String)
    requires
        digits_fit(digits@),
    ensures
        res@ == digits_chars(digits@),
{
    let mut s = String::new();
    let mut i: usize = 0;
    while i < digits.len()
        invariant
            i <= digits@.len(),
            digits_fit(digits@),
            s@ == digits_chars(digits@.take(i as int)),
        decreases digits.len() - i,
    {
        let d = digits[i];
        let b: u8 = 48 + d;
        push_char(&mut s, b as char);
        proof {
            assert(digits_chars(digits@.take(i + 1)) =~= digits_chars(digits@.take(i as int)).push(
                (48 + d) as char,
            ));
        }
        i = i + 1;
    }
    proof {
        assert(digits@.take(digits@.len() as int) =~= digits@);
    }
    s
}


/// The serving-cell identity a SIB1 announces: the first PLMN (an absent MCC
/// reads as empty), the TAC, the cell identity and the band.
pub open spec fn sib1_cell(sib1: SystemInformationBlockType1) -> ServingCellInfoView {
    ServingCellInfoView {
        plmn: if sib1.plmn_identity_list@.len() > 0 {
            let id = sib1.plmn_identity_list@[0];
            Some(
                PlmnView {
                    mcc: match id.mcc {
                        Some(mcc) => digits_chars(mcc@),
                        None => Seq::empty(),
                    },
                    mnc: digits_chars(id.mnc@),
                },
            )
        } else {
            None
        },
        tac: Some(bits_be(sib1.tracking_area_code@) as u32),
        cell_id: Some(bits_be(sib1.cell_identity@) as u32),
        band: Some(sib1.freq_band_indicator as u16),
        earfcn: None,
        pci: None,
        rsrp: None,
        rsrq: None,
        sinr: None,
    }
}



/// The serving-cell identity an information element announces, if any.
pub open spec fn ie_cell(ie: InformationElement) -> Option<ServingCellInfoView> {
    match ie_sib1(ie) {
        Some(sib1) => Some(sib1_cell(sib1)),
        None => None,
    }
}

impl ServingCellInfo {
    /// True if no field has been populated.
    pub fn is_empty(&self) -> (res: bool)
        ensures
            res == (self@ == empty_cell()),
    {
        self.plmn.is_none() && self.tac.is_none() && self.cell_id.is_none() && self.band.is_none()
            && self.earfcn.is_none() && self.pci.is_none() && self.rsrp.is_none()
            && self.rsrq.is_none() && self.sinr.is_none()
    }

    /// Extract the RRC-derived identity fields from an LTE SIB1 broadcast.
    /// The physical-layer fields are left unset; SIB1 does not carry them.
    pub fn from_sib1(sib1: &SystemInformationBlockType1) -> (res: Self)
        requires
            sib1_decodable(*sib1),
        ensures
            res@ == sib1_cell(*sib1),
    {
        let cell_id = Some(load_be_u32(&sib1.cell_identity));
        let tac = Some(load_be_u32(&sib1.tracking_area_code));
        let band = Some(sib1.freq_band_indicator as u16);
        let plmn = if sib1.plmn_identity_list.len() > 0 {
            let identity = &sib1.plmn_identity_list[0];
            let mcc = match &identity.mcc {
                Some(mcc) => digits_to_string(mcc),
                None => String::new(),
            };
            let mnc = digits_to_string(&identity.mnc);
            Some(Plmn { mcc, mnc })
        } else {
            None
        };
        ServingCellInfo {
            plmn,
            tac,
            cell_id,
            band,
            earfcn: None,
            pci: None,
            rsrp: None,
            rsrq: None,
            sinr: None,
        }
    }

    /// Extract serving-cell identity from an information element if it is a
    /// SIB1 broadcast, otherwise `None`.
    pub fn from_information_element(ie: &InformationElement) -> (res: Option<Self>)
        requires
            well_formed(*ie),
        ensures
            match res {
                Some(info) => ie_cell(*ie) == Some(info@),
                None => ie_cell(*ie) is None,
            },
    {
        match ie {
            InformationElement::LTE(
                LteInformationElement::BcchDlSch(
                    BcchDlSchMessage::SystemInformationBlockType1(sib1),
                ),
            ) => Some(Self::from_sib1(sib1)),
            _ => None,
        }
    }
}

/// The order of PLMNs: by MCC, then by MNC.
pub open spec fn plmn_lt(a: PlmnView, b: PlmnView) -> bool {
    seq_lt(a.mcc, b.mcc) || (a.mcc == b.mcc && seq_lt(a.mnc, b.mnc))
}

proof fn lemma_plmn_lt_transitive(a: PlmnView, b: PlmnView, c: PlmnView)
    requires
        plmn_lt(a, b),
        plmn_lt(b, c),
    ensures
        plmn_lt(a, c),
{
    lemma_seq_order_basic(a.mcc, b.mcc);
    lemma_seq_order_basic(b.mcc, c.mcc);
    lemma_seq_order_basic(a.mcc, c.mcc);
    if seq_lt(a.mcc, b.mcc) && seq_lt(b.mcc, c.mcc) {
        lemma_seq_lt_transitive(a.mcc, b.mcc, c.mcc);
    }
    if a.mcc == b.mcc && b.mcc == c.mcc {
        lemma_seq_lt_transitive(a.mnc, b.mnc, c.mnc);
    }
}

/// PLMNs listed in strictly increasing order (so without duplicates).
pub open spec fn plmns_sorted(s: Seq<PlmnView>) -> bool {
    forall|i: int, j: int| 0 <= i < j < s.len() ==> plmn_lt(#[trigger] s[i], #[trigger] s[j])
}

/// The digits of a list of PLMNs.
pub open spec fn plmn_views(v: Seq<Plmn>) -> Seq<PlmnView> {
    v.map_values(|p: Plmn| p@)
}

/// Three-way comparison of PLMNs: `-1` when `a` sorts first, `0` when equal,
/// `1` when `b` sorts first.
fn compare_plmn(a: &Plmn, b: &Plmn) -> (res: i8)
    ensures
        res == -1 || res == 0 || res == 1,
        res == -1 <==> plmn_lt(a@, b@),
        res == 0 <==> a@ == b@,
        res == 1 <==> plmn_lt(b@, a@),
{
    let c = compare_str(a.mcc.as_str(), b.mcc.as_str());
    proof {
        lemma_seq_order_basic(a.mcc@, b.mcc@);
    }
    if c != 0 {
        return c;
    }
    let d = compare_str(a.mnc.as_str(), b.mnc.as_str());
    proof {
        lemma_seq_order_basic(a.mnc@, b.mnc@);
    }
    d
}

/// Inserts `p` into a strictly sorted list of PLMNs, keeping it strictly
/// sorted; a PLMN already present is not inserted again.
fn insert_plmn(v: &mut Vec<Plmn>, p: Plmn)
    requires
        plmns_sorted(plmn_views(old(v)@)),
    ensures
        plmns_sorted(plmn_views(final(v)@)),
        plmn_views(final(v)@).to_set() == plmn_views(old(v)@).to_set().insert(p@),
{
    let ghost old_views = plmn_views(v@);
    let mut k: usize = 0;
    let mut found: i8 = -1;
    while k < v.len() && found == -1
        invariant
            plmn_views(v@) == old_views,
            old_views.len() == v@.len(),
            plmns_sorted(old_views),
            k <= v.len(),
            forall|j: int| 0 <= j < k ==> plmn_lt(#[trigger] old_views[j], p@),
            found == -1 || found == 0 || found == 1,
            found == 0 ==> k < v.len() && old_views[k as int] == p@,
            found == 1 ==> k < v.len() && plmn_lt(p@, old_views[k as int]),
        decreases v.len() - k + (if found == -1 { 1int } else { 0int }),
    {
        let c = compare_plmn(&v[k], &p);
        assert(old_views[k as int] == v@[k as int]@);
        if c == -1 {
            k = k + 1;
        } else {
            found = c;
        }
    }
    if found == 0 {
        proof {
            assert(old_views.to_set().insert(p@) =~= old_views.to_set());
        }
        return;
    }
    let ghost pv = p@;
    v.insert(k, p);
    proof {
        let nv = plmn_views(v@);
        assert(nv =~= old_views.insert(k as int, pv));
        assert forall|i: int, j: int| 0 <= i < j < nv.len() implies plmn_lt(
            #[trigger] nv[i],
            #[trigger] nv[j],
        ) by {
            if j == k {
                assert(plmn_lt(old_views[i], pv));
            } else if i == k {
                if j - 1 > k {
                    lemma_plmn_lt_transitive(pv, old_views[k as int], old_views[j - 1]);
                }
            } else if i < k && j > k {
                lemma_plmn_lt_transitive(old_views[i], pv, old_views[k as int]);
                if j - 1 > k {
                    lemma_plmn_lt_transitive(old_views[i], old_views[k as int], old_views[j - 1]);
                }
            }
        }
        assert forall|x: PlmnView| nv.to_set().contains(x) <==> old_views.to_set().insert(
            pv,
        ).contains(x) by {
            if nv.to_set().contains(x) {
                let i = choose|i: int| 0 <= i < nv.len() && nv[i] == x;
                if i < k {
                    assert(old_views[i] == x);
                } else if i > k {
                    assert(old_views[i - 1] == x);
                }
            }
            if old_views.to_set().contains(x) {
                let i = choose|i: int| 0 <= i < old_views.len() && old_views[i] == x;
                if i < k {
                    assert(nv[i] == x);
                } else {
                    assert(nv[i + 1] == x);
                }
            }
            if x == pv {
                assert(nv[k as int] == x);
            }
        }
        assert(nv.to_set() =~= old_views.to_set().insert(pv));
    }
}

/// Tracks the most recently observed serving cell across a stream of
/// information elements, so that events can be stamped with the serving cell
/// in effect when they fired.
pub struct ServingCellTracker {
    current: Option<ServingCellInfo>,
    /// Every distinct PLMN seen over the life of the capture, in increasing
    /// order.
    observed_plmns: Vec<Plmn>,
}

/// The value of a [`ServingCellTracker`]: the current cell, and the PLMNs
/// observed.
pub struct ServingCellTrackerView {
    pub current: Option<ServingCellInfoView>,
    pub observed: Set<PlmnView>,
}

pub open spec fn option_cell_view(c: Option<ServingCellInfo>) -> Option<ServingCellInfoView> {
    match c {
        Some(c) => Some(c@),
        None => None,
    }
}

impl View for ServingCellTracker {
    type V = ServingCellTrackerView;

    closed spec fn view(&self) -> ServingCellTrackerView {
        ServingCellTrackerView {
            current: option_cell_view(self.current),
            observed: plmn_views(self.observed_plmns@).to_set(),
        }
    }
}

/// The current cell, or an empty one if none is known yet.
pub open spec fn current_or_empty(c: Option<ServingCellInfoView>) -> ServingCellInfoView {
    match c {
        Some(c) => c,
        None => empty_cell(),
    }
}

/// The cell after a SIB1 announcing `info`: its identity fields replace the
/// old ones, the physical-layer fields are kept.
pub open spec fn with_identity(
    cur: ServingCellInfoView,
    info: ServingCellInfoView,
) -> ServingCellInfoView {
    ServingCellInfoView {
        plmn: info.plmn,
        tac: info.tac,
        cell_id: info.cell_id,
        band: info.band,
        ..cur
    }
}

/// The tracker after an information element: unchanged unless it announces a
/// cell identity, which becomes the current identity and whose PLMN joins
/// the observed ones.
pub open spec fn tracker_after_observe(
    t: ServingCellTrackerView,
    ie: InformationElement,
) -> ServingCellTrackerView {
    match ie_cell(ie) {
        Some(info) => ServingCellTrackerView {
            current: Some(with_identity(current_or_empty(t.current), info)),
            observed: match info.plmn {
                Some(p) => t.observed.insert(p),
                None => t.observed,
            },
        },
        None => t,
    }
}

/// The cell after a physical-layer observation of `pci` on `earfcn`: a change
/// of carrier clears the signal measured on the old one.
pub open spec fn with_physical(cur: ServingCellInfoView, pci: u16, earfcn: u32) -> ServingCellInfoView {
    ServingCellInfoView {
        pci: Some(pci),
        earfcn: Some(earfcn),
        rsrp: if cur.earfcn == Some(earfcn) {
            cur.rsrp
        } else {
            None
        },
        rsrq: if cur.earfcn == Some(earfcn) {
            cur.rsrq
        } else {
            None
        },
        ..cur
    }
}

/// The cell after a signal measurement on `earfcn`: applied only to a cell on
/// that carrier, and only for the values present.
pub open spec fn with_signal(
    cur: ServingCellInfoView,
    earfcn: u32,
    rsrp: Option<i32>,
    rsrq: Option<i32>,
) -> ServingCellInfoView {
    if cur.earfcn != Some(earfcn) {
        cur
    } else {
        ServingCellInfoView {
            rsrp: if rsrp is Some {
                rsrp
            } else {
                cur.rsrp
            },
            rsrq: if rsrq is Some {
                rsrq
            } else {
                cur.rsrq
            },
            ..cur
        }
    }
}

/// A physical-layer observation never changes the cell's identity (PLMN,
/// TAC, cell id, band), and a SIB1 never changes its physical-layer fields.
pub proof fn lemma_identity_and_physical_independent(
    c: ServingCellInfoView,
    info: ServingCellInfoView,
    pci: u16,
    earfcn: u32,
    rsrp: Option<i32>,
    rsrq: Option<i32>,
)
    ensures
        ({
            let p = with_physical(c, pci, earfcn);
            p.plmn == c.plmn && p.tac == c.tac && p.cell_id == c.cell_id && p.band == c.band
        }),
        ({
            let g = with_signal(c, earfcn, rsrp, rsrq);
            g.plmn == c.plmn && g.tac == c.tac && g.cell_id == c.cell_id && g.band == c.band
                && g.pci == c.pci && g.earfcn == c.earfcn
        }),
        ({
            let n = with_identity(c, info);
            n.earfcn == c.earfcn && n.pci == c.pci && n.rsrp == c.rsrp && n.rsrq == c.rsrq
                && n.sinr == c.sinr
        }),
{
}

/// A change of serving carrier clears the signal measured on the old one; on
/// the same carrier the signal is kept.
pub proof fn lemma_carrier_change_clears_signal(c: ServingCellInfoView, pci: u16, earfcn: u32)
    ensures
        c.earfcn != Some(earfcn) ==> with_physical(c, pci, earfcn).rsrp is None && with_physical(
            c,
            pci,
            earfcn,
        ).rsrq is None,
        c.earfcn == Some(earfcn) ==> with_physical(c, pci, earfcn).rsrp == c.rsrp && with_physical(
            c,
            pci,
            earfcn,
        ).rsrq == c.rsrq,
{
}

/// A measurement of a cell on another carrier (a neighbour) leaves the
/// serving cell unchanged.
pub proof fn lemma_neighbour_signal_ignored(
    c: ServingCellInfoView,
    earfcn: u32,
    rsrp: Option<i32>,
    rsrq: Option<i32>,
)
    requires
        c.earfcn != Some(earfcn),
    ensures
        with_signal(c, earfcn, rsrp, rsrq) == c,
{
}

/// The observed PLMNs only accumulate over a capture: an information element
/// never removes one, and the PLMN of a cell it announces is among them
/// afterwards.
pub proof fn lemma_observed_plmns_accumulate(t: ServingCellTrackerView, ie: InformationElement)
    ensures
        t.observed.subset_of(tracker_after_observe(t, ie).observed),
        ie_cell(ie) matches Some(info) ==> (info.plmn matches Some(p)
            ==> tracker_after_observe(t, ie).observed.contains(p)),
{
}

/// A SIB1 replaces the serving cell's identity with the one it announces:
/// afterwards the current cell has exactly the announced PLMN, TAC, cell id
/// and band, whatever identity was known before, and keeps the
/// physical-layer fields it had.
pub proof fn lemma_sib1_replaces_identity(t: ServingCellTrackerView, ie: InformationElement)
    requires
        ie_cell(ie) is Some,
    ensures
        ({
            let info = ie_cell(ie)->0;
            let before = current_or_empty(t.current);
            let c = tracker_after_observe(t, ie).current;
            &&& c is Some
            &&& c->0.plmn == info.plmn
            &&& c->0.tac == info.tac
            &&& c->0.cell_id == info.cell_id
            &&& c->0.band == info.band
            &&& c->0.earfcn == before.earfcn
            &&& c->0.pci == before.pci
            &&& c->0.rsrp == before.rsrp
            &&& c->0.rsrq == before.rsrq
            &&& c->0.sinr == before.sinr
        }),
{
}

impl ServingCellTracker {
    #[verifier::type_invariant]
    spec fn inv(self) -> bool {
        plmns_sorted(plmn_views(self.observed_plmns@))
    }

    /// A tracker that has seen nothing.
    pub fn new() -> (res: Self)
        ensures
            res@.current is None,
            res@.observed == Set::<PlmnView>::empty(),
    {
        let res = ServingCellTracker { current: None, observed_plmns: Vec::new() };
        assert(plmn_views(res.observed_plmns@) =~= Seq::<PlmnView>::empty());
        assert(plmn_views(res.observed_plmns@).to_set() =~= Set::<PlmnView>::empty());
        res
    }

    /// Update the tracked serving cell's identity from an information element.
    /// A no-op for elements that do not carry cell identity. Physical-layer
    /// fields recorded by [`observe_physical`](Self::observe_physical) are
    /// kept.
    pub fn observe(&mut self, ie: &InformationElement)
        requires
            well_formed(*ie),
        ensures
            final(self)@ == tracker_after_observe(old(self)@, *ie),
    {
        proof {
            use_type_invariant(&*self);
        }
        if let Some(info) = ServingCellInfo::from_information_element(ie) {
            let mut observed = Vec::new();
            std::mem::swap(&mut observed, &mut self.observed_plmns);
            match &info.plmn {
                Some(plmn) => insert_plmn(&mut observed, plmn.clone()),
                None => {},
            }
            let mut previous = None;
            std::mem::swap(&mut previous, &mut self.current);
            let mut current = match previous {
                Some(c) => c,
                None => ServingCellInfo::default(),
            };
            current.plmn = info.plmn;
            current.tac = info.tac;
            current.cell_id = info.cell_id;
            current.band = info.band;
            self.current = Some(current);
            self.observed_plmns = observed;
        }
        proof {
            use_type_invariant(&*self);
        }
    }

    /// Record physical-layer serving-cell context (PCI and EARFCN) from a DIAG
    /// LTE RRC OTA log header, merged into the current cell. A change of
    /// serving carrier clears the signal measured on the previous one.
    pub fn observe_physical(&mut self, pci: u16, earfcn: u32)
        ensures
            final(self)@.current == Some(with_physical(current_or_empty(old(self)@.current), pci, earfcn)),
            final(self)@.observed == old(self)@.observed,
    {
        proof {
            use_type_invariant(&*self);
        }
        let mut previous = None;
        std::mem::swap(&mut previous, &mut self.current);
        let mut current = match previous {
            Some(c) => c,
            None => ServingCellInfo::default(),
        };
        if current.earfcn != Some(earfcn) {
            current.rsrp = None;
            current.rsrq = None;
        }
        current.pci = Some(pci);
        current.earfcn = Some(earfcn);
        self.current = Some(current);
    }

    /// Record serving-cell signal measurements, merging whichever are present
    /// into the current cell. A measurement is attributed to the serving cell
    /// only when its `earfcn` matches the serving cell's; otherwise, or when
    /// no cell is known yet, this is a no-op.
    pub fn observe_signal(&mut self, earfcn: u32, rsrp: Option<i32>, rsrq: Option<i32>)
        ensures
            final(self)@.current == match old(self)@.current {
                Some(c) => Some(with_signal(c, earfcn, rsrp, rsrq)),
                None => None,
            },
            final(self)@.observed == old(self)@.observed,
    {
        proof {
            use_type_invariant(&*self);
        }
        let mut previous = None;
        std::mem::swap(&mut previous, &mut self.current);
        match previous {
            None => {},
            Some(mut current) => {
                if current.earfcn == Some(earfcn) {
                    if rsrp.is_some() {
                        current.rsrp = rsrp;
                    }
                    if rsrq.is_some() {
                        current.rsrq = rsrq;
                    }
                }
                self.current = Some(current);
            },
        }
    }

    /// The most recently observed serving cell, if any.
    pub fn current(&self) -> (res: Option<ServingCellInfo>)
        ensures
            option_cell_view(res) == self@.current,
    {
        match &self.current {
            Some(c) => Some(c.clone()),
            None => None,
        }
    }

    /// A borrow of the most recently observed serving cell.
    pub fn current_ref(&self) -> (res: Option<&ServingCellInfo>)
        ensures
            match res {
                Some(c) => self@.current == Some(c@),
                None => self@.current is None,
            },
    {
        self.current.as_ref()
    }

    /// Every distinct PLMN observed so far, in increasing order.
    pub fn observed_plmns(&self) -> (res: &Vec<Plmn>)
        ensures
            plmn_views(res@).to_set() == self@.observed,
            plmns_sorted(plmn_views(res@)),
    {
        proof {
            use_type_invariant(self);
        }
        &self.observed_plmns
    }
}

} // verus!
