//! Map a PLMN (MCC + MNC) to a human-readable operator and country.
//!
//! The serving cell's PLMN is recovered as MCC/MNC digit strings; this module
//! turns them into names for display and reporting (e.g. `310-260` ->
//! "T-Mobile US (United States)").
//!
//! This is a curated table, not an exhaustive registry: the US mobile network
//! operators, the largest operators of a few other markets, and a broad MCC ->
//! country map so that an unlisted operator still resolves to a country.
//! MVNOs resolve to their host network, since a cell broadcasts the host
//! network's PLMN. Source: the public ITU-T E.212 MCC/MNC assignments.

use vstd::prelude::*;

use crate::text::str_eq;

verus! {

/// A resolved operator and/or country for a PLMN. Either field may be `None`
/// when only one is known (an unlisted MNC under a known MCC still yields a
/// country).
#[derive(Debug, Clone, Copy)]
pub struct Carrier {
    /// The mobile network operator, if the exact MCC+MNC is known.
    pub operator: Option<&'static str>,
    /// The country the MCC is assigned to, if known.
    pub country: Option<&'static str>,
}

/// The characters of a carrier's operator and country names.
pub struct CarrierView {
    pub operator: Option<Seq<char>>,
    pub country: Option<Seq<char>>,
}

impl View for Carrier {
    type V = CarrierView;

    open spec fn view(&self) -> CarrierView {
        CarrierView { operator: self.operator.deep_view(), country: self.country.deep_view() }
    }
}

/// The display text of a carrier: "op (country)", "op", "Unknown operator
/// (country)", or nothing when wholly unknown.
pub open spec fn carrier_display(c: CarrierView) -> Option<Seq<char>> {
    match (c.operator, c.country) {
        (Some(op), Some(co)) => Some(op + " ("@ + co + ")"@),
        (Some(op), None) => Some(op),
        (None, Some(co)) => Some("Unknown operator ("@ + co + ")"@),
        (None, None) => None,
    }
}

impl Carrier {
    /// True when nothing could be resolved for the PLMN.
    pub fn is_unknown(&self) -> (res: bool)
        ensures
            res == (self.operator is None && self.country is None),
    {
        self.operator.is_none() && self.country.is_none()
    }

    /// A compact display string, e.g. "T-Mobile US (United States)",
    /// "Unknown operator (United States)", or `None` if wholly unknown.
    pub fn display(&self) -> (res: Option<String>)
        ensures
            res.deep_view() == carrier_display(self@),
            res is None <==> (self.operator is None && self.country is None),
    {
        match (self.operator, self.country) {
            (Some(op), Some(c)) => {
                let mut s = String::from_str(op);
                s.append(" (");
                s.append(c);
                s.append(")");
                Some(s)
            },
            (Some(op), None) => Some(String::from_str(op)),
            (None, Some(c)) => {
                let mut s = String::from_str("Unknown operator (");
                s.append(c);
                s.append(")");
                Some(s)
            },
            (None, None) => None,
        }
    }
}

/// Resolve a PLMN to an operator and/or country. `mcc` is 3 digits; `mnc` is
/// 2 or 3 digits, with leading zeros significant.
pub fn lookup(mcc: &str, mnc: &str) -> (res: Carrier)
    ensures
        res@.operator == spec_operator_name(mcc@, mnc@),
        res@.country == spec_country_name(mcc@),
{
    Carrier { operator: operator_name(mcc, mnc), country: country_name(mcc) }
}

/// Whether the PLMN is exactly `m`-`n`.
fn plmn_is(mcc: &str, mnc: &str, m: &str, n: &str) -> (res: bool)
    ensures
        res == (mcc@ == m@ && mnc@ == n@),
{
    str_eq(mcc, m) && str_eq(mnc, n)
}

/// The PLMNs that belong to Verizon Wireless.
pub open spec fn is_verizon_wireless(mcc: Seq<char>, mnc: Seq<char>) -> bool {
    ||| (mcc == "310"@ && mnc == "004"@)
    ||| (mcc == "310"@ && mnc == "005"@)
    ||| (mcc == "310"@ && mnc == "006"@)
    ||| (mcc == "310"@ && mnc == "010"@)
    ||| (mcc == "310"@ && mnc == "012"@)
    ||| (mcc == "310"@ && mnc == "013"@)
    ||| (mcc == "311"@ && mnc == "110"@)
    ||| (mcc == "311"@ && mnc == "270"@)
    ||| (mcc == "311"@ && mnc == "271"@)
    ||| (mcc == "311"@ && mnc == "272"@)
    ||| (mcc == "311"@ && mnc == "273"@)
    ||| (mcc == "311"@ && mnc == "274"@)
    ||| (mcc == "311"@ && mnc == "275"@)
    ||| (mcc == "311"@ && mnc == "276"@)
    ||| (mcc == "311"@ && mnc == "277"@)
    ||| (mcc == "311"@ && mnc == "278"@)
    ||| (mcc == "311"@ && mnc == "279"@)
    ||| (mcc == "311"@ && mnc == "280"@)
    ||| (mcc == "311"@ && mnc == "281"@)
    ||| (mcc == "311"@ && mnc == "282"@)
    ||| (mcc == "311"@ && mnc == "283"@)
    ||| (mcc == "311"@ && mnc == "284"@)
    ||| (mcc == "311"@ && mnc == "285"@)
    ||| (mcc == "311"@ && mnc == "286"@)
    ||| (mcc == "311"@ && mnc == "287"@)
    ||| (mcc == "311"@ && mnc == "288"@)
    ||| (mcc == "311"@ && mnc == "289"@)
    ||| (mcc == "311"@ && mnc == "390"@)
    ||| (mcc == "311"@ && mnc == "480"@)
    ||| (mcc == "311"@ && mnc == "481"@)
    ||| (mcc == "311"@ && mnc == "482"@)
    ||| (mcc == "311"@ && mnc == "483"@)
    ||| (mcc == "311"@ && mnc == "484"@)
    ||| (mcc == "311"@ && mnc == "485"@)
    ||| (mcc == "311"@ && mnc == "486"@)
    ||| (mcc == "311"@ && mnc == "487"@)
    ||| (mcc == "311"@ && mnc == "488"@)
    ||| (mcc == "311"@ && mnc == "489"@)
    ||| (mcc == "310"@ && mnc == "590"@)
    ||| (mcc == "310"@ && mnc == "890"@)
    ||| (mcc == "310"@ && mnc == "910"@)
}

/// The PLMNs that belong to AT&T.
pub open spec fn is_at_t(mcc: Seq<char>, mnc: Seq<char>) -> bool {
    ||| (mcc == "310"@ && mnc == "070"@)
    ||| (mcc == "310"@ && mnc == "090"@)
    ||| (mcc == "310"@ && mnc == "150"@)
    ||| (mcc == "310"@ && mnc == "170"@)
    ||| (mcc == "310"@ && mnc == "280"@)
    ||| (mcc == "310"@ && mnc == "380"@)
    ||| (mcc == "310"@ && mnc == "410"@)
    ||| (mcc == "310"@ && mnc == "560"@)
    ||| (mcc == "310"@ && mnc == "680"@)
    ||| (mcc == "310"@ && mnc == "980"@)
    ||| (mcc == "311"@ && mnc == "180"@)
    ||| (mcc == "310"@ && mnc == "016"@)
    ||| (mcc == "310"@ && mnc == "038"@)
}

/// The PLMNs that belong to T-Mobile US.
pub open spec fn is_t_mobile_us(mcc: Seq<char>, mnc: Seq<char>) -> bool {
    ||| (mcc == "310"@ && mnc == "026"@)
    ||| (mcc == "310"@ && mnc == "160"@)
    ||| (mcc == "310"@ && mnc == "200"@)
    ||| (mcc == "310"@ && mnc == "210"@)
    ||| (mcc == "310"@ && mnc == "220"@)
    ||| (mcc == "310"@ && mnc == "230"@)
    ||| (mcc == "310"@ && mnc == "240"@)
    ||| (mcc == "310"@ && mnc == "250"@)
    ||| (mcc == "310"@ && mnc == "260"@)
    ||| (mcc == "310"@ && mnc == "270"@)
    ||| (mcc == "310"@ && mnc == "300"@)
    ||| (mcc == "310"@ && mnc == "310"@)
    ||| (mcc == "310"@ && mnc == "490"@)
    ||| (mcc == "310"@ && mnc == "530"@)
    ||| (mcc == "310"@ && mnc == "580"@)
    ||| (mcc == "310"@ && mnc == "660"@)
    ||| (mcc == "310"@ && mnc == "800"@)
    ||| (mcc == "311"@ && mnc == "660"@)
    ||| (mcc == "310"@ && mnc == "031"@)
}

/// The PLMNs that belong to Sprint (T-Mobile).
pub open spec fn is_sprint_t_mobile(mcc: Seq<char>, mnc: Seq<char>) -> bool {
    ||| (mcc == "310"@ && mnc == "120"@)
    ||| (mcc == "311"@ && mnc == "490"@)
    ||| (mcc == "311"@ && mnc == "870"@)
    ||| (mcc == "311"@ && mnc == "880"@)
    ||| (mcc == "312"@ && mnc == "530"@)
    ||| (mcc == "316"@ && mnc == "010"@)
}

/// The PLMNs that belong to UScellular.
pub open spec fn is_uscellular(mcc: Seq<char>, mnc: Seq<char>) -> bool {
    ||| (mcc == "310"@ && mnc == "730"@)
    ||| (mcc == "311"@ && mnc == "220"@)
    ||| (mcc == "311"@ && mnc == "580"@)
}

/// The PLMNs that belong to Dish Wireless.
pub open spec fn is_dish_wireless(mcc: Seq<char>, mnc: Seq<char>) -> bool {
    ||| (mcc == "313"@ && mnc == "340"@)
    ||| (mcc == "310"@ && mnc == "390"@)
}

/// The PLMNs that belong to Google Fi.
pub open spec fn is_google_fi(mcc: Seq<char>, mnc: Seq<char>) -> bool {
    ||| (mcc == "311"@ && mnc == "070"@)
}

/// The PLMNs that belong to Telus.
pub open spec fn is_telus(mcc: Seq<char>, mnc: Seq<char>) -> bool {
    ||| (mcc == "302"@ && mnc == "220"@)
    ||| (mcc == "302"@ && mnc == "221"@)
}

/// The PLMNs that belong to Bell.
pub open spec fn is_bell(mcc: Seq<char>, mnc: Seq<char>) -> bool {
    ||| (mcc == "302"@ && mnc == "610"@)
    ||| (mcc == "302"@ && mnc == "620"@)
}

/// The PLMNs that belong to Rogers.
pub open spec fn is_rogers(mcc: Seq<char>, mnc: Seq<char>) -> bool {
    ||| (mcc == "302"@ && mnc == "720"@)
    ||| (mcc == "302"@ && mnc == "721"@)
}

/// The PLMNs that belong to Freedom Mobile.
pub open spec fn is_freedom_mobile(mcc: Seq<char>, mnc: Seq<char>) -> bool {
    ||| (mcc == "302"@ && mnc == "490"@)
    ||| (mcc == "302"@ && mnc == "780"@)
}

/// The PLMNs that belong to Telcel.
pub open spec fn is_telcel(mcc: Seq<char>, mnc: Seq<char>) -> bool {
    ||| (mcc == "334"@ && mnc == "020"@)
    ||| (mcc == "334"@ && mnc == "030"@)
    ||| (mcc == "334"@ && mnc == "050"@)
}

/// The PLMNs that belong to AT&T Mexico.
pub open spec fn is_at_t_mexico(mcc: Seq<char>, mnc: Seq<char>) -> bool {
    ||| (mcc == "334"@ && mnc == "040"@)
    ||| (mcc == "334"@ && mnc == "090"@)
}

/// The PLMNs that belong to Movistar Mexico.
pub open spec fn is_movistar_mexico(mcc: Seq<char>, mnc: Seq<char>) -> bool {
    ||| (mcc == "334"@ && mnc == "070"@)
    ||| (mcc == "334"@ && mnc == "080"@)
}

/// The PLMNs that belong to O2 UK.
pub open spec fn is_o2_uk(mcc: Seq<char>, mnc: Seq<char>) -> bool {
    ||| (mcc == "234"@ && mnc == "10"@)
    ||| (mcc == "234"@ && mnc == "11"@)
    ||| (mcc == "234"@ && mnc == "01"@)
}

/// The PLMNs that belong to Vodafone UK.
pub open spec fn is_vodafone_uk(mcc: Seq<char>, mnc: Seq<char>) -> bool {
    ||| (mcc == "234"@ && mnc == "15"@)
    ||| (mcc == "234"@ && mnc == "91"@)
}

/// The PLMNs that belong to 3 UK.
pub open spec fn is_3_uk(mcc: Seq<char>, mnc: Seq<char>) -> bool {
    ||| (mcc == "234"@ && mnc == "20"@)
    ||| (mcc == "234"@ && mnc == "94"@)
}

/// The PLMNs that belong to EE.
pub open spec fn is_ee(mcc: Seq<char>, mnc: Seq<char>) -> bool {
    ||| (mcc == "234"@ && mnc == "30"@)
    ||| (mcc == "234"@ && mnc == "31"@)
    ||| (mcc == "234"@ && mnc == "32"@)
    ||| (mcc == "234"@ && mnc == "33"@)
    ||| (mcc == "234"@ && mnc == "34"@)
}

/// The PLMNs that belong to Telekom.de.
pub open spec fn is_telekom_de(mcc: Seq<char>, mnc: Seq<char>) -> bool {
    ||| (mcc == "262"@ && mnc == "01"@)
    ||| (mcc == "262"@ && mnc == "06"@)
}

/// The PLMNs that belong to Vodafone.de.
pub open spec fn is_vodafone_de(mcc: Seq<char>, mnc: Seq<char>) -> bool {
    ||| (mcc == "262"@ && mnc == "02"@)
    ||| (mcc == "262"@ && mnc == "04"@)
}

/// The PLMNs that belong to o2.de.
pub open spec fn is_o2_de(mcc: Seq<char>, mnc: Seq<char>) -> bool {
    ||| (mcc == "262"@ && mnc == "03"@)
    ||| (mcc == "262"@ && mnc == "05"@)
    ||| (mcc == "262"@ && mnc == "07"@)
    ||| (mcc == "262"@ && mnc == "08"@)
}

/// The PLMNs that belong to Orange France.
pub open spec fn is_orange_france(mcc: Seq<char>, mnc: Seq<char>) -> bool {
    ||| (mcc == "208"@ && mnc == "01"@)
    ||| (mcc == "208"@ && mnc == "02"@)
    ||| (mcc == "208"@ && mnc == "91"@)
}

/// The PLMNs that belong to SFR.
pub open spec fn is_sfr(mcc: Seq<char>, mnc: Seq<char>) -> bool {
    ||| (mcc == "208"@ && mnc == "10"@)
    ||| (mcc == "208"@ && mnc == "11"@)
    ||| (mcc == "208"@ && mnc == "13"@)
}

/// The PLMNs that belong to Bouygues Telecom.
pub open spec fn is_bouygues_telecom(mcc: Seq<char>, mnc: Seq<char>) -> bool {
    ||| (mcc == "208"@ && mnc == "20"@)
    ||| (mcc == "208"@ && mnc == "21"@)
}

/// The PLMNs that belong to Free Mobile.
pub open spec fn is_free_mobile(mcc: Seq<char>, mnc: Seq<char>) -> bool {
    ||| (mcc == "208"@ && mnc == "15"@)
    ||| (mcc == "208"@ && mnc == "16"@)
}

/// The PLMNs that belong to Vodafone NL.
pub open spec fn is_vodafone_nl(mcc: Seq<char>, mnc: Seq<char>) -> bool {
    ||| (mcc == "204"@ && mnc == "04"@)
    ||| (mcc == "204"@ && mnc == "02"@)
}

/// The PLMNs that belong to KPN.
pub open spec fn is_kpn(mcc: Seq<char>, mnc: Seq<char>) -> bool {
    ||| (mcc == "204"@ && mnc == "08"@)
    ||| (mcc == "204"@ && mnc == "10"@)
}

/// The PLMNs that belong to T-Mobile NL.
pub open spec fn is_t_mobile_nl(mcc: Seq<char>, mnc: Seq<char>) -> bool {
    ||| (mcc == "204"@ && mnc == "16"@)
    ||| (mcc == "204"@ && mnc == "20"@)
}

/// The PLMNs that belong to Movistar.
pub open spec fn is_movistar(mcc: Seq<char>, mnc: Seq<char>) -> bool {
    ||| (mcc == "214"@ && mnc == "07"@)
    ||| (mcc == "214"@ && mnc == "05"@)
}

/// The PLMNs that belong to Vodafone ES.
pub open spec fn is_vodafone_es(mcc: Seq<char>, mnc: Seq<char>) -> bool {
    ||| (mcc == "214"@ && mnc == "01"@)
    ||| (mcc == "214"@ && mnc == "06"@)
}

/// The PLMNs that belong to Orange ES.
pub open spec fn is_orange_es(mcc: Seq<char>, mnc: Seq<char>) -> bool {
    ||| (mcc == "214"@ && mnc == "03"@)
    ||| (mcc == "214"@ && mnc == "09"@)
}

/// The PLMNs that belong to TIM.
pub open spec fn is_tim(mcc: Seq<char>, mnc: Seq<char>) -> bool {
    ||| (mcc == "222"@ && mnc == "01"@)
}

/// The PLMNs that belong to Vodafone IT.
pub open spec fn is_vodafone_it(mcc: Seq<char>, mnc: Seq<char>) -> bool {
    ||| (mcc == "222"@ && mnc == "10"@)
}

/// The PLMNs that belong to WindTre.
pub open spec fn is_windtre(mcc: Seq<char>, mnc: Seq<char>) -> bool {
    ||| (mcc == "222"@ && mnc == "88"@)
}

/// The PLMNs that belong to Iliad.
pub open spec fn is_iliad(mcc: Seq<char>, mnc: Seq<char>) -> bool {
    ||| (mcc == "222"@ && mnc == "50"@)
}

/// The PLMNs that belong to Telstra.
pub open spec fn is_telstra(mcc: Seq<char>, mnc: Seq<char>) -> bool {
    ||| (mcc == "505"@ && mnc == "01"@)
}

/// The PLMNs that belong to Optus.
pub open spec fn is_optus(mcc: Seq<char>, mnc: Seq<char>) -> bool {
    ||| (mcc == "505"@ && mnc == "02"@)
    ||| (mcc == "505"@ && mnc == "03"@)
}

/// The PLMNs that belong to Vodafone AU.
pub open spec fn is_vodafone_au(mcc: Seq<char>, mnc: Seq<char>) -> bool {
    ||| (mcc == "505"@ && mnc == "06"@)
}

/// The operator of an exact MCC+MNC, if listed.
pub open spec fn spec_operator_name(mcc: Seq<char>, mnc: Seq<char>) -> Option<Seq<char>> {
    if is_verizon_wireless(mcc, mnc) {
        Some("Verizon Wireless"@)
    } else if is_at_t(mcc, mnc) {
        Some("AT&T"@)
    } else if is_t_mobile_us(mcc, mnc) {
        Some("T-Mobile US"@)
    } else if is_sprint_t_mobile(mcc, mnc) {
        Some("Sprint (T-Mobile)"@)
    } else if is_uscellular(mcc, mnc) {
        Some("UScellular"@)
    } else if is_dish_wireless(mcc, mnc) {
        Some("Dish Wireless"@)
    } else if is_google_fi(mcc, mnc) {
        Some("Google Fi"@)
    } else if is_telus(mcc, mnc) {
        Some("Telus"@)
    } else if is_bell(mcc, mnc) {
        Some("Bell"@)
    } else if is_rogers(mcc, mnc) {
        Some("Rogers"@)
    } else if is_freedom_mobile(mcc, mnc) {
        Some("Freedom Mobile"@)
    } else if is_telcel(mcc, mnc) {
        Some("Telcel"@)
    } else if is_at_t_mexico(mcc, mnc) {
        Some("AT&T Mexico"@)
    } else if is_movistar_mexico(mcc, mnc) {
        Some("Movistar Mexico"@)
    } else if is_o2_uk(mcc, mnc) {
        Some("O2 UK"@)
    } else if is_vodafone_uk(mcc, mnc) {
        Some("Vodafone UK"@)
    } else if is_3_uk(mcc, mnc) {
        Some("3 UK"@)
    } else if is_ee(mcc, mnc) {
        Some("EE"@)
    } else if is_telekom_de(mcc, mnc) {
        Some("Telekom.de"@)
    } else if is_vodafone_de(mcc, mnc) {
        Some("Vodafone.de"@)
    } else if is_o2_de(mcc, mnc) {
        Some("o2.de"@)
    } else if is_orange_france(mcc, mnc) {
        Some("Orange France"@)
    } else if is_sfr(mcc, mnc) {
        Some("SFR"@)
    } else if is_bouygues_telecom(mcc, mnc) {
        Some("Bouygues Telecom"@)
    } else if is_free_mobile(mcc, mnc) {
        Some("Free Mobile"@)
    } else if is_vodafone_nl(mcc, mnc) {
        Some("Vodafone NL"@)
    } else if is_kpn(mcc, mnc) {
        Some("KPN"@)
    } else if is_t_mobile_nl(mcc, mnc) {
        Some("T-Mobile NL"@)
    } else if is_movistar(mcc, mnc) {
        Some("Movistar"@)
    } else if is_vodafone_es(mcc, mnc) {
        Some("Vodafone ES"@)
    } else if is_orange_es(mcc, mnc) {
        Some("Orange ES"@)
    } else if is_tim(mcc, mnc) {
        Some("TIM"@)
    } else if is_vodafone_it(mcc, mnc) {
        Some("Vodafone IT"@)
    } else if is_windtre(mcc, mnc) {
        Some("WindTre"@)
    } else if is_iliad(mcc, mnc) {
        Some("Iliad"@)
    } else if is_telstra(mcc, mnc) {
        Some("Telstra"@)
    } else if is_optus(mcc, mnc) {
        Some("Optus"@)
    } else if is_vodafone_au(mcc, mnc) {
        Some("Vodafone AU"@)
    } else {
        None
    }
}

/// The operator for an exact MCC+MNC, if listed. MVNOs map to their host
/// network.
pub fn operator_name(mcc: &str, mnc: &str) -> (res: Option<&'static str>)
    ensures
        res.deep_view() == spec_operator_name(mcc@, mnc@),
{
    if plmn_is(mcc, mnc, "310", "004") || plmn_is(mcc, mnc, "310", "005") || plmn_is(mcc, mnc, "310", "006") || plmn_is(mcc, mnc, "310", "010") || plmn_is(mcc, mnc, "310", "012") || plmn_is(mcc, mnc, "310", "013") || plmn_is(mcc, mnc, "311", "110") || plmn_is(mcc, mnc, "311", "270") || plmn_is(mcc, mnc, "311", "271") || plmn_is(mcc, mnc, "311", "272") || plmn_is(mcc, mnc, "311", "273") || plmn_is(mcc, mnc, "311", "274") || plmn_is(mcc, mnc, "311", "275") || plmn_is(mcc, mnc, "311", "276") || plmn_is(mcc, mnc, "311", "277") || plmn_is(mcc, mnc, "311", "278") || plmn_is(mcc, mnc, "311", "279") || plmn_is(mcc, mnc, "311", "280") || plmn_is(mcc, mnc, "311", "281") || plmn_is(mcc, mnc, "311", "282") || plmn_is(mcc, mnc, "311", "283") || plmn_is(mcc, mnc, "311", "284") || plmn_is(mcc, mnc, "311", "285") || plmn_is(mcc, mnc, "311", "286") || plmn_is(mcc, mnc, "311", "287") || plmn_is(mcc, mnc, "311", "288") || plmn_is(mcc, mnc, "311", "289") || plmn_is(mcc, mnc, "311", "390") || plmn_is(mcc, mnc, "311", "480") || plmn_is(mcc, mnc, "311", "481") || plmn_is(mcc, mnc, "311", "482") || plmn_is(mcc, mnc, "311", "483") || plmn_is(mcc, mnc, "311", "484") || plmn_is(mcc, mnc, "311", "485") || plmn_is(mcc, mnc, "311", "486") || plmn_is(mcc, mnc, "311", "487") || plmn_is(mcc, mnc, "311", "488") || plmn_is(mcc, mnc, "311", "489") || plmn_is(mcc, mnc, "310", "590") || plmn_is(mcc, mnc, "310", "890") || plmn_is(mcc, mnc, "310", "910") {
        Some("Verizon Wireless")
    } else if plmn_is(mcc, mnc, "310", "070") || plmn_is(mcc, mnc, "310", "090") || plmn_is(mcc, mnc, "310", "150") || plmn_is(mcc, mnc, "310", "170") || plmn_is(mcc, mnc, "310", "280") || plmn_is(mcc, mnc, "310", "380") || plmn_is(mcc, mnc, "310", "410") || plmn_is(mcc, mnc, "310", "560") || plmn_is(mcc, mnc, "310", "680") || plmn_is(mcc, mnc, "310", "980") || plmn_is(mcc, mnc, "311", "180") || plmn_is(mcc, mnc, "310", "016") || plmn_is(mcc, mnc, "310", "038") {
        Some("AT&T")
    } else if plmn_is(mcc, mnc, "310", "026") || plmn_is(mcc, mnc, "310", "160") || plmn_is(mcc, mnc, "310", "200") || plmn_is(mcc, mnc, "310", "210") || plmn_is(mcc, mnc, "310", "220") || plmn_is(mcc, mnc, "310", "230") || plmn_is(mcc, mnc, "310", "240") || plmn_is(mcc, mnc, "310", "250") || plmn_is(mcc, mnc, "310", "260") || plmn_is(mcc, mnc, "310", "270") || plmn_is(mcc, mnc, "310", "300") || plmn_is(mcc, mnc, "310", "310") || plmn_is(mcc, mnc, "310", "490") || plmn_is(mcc, mnc, "310", "530") || plmn_is(mcc, mnc, "310", "580") || plmn_is(mcc, mnc, "310", "660") || plmn_is(mcc, mnc, "310", "800") || plmn_is(mcc, mnc, "311", "660") || plmn_is(mcc, mnc, "310", "031") {
        Some("T-Mobile US")
    } else if plmn_is(mcc, mnc, "310", "120") || plmn_is(mcc, mnc, "311", "490") || plmn_is(mcc, mnc, "311", "870") || plmn_is(mcc, mnc, "311", "880") || plmn_is(mcc, mnc, "312", "530") || plmn_is(mcc, mnc, "316", "010") {
        Some("Sprint (T-Mobile)")
    } else if plmn_is(mcc, mnc, "310", "730") || plmn_is(mcc, mnc, "311", "220") || plmn_is(mcc, mnc, "311", "580") {
        Some("UScellular")
    } else if plmn_is(mcc, mnc, "313", "340") || plmn_is(mcc, mnc, "310", "390") {
        Some("Dish Wireless")
    } else if plmn_is(mcc, mnc, "311", "070") {
        Some("Google Fi")
    } else if plmn_is(mcc, mnc, "302", "220") || plmn_is(mcc, mnc, "302", "221") {
        Some("Telus")
    } else if plmn_is(mcc, mnc, "302", "610") || plmn_is(mcc, mnc, "302", "620") {
        Some("Bell")
    } else if plmn_is(mcc, mnc, "302", "720") || plmn_is(mcc, mnc, "302", "721") {
        Some("Rogers")
    } else if plmn_is(mcc, mnc, "302", "490") || plmn_is(mcc, mnc, "302", "780") {
        Some("Freedom Mobile")
    } else if plmn_is(mcc, mnc, "334", "020") || plmn_is(mcc, mnc, "334", "030") || plmn_is(mcc, mnc, "334", "050") {
        Some("Telcel")
    } else if plmn_is(mcc, mnc, "334", "040") || plmn_is(mcc, mnc, "334", "090") {
        Some("AT&T Mexico")
    } else if plmn_is(mcc, mnc, "334", "070") || plmn_is(mcc, mnc, "334", "080") {
        Some("Movistar Mexico")
    } else if plmn_is(mcc, mnc, "234", "10") || plmn_is(mcc, mnc, "234", "11") || plmn_is(mcc, mnc, "234", "01") {
        Some("O2 UK")
    } else if plmn_is(mcc, mnc, "234", "15") || plmn_is(mcc, mnc, "234", "91") {
        Some("Vodafone UK")
    } else if plmn_is(mcc, mnc, "234", "20") || plmn_is(mcc, mnc, "234", "94") {
        Some("3 UK")
    } else if plmn_is(mcc, mnc, "234", "30") || plmn_is(mcc, mnc, "234", "31") || plmn_is(mcc, mnc, "234", "32") || plmn_is(mcc, mnc, "234", "33") || plmn_is(mcc, mnc, "234", "34") {
        Some("EE")
    } else if plmn_is(mcc, mnc, "262", "01") || plmn_is(mcc, mnc, "262", "06") {
        Some("Telekom.de")
    } else if plmn_is(mcc, mnc, "262", "02") || plmn_is(mcc, mnc, "262", "04") {
        Some("Vodafone.de")
    } else if plmn_is(mcc, mnc, "262", "03") || plmn_is(mcc, mnc, "262", "05") || plmn_is(mcc, mnc, "262", "07") || plmn_is(mcc, mnc, "262", "08") {
        Some("o2.de")
    } else if plmn_is(mcc, mnc, "208", "01") || plmn_is(mcc, mnc, "208", "02") || plmn_is(mcc, mnc, "208", "91") {
        Some("Orange France")
    } else if plmn_is(mcc, mnc, "208", "10") || plmn_is(mcc, mnc, "208", "11") || plmn_is(mcc, mnc, "208", "13") {
        Some("SFR")
    } else if plmn_is(mcc, mnc, "208", "20") || plmn_is(mcc, mnc, "208", "21") {
        Some("Bouygues Telecom")
    } else if plmn_is(mcc, mnc, "208", "15") || plmn_is(mcc, mnc, "208", "16") {
        Some("Free Mobile")
    } else if plmn_is(mcc, mnc, "204", "04") || plmn_is(mcc, mnc, "204", "02") {
        Some("Vodafone NL")
    } else if plmn_is(mcc, mnc, "204", "08") || plmn_is(mcc, mnc, "204", "10") {
        Some("KPN")
    } else if plmn_is(mcc, mnc, "204", "16") || plmn_is(mcc, mnc, "204", "20") {
        Some("T-Mobile NL")
    } else if plmn_is(mcc, mnc, "214", "07") || plmn_is(mcc, mnc, "214", "05") {
        Some("Movistar")
    } else if plmn_is(mcc, mnc, "214", "01") || plmn_is(mcc, mnc, "214", "06") {
        Some("Vodafone ES")
    } else if plmn_is(mcc, mnc, "214", "03") || plmn_is(mcc, mnc, "214", "09") {
        Some("Orange ES")
    } else if plmn_is(mcc, mnc, "222", "01") {
        Some("TIM")
    } else if plmn_is(mcc, mnc, "222", "10") {
        Some("Vodafone IT")
    } else if plmn_is(mcc, mnc, "222", "88") {
        Some("WindTre")
    } else if plmn_is(mcc, mnc, "222", "50") {
        Some("Iliad")
    } else if plmn_is(mcc, mnc, "505", "01") {
        Some("Telstra")
    } else if plmn_is(mcc, mnc, "505", "02") || plmn_is(mcc, mnc, "505", "03") {
        Some("Optus")
    } else if plmn_is(mcc, mnc, "505", "06") {
        Some("Vodafone AU")
    } else {
        None
    }
}

/// The country an MCC is assigned to, if listed.
pub open spec fn spec_country_name(mcc: Seq<char>) -> Option<Seq<char>> {
    if mcc == "310"@ || mcc == "311"@ || mcc == "312"@ || mcc == "313"@ || mcc == "314"@ || mcc == "315"@ || mcc == "316"@ {
        Some("United States"@)
    } else if mcc == "302"@ {
        Some("Canada"@)
    } else if mcc == "334"@ {
        Some("Mexico"@)
    } else if mcc == "234"@ || mcc == "235"@ {
        Some("United Kingdom"@)
    } else if mcc == "262"@ {
        Some("Germany"@)
    } else if mcc == "208"@ {
        Some("France"@)
    } else if mcc == "204"@ {
        Some("Netherlands"@)
    } else if mcc == "214"@ {
        Some("Spain"@)
    } else if mcc == "222"@ {
        Some("Italy"@)
    } else if mcc == "232"@ {
        Some("Austria"@)
    } else if mcc == "206"@ {
        Some("Belgium"@)
    } else if mcc == "228"@ {
        Some("Switzerland"@)
    } else if mcc == "238"@ {
        Some("Denmark"@)
    } else if mcc == "240"@ {
        Some("Sweden"@)
    } else if mcc == "242"@ {
        Some("Norway"@)
    } else if mcc == "244"@ {
        Some("Finland"@)
    } else if mcc == "268"@ {
        Some("Portugal"@)
    } else if mcc == "272"@ {
        Some("Ireland"@)
    } else if mcc == "202"@ {
        Some("Greece"@)
    } else if mcc == "260"@ {
        Some("Poland"@)
    } else if mcc == "230"@ {
        Some("Czech Republic"@)
    } else if mcc == "216"@ {
        Some("Hungary"@)
    } else if mcc == "226"@ {
        Some("Romania"@)
    } else if mcc == "255"@ {
        Some("Ukraine"@)
    } else if mcc == "250"@ {
        Some("Russia"@)
    } else if mcc == "286"@ {
        Some("Turkey"@)
    } else if mcc == "425"@ {
        Some("Israel"@)
    } else if mcc == "460"@ {
        Some("China"@)
    } else if mcc == "440"@ || mcc == "441"@ {
        Some("Japan"@)
    } else if mcc == "450"@ {
        Some("South Korea"@)
    } else if mcc == "404"@ || mcc == "405"@ || mcc == "406"@ {
        Some("India"@)
    } else if mcc == "505"@ {
        Some("Australia"@)
    } else if mcc == "530"@ {
        Some("New Zealand"@)
    } else if mcc == "525"@ {
        Some("Singapore"@)
    } else if mcc == "454"@ {
        Some("Hong Kong"@)
    } else if mcc == "466"@ {
        Some("Taiwan"@)
    } else if mcc == "502"@ {
        Some("Malaysia"@)
    } else if mcc == "510"@ {
        Some("Indonesia"@)
    } else if mcc == "515"@ {
        Some("Philippines"@)
    } else if mcc == "520"@ {
        Some("Thailand"@)
    } else if mcc == "452"@ {
        Some("Vietnam"@)
    } else if mcc == "724"@ || mcc == "722"@ {
        Some("Brazil"@)
    } else if mcc == "730"@ {
        Some("Chile"@)
    } else if mcc == "732"@ {
        Some("Colombia"@)
    } else if mcc == "716"@ {
        Some("Peru"@)
    } else if mcc == "655"@ {
        Some("South Africa"@)
    } else if mcc == "621"@ {
        Some("Nigeria"@)
    } else if mcc == "639"@ {
        Some("Kenya"@)
    } else if mcc == "602"@ {
        Some("Egypt"@)
    } else if mcc == "424"@ {
        Some("United Arab Emirates"@)
    } else if mcc == "420"@ {
        Some("Saudi Arabia"@)
    } else {
        None
    }
}

/// The country an MCC is assigned to. Some countries hold several MCCs (the
/// US uses 310-316); each is listed.
pub fn country_name(mcc: &str) -> (res: Option<&'static str>)
    ensures
        res.deep_view() == spec_country_name(mcc@),
{
    if str_eq(mcc, "310") || str_eq(mcc, "311") || str_eq(mcc, "312") || str_eq(mcc, "313") || str_eq(mcc, "314") || str_eq(mcc, "315") || str_eq(mcc, "316") {
        Some("United States")
    } else if str_eq(mcc, "302") {
        Some("Canada")
    } else if str_eq(mcc, "334") {
        Some("Mexico")
    } else if str_eq(mcc, "234") || str_eq(mcc, "235") {
        Some("United Kingdom")
    } else if str_eq(mcc, "262") {
        Some("Germany")
    } else if str_eq(mcc, "208") {
        Some("France")
    } else if str_eq(mcc, "204") {
        Some("Netherlands")
    } else if str_eq(mcc, "214") {
        Some("Spain")
    } else if str_eq(mcc, "222") {
        Some("Italy")
    } else if str_eq(mcc, "232") {
        Some("Austria")
    } else if str_eq(mcc, "206") {
        Some("Belgium")
    } else if str_eq(mcc, "228") {
        Some("Switzerland")
    } else if str_eq(mcc, "238") {
        Some("Denmark")
    } else if str_eq(mcc, "240") {
        Some("Sweden")
    } else if str_eq(mcc, "242") {
        Some("Norway")
    } else if str_eq(mcc, "244") {
        Some("Finland")
    } else if str_eq(mcc, "268") {
        Some("Portugal")
    } else if str_eq(mcc, "272") {
        Some("Ireland")
    } else if str_eq(mcc, "202") {
        Some("Greece")
    } else if str_eq(mcc, "260") {
        Some("Poland")
    } else if str_eq(mcc, "230") {
        Some("Czech Republic")
    } else if str_eq(mcc, "216") {
        Some("Hungary")
    } else if str_eq(mcc, "226") {
        Some("Romania")
    } else if str_eq(mcc, "255") {
        Some("Ukraine")
    } else if str_eq(mcc, "250") {
        Some("Russia")
    } else if str_eq(mcc, "286") {
        Some("Turkey")
    } else if str_eq(mcc, "425") {
        Some("Israel")
    } else if str_eq(mcc, "460") {
        Some("China")
    } else if str_eq(mcc, "440") || str_eq(mcc, "441") {
        Some("Japan")
    } else if str_eq(mcc, "450") {
        Some("South Korea")
    } else if str_eq(mcc, "404") || str_eq(mcc, "405") || str_eq(mcc, "406") {
        Some("India")
    } else if str_eq(mcc, "505") {
        Some("Australia")
    } else if str_eq(mcc, "530") {
        Some("New Zealand")
    } else if str_eq(mcc, "525") {
        Some("Singapore")
    } else if str_eq(mcc, "454") {
        Some("Hong Kong")
    } else if str_eq(mcc, "466") {
        Some("Taiwan")
    } else if str_eq(mcc, "502") {
        Some("Malaysia")
    } else if str_eq(mcc, "510") {
        Some("Indonesia")
    } else if str_eq(mcc, "515") {
        Some("Philippines")
    } else if str_eq(mcc, "520") {
        Some("Thailand")
    } else if str_eq(mcc, "452") {
        Some("Vietnam")
    } else if str_eq(mcc, "724") || str_eq(mcc, "722") {
        Some("Brazil")
    } else if str_eq(mcc, "730") {
        Some("Chile")
    } else if str_eq(mcc, "732") {
        Some("Colombia")
    } else if str_eq(mcc, "716") {
        Some("Peru")
    } else if str_eq(mcc, "655") {
        Some("South Africa")
    } else if str_eq(mcc, "621") {
        Some("Nigeria")
    } else if str_eq(mcc, "639") {
        Some("Kenya")
    } else if str_eq(mcc, "602") {
        Some("Egypt")
    } else if str_eq(mcc, "424") {
        Some("United Arab Emirates")
    } else if str_eq(mcc, "420") {
        Some("Saudi Arabia")
    } else {
        None
    }
}

/// Every listed operator's MCC is also in the country table, so a PLMN whose
/// operator resolves always resolves to a country too.
pub proof fn lemma_operator_implies_country(mcc: Seq<char>, mnc: Seq<char>)
    ensures
        spec_operator_name(mcc, mnc) is Some ==> spec_country_name(mcc) is Some,
{
}

/// The characters of the digit strings the tables name.
proof fn lemma_table_literals()
    ensures
        "004"@.len() == 3 && "004"@[0] == '0' && "004"@[1] == '0' && "004"@[2] == '4',
        "005"@.len() == 3 && "005"@[0] == '0' && "005"@[1] == '0' && "005"@[2] == '5',
        "006"@.len() == 3 && "006"@[0] == '0' && "006"@[1] == '0' && "006"@[2] == '6',
        "01"@.len() == 2 && "01"@[0] == '0' && "01"@[1] == '1',
        "010"@.len() == 3 && "010"@[0] == '0' && "010"@[1] == '1' && "010"@[2] == '0',
        "012"@.len() == 3 && "012"@[0] == '0' && "012"@[1] == '1' && "012"@[2] == '2',
        "013"@.len() == 3 && "013"@[0] == '0' && "013"@[1] == '1' && "013"@[2] == '3',
        "016"@.len() == 3 && "016"@[0] == '0' && "016"@[1] == '1' && "016"@[2] == '6',
        "02"@.len() == 2 && "02"@[0] == '0' && "02"@[1] == '2',
        "020"@.len() == 3 && "020"@[0] == '0' && "020"@[1] == '2' && "020"@[2] == '0',
        "026"@.len() == 3 && "026"@[0] == '0' && "026"@[1] == '2' && "026"@[2] == '6',
        "03"@.len() == 2 && "03"@[0] == '0' && "03"@[1] == '3',
        "030"@.len() == 3 && "030"@[0] == '0' && "030"@[1] == '3' && "030"@[2] == '0',
        "031"@.len() == 3 && "031"@[0] == '0' && "031"@[1] == '3' && "031"@[2] == '1',
        "038"@.len() == 3 && "038"@[0] == '0' && "038"@[1] == '3' && "038"@[2] == '8',
        "04"@.len() == 2 && "04"@[0] == '0' && "04"@[1] == '4',
        "040"@.len() == 3 && "040"@[0] == '0' && "040"@[1] == '4' && "040"@[2] == '0',
        "05"@.len() == 2 && "05"@[0] == '0' && "05"@[1] == '5',
        "050"@.len() == 3 && "050"@[0] == '0' && "050"@[1] == '5' && "050"@[2] == '0',
        "06"@.len() == 2 && "06"@[0] == '0' && "06"@[1] == '6',
        "07"@.len() == 2 && "07"@[0] == '0' && "07"@[1] == '7',
        "070"@.len() == 3 && "070"@[0] == '0' && "070"@[1] == '7' && "070"@[2] == '0',
        "08"@.len() == 2 && "08"@[0] == '0' && "08"@[1] == '8',
        "080"@.len() == 3 && "080"@[0] == '0' && "080"@[1] == '8' && "080"@[2] == '0',
        "09"@.len() == 2 && "09"@[0] == '0' && "09"@[1] == '9',
        "090"@.len() == 3 && "090"@[0] == '0' && "090"@[1] == '9' && "090"@[2] == '0',
        "10"@.len() == 2 && "10"@[0] == '1' && "10"@[1] == '0',
        "11"@.len() == 2 && "11"@[0] == '1' && "11"@[1] == '1',
        "110"@.len() == 3 && "110"@[0] == '1' && "110"@[1] == '1' && "110"@[2] == '0',
        "120"@.len() == 3 && "120"@[0] == '1' && "120"@[1] == '2' && "120"@[2] == '0',
        "13"@.len() == 2 && "13"@[0] == '1' && "13"@[1] == '3',
        "15"@.len() == 2 && "15"@[0] == '1' && "15"@[1] == '5',
        "150"@.len() == 3 && "150"@[0] == '1' && "150"@[1] == '5' && "150"@[2] == '0',
        "16"@.len() == 2 && "16"@[0] == '1' && "16"@[1] == '6',
        "160"@.len() == 3 && "160"@[0] == '1' && "160"@[1] == '6' && "160"@[2] == '0',
        "170"@.len() == 3 && "170"@[0] == '1' && "170"@[1] == '7' && "170"@[2] == '0',
        "180"@.len() == 3 && "180"@[0] == '1' && "180"@[1] == '8' && "180"@[2] == '0',
        "20"@.len() == 2 && "20"@[0] == '2' && "20"@[1] == '0',
        "200"@.len() == 3 && "200"@[0] == '2' && "200"@[1] == '0' && "200"@[2] == '0',
        "202"@.len() == 3 && "202"@[0] == '2' && "202"@[1] == '0' && "202"@[2] == '2',
        "204"@.len() == 3 && "204"@[0] == '2' && "204"@[1] == '0' && "204"@[2] == '4',
        "206"@.len() == 3 && "206"@[0] == '2' && "206"@[1] == '0' && "206"@[2] == '6',
        "208"@.len() == 3 && "208"@[0] == '2' && "208"@[1] == '0' && "208"@[2] == '8',
        "21"@.len() == 2 && "21"@[0] == '2' && "21"@[1] == '1',
        "210"@.len() == 3 && "210"@[0] == '2' && "210"@[1] == '1' && "210"@[2] == '0',
        "214"@.len() == 3 && "214"@[0] == '2' && "214"@[1] == '1' && "214"@[2] == '4',
        "216"@.len() == 3 && "216"@[0] == '2' && "216"@[1] == '1' && "216"@[2] == '6',
        "220"@.len() == 3 && "220"@[0] == '2' && "220"@[1] == '2' && "220"@[2] == '0',
        "221"@.len() == 3 && "221"@[0] == '2' && "221"@[1] == '2' && "221"@[2] == '1',
        "222"@.len() == 3 && "222"@[0] == '2' && "222"@[1] == '2' && "222"@[2] == '2',
        "226"@.len() == 3 && "226"@[0] == '2' && "226"@[1] == '2' && "226"@[2] == '6',
        "228"@.len() == 3 && "228"@[0] == '2' && "228"@[1] == '2' && "228"@[2] == '8',
        "230"@.len() == 3 && "230"@[0] == '2' && "230"@[1] == '3' && "230"@[2] == '0',
        "232"@.len() == 3 && "232"@[0] == '2' && "232"@[1] == '3' && "232"@[2] == '2',
        "234"@.len() == 3 && "234"@[0] == '2' && "234"@[1] == '3' && "234"@[2] == '4',
        "235"@.len() == 3 && "235"@[0] == '2' && "235"@[1] == '3' && "235"@[2] == '5',
        "238"@.len() == 3 && "238"@[0] == '2' && "238"@[1] == '3' && "238"@[2] == '8',
        "240"@.len() == 3 && "240"@[0] == '2' && "240"@[1] == '4' && "240"@[2] == '0',
        "242"@.len() == 3 && "242"@[0] == '2' && "242"@[1] == '4' && "242"@[2] == '2',
        "244"@.len() == 3 && "244"@[0] == '2' && "244"@[1] == '4' && "244"@[2] == '4',
        "250"@.len() == 3 && "250"@[0] == '2' && "250"@[1] == '5' && "250"@[2] == '0',
        "255"@.len() == 3 && "255"@[0] == '2' && "255"@[1] == '5' && "255"@[2] == '5',
        "260"@.len() == 3 && "260"@[0] == '2' && "260"@[1] == '6' && "260"@[2] == '0',
        "262"@.len() == 3 && "262"@[0] == '2' && "262"@[1] == '6' && "262"@[2] == '2',
        "268"@.len() == 3 && "268"@[0] == '2' && "268"@[1] == '6' && "268"@[2] == '8',
        "270"@.len() == 3 && "270"@[0] == '2' && "270"@[1] == '7' && "270"@[2] == '0',
        "271"@.len() == 3 && "271"@[0] == '2' && "271"@[1] == '7' && "271"@[2] == '1',
        "272"@.len() == 3 && "272"@[0] == '2' && "272"@[1] == '7' && "272"@[2] == '2',
        "273"@.len() == 3 && "273"@[0] == '2' && "273"@[1] == '7' && "273"@[2] == '3',
        "274"@.len() == 3 && "274"@[0] == '2' && "274"@[1] == '7' && "274"@[2] == '4',
        "275"@.len() == 3 && "275"@[0] == '2' && "275"@[1] == '7' && "275"@[2] == '5',
        "276"@.len() == 3 && "276"@[0] == '2' && "276"@[1] == '7' && "276"@[2] == '6',
        "277"@.len() == 3 && "277"@[0] == '2' && "277"@[1] == '7' && "277"@[2] == '7',
        "278"@.len() == 3 && "278"@[0] == '2' && "278"@[1] == '7' && "278"@[2] == '8',
        "279"@.len() == 3 && "279"@[0] == '2' && "279"@[1] == '7' && "279"@[2] == '9',
        "280"@.len() == 3 && "280"@[0] == '2' && "280"@[1] == '8' && "280"@[2] == '0',
        "281"@.len() == 3 && "281"@[0] == '2' && "281"@[1] == '8' && "281"@[2] == '1',
        "282"@.len() == 3 && "282"@[0] == '2' && "282"@[1] == '8' && "282"@[2] == '2',
        "283"@.len() == 3 && "283"@[0] == '2' && "283"@[1] == '8' && "283"@[2] == '3',
        "284"@.len() == 3 && "284"@[0] == '2' && "284"@[1] == '8' && "284"@[2] == '4',
        "285"@.len() == 3 && "285"@[0] == '2' && "285"@[1] == '8' && "285"@[2] == '5',
        "286"@.len() == 3 && "286"@[0] == '2' && "286"@[1] == '8' && "286"@[2] == '6',
        "287"@.len() == 3 && "287"@[0] == '2' && "287"@[1] == '8' && "287"@[2] == '7',
        "288"@.len() == 3 && "288"@[0] == '2' && "288"@[1] == '8' && "288"@[2] == '8',
        "289"@.len() == 3 && "289"@[0] == '2' && "289"@[1] == '8' && "289"@[2] == '9',
        "30"@.len() == 2 && "30"@[0] == '3' && "30"@[1] == '0',
        "300"@.len() == 3 && "300"@[0] == '3' && "300"@[1] == '0' && "300"@[2] == '0',
        "302"@.len() == 3 && "302"@[0] == '3' && "302"@[1] == '0' && "302"@[2] == '2',
        "31"@.len() == 2 && "31"@[0] == '3' && "31"@[1] == '1',
        "310"@.len() == 3 && "310"@[0] == '3' && "310"@[1] == '1' && "310"@[2] == '0',
        "311"@.len() == 3 && "311"@[0] == '3' && "311"@[1] == '1' && "311"@[2] == '1',
        "312"@.len() == 3 && "312"@[0] == '3' && "312"@[1] == '1' && "312"@[2] == '2',
        "313"@.len() == 3 && "313"@[0] == '3' && "313"@[1] == '1' && "313"@[2] == '3',
        "314"@.len() == 3 && "314"@[0] == '3' && "314"@[1] == '1' && "314"@[2] == '4',
        "315"@.len() == 3 && "315"@[0] == '3' && "315"@[1] == '1' && "315"@[2] == '5',
        "316"@.len() == 3 && "316"@[0] == '3' && "316"@[1] == '1' && "316"@[2] == '6',
        "32"@.len() == 2 && "32"@[0] == '3' && "32"@[1] == '2',
        "33"@.len() == 2 && "33"@[0] == '3' && "33"@[1] == '3',
        "334"@.len() == 3 && "334"@[0] == '3' && "334"@[1] == '3' && "334"@[2] == '4',
        "34"@.len() == 2 && "34"@[0] == '3' && "34"@[1] == '4',
        "340"@.len() == 3 && "340"@[0] == '3' && "340"@[1] == '4' && "340"@[2] == '0',
        "380"@.len() == 3 && "380"@[0] == '3' && "380"@[1] == '8' && "380"@[2] == '0',
        "390"@.len() == 3 && "390"@[0] == '3' && "390"@[1] == '9' && "390"@[2] == '0',
        "404"@.len() == 3 && "404"@[0] == '4' && "404"@[1] == '0' && "404"@[2] == '4',
        "405"@.len() == 3 && "405"@[0] == '4' && "405"@[1] == '0' && "405"@[2] == '5',
        "406"@.len() == 3 && "406"@[0] == '4' && "406"@[1] == '0' && "406"@[2] == '6',
        "410"@.len() == 3 && "410"@[0] == '4' && "410"@[1] == '1' && "410"@[2] == '0',
        "420"@.len() == 3 && "420"@[0] == '4' && "420"@[1] == '2' && "420"@[2] == '0',
        "424"@.len() == 3 && "424"@[0] == '4' && "424"@[1] == '2' && "424"@[2] == '4',
        "425"@.len() == 3 && "425"@[0] == '4' && "425"@[1] == '2' && "425"@[2] == '5',
        "440"@.len() == 3 && "440"@[0] == '4' && "440"@[1] == '4' && "440"@[2] == '0',
        "441"@.len() == 3 && "441"@[0] == '4' && "441"@[1] == '4' && "441"@[2] == '1',
        "450"@.len() == 3 && "450"@[0] == '4' && "450"@[1] == '5' && "450"@[2] == '0',
        "452"@.len() == 3 && "452"@[0] == '4' && "452"@[1] == '5' && "452"@[2] == '2',
        "454"@.len() == 3 && "454"@[0] == '4' && "454"@[1] == '5' && "454"@[2] == '4',
        "460"@.len() == 3 && "460"@[0] == '4' && "460"@[1] == '6' && "460"@[2] == '0',
        "466"@.len() == 3 && "466"@[0] == '4' && "466"@[1] == '6' && "466"@[2] == '6',
        "480"@.len() == 3 && "480"@[0] == '4' && "480"@[1] == '8' && "480"@[2] == '0',
        "481"@.len() == 3 && "481"@[0] == '4' && "481"@[1] == '8' && "481"@[2] == '1',
        "482"@.len() == 3 && "482"@[0] == '4' && "482"@[1] == '8' && "482"@[2] == '2',
        "483"@.len() == 3 && "483"@[0] == '4' && "483"@[1] == '8' && "483"@[2] == '3',
        "484"@.len() == 3 && "484"@[0] == '4' && "484"@[1] == '8' && "484"@[2] == '4',
        "485"@.len() == 3 && "485"@[0] == '4' && "485"@[1] == '8' && "485"@[2] == '5',
        "486"@.len() == 3 && "486"@[0] == '4' && "486"@[1] == '8' && "486"@[2] == '6',
        "487"@.len() == 3 && "487"@[0] == '4' && "487"@[1] == '8' && "487"@[2] == '7',
        "488"@.len() == 3 && "488"@[0] == '4' && "488"@[1] == '8' && "488"@[2] == '8',
        "489"@.len() == 3 && "489"@[0] == '4' && "489"@[1] == '8' && "489"@[2] == '9',
        "490"@.len() == 3 && "490"@[0] == '4' && "490"@[1] == '9' && "490"@[2] == '0',
        "50"@.len() == 2 && "50"@[0] == '5' && "50"@[1] == '0',
        "502"@.len() == 3 && "502"@[0] == '5' && "502"@[1] == '0' && "502"@[2] == '2',
        "505"@.len() == 3 && "505"@[0] == '5' && "505"@[1] == '0' && "505"@[2] == '5',
        "510"@.len() == 3 && "510"@[0] == '5' && "510"@[1] == '1' && "510"@[2] == '0',
        "515"@.len() == 3 && "515"@[0] == '5' && "515"@[1] == '1' && "515"@[2] == '5',
        "520"@.len() == 3 && "520"@[0] == '5' && "520"@[1] == '2' && "520"@[2] == '0',
        "525"@.len() == 3 && "525"@[0] == '5' && "525"@[1] == '2' && "525"@[2] == '5',
        "530"@.len() == 3 && "530"@[0] == '5' && "530"@[1] == '3' && "530"@[2] == '0',
        "560"@.len() == 3 && "560"@[0] == '5' && "560"@[1] == '6' && "560"@[2] == '0',
        "580"@.len() == 3 && "580"@[0] == '5' && "580"@[1] == '8' && "580"@[2] == '0',
        "590"@.len() == 3 && "590"@[0] == '5' && "590"@[1] == '9' && "590"@[2] == '0',
        "602"@.len() == 3 && "602"@[0] == '6' && "602"@[1] == '0' && "602"@[2] == '2',
        "610"@.len() == 3 && "610"@[0] == '6' && "610"@[1] == '1' && "610"@[2] == '0',
        "620"@.len() == 3 && "620"@[0] == '6' && "620"@[1] == '2' && "620"@[2] == '0',
        "621"@.len() == 3 && "621"@[0] == '6' && "621"@[1] == '2' && "621"@[2] == '1',
        "639"@.len() == 3 && "639"@[0] == '6' && "639"@[1] == '3' && "639"@[2] == '9',
        "655"@.len() == 3 && "655"@[0] == '6' && "655"@[1] == '5' && "655"@[2] == '5',
        "660"@.len() == 3 && "660"@[0] == '6' && "660"@[1] == '6' && "660"@[2] == '0',
        "680"@.len() == 3 && "680"@[0] == '6' && "680"@[1] == '8' && "680"@[2] == '0',
        "716"@.len() == 3 && "716"@[0] == '7' && "716"@[1] == '1' && "716"@[2] == '6',
        "720"@.len() == 3 && "720"@[0] == '7' && "720"@[1] == '2' && "720"@[2] == '0',
        "721"@.len() == 3 && "721"@[0] == '7' && "721"@[1] == '2' && "721"@[2] == '1',
        "722"@.len() == 3 && "722"@[0] == '7' && "722"@[1] == '2' && "722"@[2] == '2',
        "724"@.len() == 3 && "724"@[0] == '7' && "724"@[1] == '2' && "724"@[2] == '4',
        "730"@.len() == 3 && "730"@[0] == '7' && "730"@[1] == '3' && "730"@[2] == '0',
        "732"@.len() == 3 && "732"@[0] == '7' && "732"@[1] == '3' && "732"@[2] == '2',
        "780"@.len() == 3 && "780"@[0] == '7' && "780"@[1] == '8' && "780"@[2] == '0',
        "800"@.len() == 3 && "800"@[0] == '8' && "800"@[1] == '0' && "800"@[2] == '0',
        "870"@.len() == 3 && "870"@[0] == '8' && "870"@[1] == '7' && "870"@[2] == '0',
        "88"@.len() == 2 && "88"@[0] == '8' && "88"@[1] == '8',
        "880"@.len() == 3 && "880"@[0] == '8' && "880"@[1] == '8' && "880"@[2] == '0',
        "890"@.len() == 3 && "890"@[0] == '8' && "890"@[1] == '9' && "890"@[2] == '0',
        "91"@.len() == 2 && "91"@[0] == '9' && "91"@[1] == '1',
        "910"@.len() == 3 && "910"@[0] == '9' && "910"@[1] == '1' && "910"@[2] == '0',
        "94"@.len() == 2 && "94"@[0] == '9' && "94"@[1] == '4',
        "980"@.len() == 3 && "980"@[0] == '9' && "980"@[1] == '8' && "980"@[2] == '0',
{
    reveal_strlit("004");
    reveal_strlit("005");
    reveal_strlit("006");
    reveal_strlit("01");
    reveal_strlit("010");
    reveal_strlit("012");
    reveal_strlit("013");
    reveal_strlit("016");
    reveal_strlit("02");
    reveal_strlit("020");
    reveal_strlit("026");
    reveal_strlit("03");
    reveal_strlit("030");
    reveal_strlit("031");
    reveal_strlit("038");
    reveal_strlit("04");
    reveal_strlit("040");
    reveal_strlit("05");
    reveal_strlit("050");
    reveal_strlit("06");
    reveal_strlit("07");
    reveal_strlit("070");
    reveal_strlit("08");
    reveal_strlit("080");
    reveal_strlit("09");
    reveal_strlit("090");
    reveal_strlit("10");
    reveal_strlit("11");
    reveal_strlit("110");
    reveal_strlit("120");
    reveal_strlit("13");
    reveal_strlit("15");
    reveal_strlit("150");
    reveal_strlit("16");
    reveal_strlit("160");
    reveal_strlit("170");
    reveal_strlit("180");
    reveal_strlit("20");
    reveal_strlit("200");
    reveal_strlit("202");
    reveal_strlit("204");
    reveal_strlit("206");
    reveal_strlit("208");
    reveal_strlit("21");
    reveal_strlit("210");
    reveal_strlit("214");
    reveal_strlit("216");
    reveal_strlit("220");
    reveal_strlit("221");
    reveal_strlit("222");
    reveal_strlit("226");
    reveal_strlit("228");
    reveal_strlit("230");
    reveal_strlit("232");
    reveal_strlit("234");
    reveal_strlit("235");
    reveal_strlit("238");
    reveal_strlit("240");
    reveal_strlit("242");
    reveal_strlit("244");
    reveal_strlit("250");
    reveal_strlit("255");
    reveal_strlit("260");
    reveal_strlit("262");
    reveal_strlit("268");
    reveal_strlit("270");
    reveal_strlit("271");
    reveal_strlit("272");
    reveal_strlit("273");
    reveal_strlit("274");
    reveal_strlit("275");
    reveal_strlit("276");
    reveal_strlit("277");
    reveal_strlit("278");
    reveal_strlit("279");
    reveal_strlit("280");
    reveal_strlit("281");
    reveal_strlit("282");
    reveal_strlit("283");
    reveal_strlit("284");
    reveal_strlit("285");
    reveal_strlit("286");
    reveal_strlit("287");
    reveal_strlit("288");
    reveal_strlit("289");
    reveal_strlit("30");
    reveal_strlit("300");
    reveal_strlit("302");
    reveal_strlit("31");
    reveal_strlit("310");
    reveal_strlit("311");
    reveal_strlit("312");
    reveal_strlit("313");
    reveal_strlit("314");
    reveal_strlit("315");
    reveal_strlit("316");
    reveal_strlit("32");
    reveal_strlit("33");
    reveal_strlit("334");
    reveal_strlit("34");
    reveal_strlit("340");
    reveal_strlit("380");
    reveal_strlit("390");
    reveal_strlit("404");
    reveal_strlit("405");
    reveal_strlit("406");
    reveal_strlit("410");
    reveal_strlit("420");
    reveal_strlit("424");
    reveal_strlit("425");
    reveal_strlit("440");
    reveal_strlit("441");
    reveal_strlit("450");
    reveal_strlit("452");
    reveal_strlit("454");
    reveal_strlit("460");
    reveal_strlit("466");
    reveal_strlit("480");
    reveal_strlit("481");
    reveal_strlit("482");
    reveal_strlit("483");
    reveal_strlit("484");
    reveal_strlit("485");
    reveal_strlit("486");
    reveal_strlit("487");
    reveal_strlit("488");
    reveal_strlit("489");
    reveal_strlit("490");
    reveal_strlit("50");
    reveal_strlit("502");
    reveal_strlit("505");
    reveal_strlit("510");
    reveal_strlit("515");
    reveal_strlit("520");
    reveal_strlit("525");
    reveal_strlit("530");
    reveal_strlit("560");
    reveal_strlit("580");
    reveal_strlit("590");
    reveal_strlit("602");
    reveal_strlit("610");
    reveal_strlit("620");
    reveal_strlit("621");
    reveal_strlit("639");
    reveal_strlit("655");
    reveal_strlit("660");
    reveal_strlit("680");
    reveal_strlit("716");
    reveal_strlit("720");
    reveal_strlit("721");
    reveal_strlit("722");
    reveal_strlit("724");
    reveal_strlit("730");
    reveal_strlit("732");
    reveal_strlit("780");
    reveal_strlit("800");
    reveal_strlit("870");
    reveal_strlit("88");
    reveal_strlit("880");
    reveal_strlit("890");
    reveal_strlit("91");
    reveal_strlit("910");
    reveal_strlit("94");
    reveal_strlit("980");
}

/// Each PLMN of Verizon Wireless resolves to its operator: the E.212
/// assignments the table lists, pair by pair.
pub proof fn lemma_verizon_plmns()
    ensures
        spec_operator_name("310"@, "004"@) == Some("Verizon Wireless"@),
        spec_operator_name("310"@, "005"@) == Some("Verizon Wireless"@),
        spec_operator_name("310"@, "006"@) == Some("Verizon Wireless"@),
        spec_operator_name("310"@, "010"@) == Some("Verizon Wireless"@),
        spec_operator_name("310"@, "012"@) == Some("Verizon Wireless"@),
        spec_operator_name("310"@, "013"@) == Some("Verizon Wireless"@),
        spec_operator_name("311"@, "110"@) == Some("Verizon Wireless"@),
        spec_operator_name("311"@, "270"@) == Some("Verizon Wireless"@),
        spec_operator_name("311"@, "271"@) == Some("Verizon Wireless"@),
        spec_operator_name("311"@, "272"@) == Some("Verizon Wireless"@),
        spec_operator_name("311"@, "273"@) == Some("Verizon Wireless"@),
        spec_operator_name("311"@, "274"@) == Some("Verizon Wireless"@),
        spec_operator_name("311"@, "275"@) == Some("Verizon Wireless"@),
        spec_operator_name("311"@, "276"@) == Some("Verizon Wireless"@),
        spec_operator_name("311"@, "277"@) == Some("Verizon Wireless"@),
        spec_operator_name("311"@, "278"@) == Some("Verizon Wireless"@),
        spec_operator_name("311"@, "279"@) == Some("Verizon Wireless"@),
        spec_operator_name("311"@, "280"@) == Some("Verizon Wireless"@),
        spec_operator_name("311"@, "281"@) == Some("Verizon Wireless"@),
        spec_operator_name("311"@, "282"@) == Some("Verizon Wireless"@),
        spec_operator_name("311"@, "283"@) == Some("Verizon Wireless"@),
        spec_operator_name("311"@, "284"@) == Some("Verizon Wireless"@),
        spec_operator_name("311"@, "285"@) == Some("Verizon Wireless"@),
        spec_operator_name("311"@, "286"@) == Some("Verizon Wireless"@),
        spec_operator_name("311"@, "287"@) == Some("Verizon Wireless"@),
        spec_operator_name("311"@, "288"@) == Some("Verizon Wireless"@),
        spec_operator_name("311"@, "289"@) == Some("Verizon Wireless"@),
        spec_operator_name("311"@, "390"@) == Some("Verizon Wireless"@),
        spec_operator_name("311"@, "480"@) == Some("Verizon Wireless"@),
        spec_operator_name("311"@, "481"@) == Some("Verizon Wireless"@),
        spec_operator_name("311"@, "482"@) == Some("Verizon Wireless"@),
        spec_operator_name("311"@, "483"@) == Some("Verizon Wireless"@),
        spec_operator_name("311"@, "484"@) == Some("Verizon Wireless"@),
        spec_operator_name("311"@, "485"@) == Some("Verizon Wireless"@),
        spec_operator_name("311"@, "486"@) == Some("Verizon Wireless"@),
        spec_operator_name("311"@, "487"@) == Some("Verizon Wireless"@),
        spec_operator_name("311"@, "488"@) == Some("Verizon Wireless"@),
        spec_operator_name("311"@, "489"@) == Some("Verizon Wireless"@),
        spec_operator_name("310"@, "590"@) == Some("Verizon Wireless"@),
        spec_operator_name("310"@, "890"@) == Some("Verizon Wireless"@),
        spec_operator_name("310"@, "910"@) == Some("Verizon Wireless"@),
{
    lemma_table_literals();
}

/// Each PLMN of the other United States operators resolves to its operator: the E.212
/// assignments the table lists, pair by pair.
pub proof fn lemma_us_plmns()
    ensures
        spec_operator_name("310"@, "070"@) == Some("AT&T"@),
        spec_operator_name("310"@, "090"@) == Some("AT&T"@),
        spec_operator_name("310"@, "150"@) == Some("AT&T"@),
        spec_operator_name("310"@, "170"@) == Some("AT&T"@),
        spec_operator_name("310"@, "280"@) == Some("AT&T"@),
        spec_operator_name("310"@, "380"@) == Some("AT&T"@),
        spec_operator_name("310"@, "410"@) == Some("AT&T"@),
        spec_operator_name("310"@, "560"@) == Some("AT&T"@),
        spec_operator_name("310"@, "680"@) == Some("AT&T"@),
        spec_operator_name("310"@, "980"@) == Some("AT&T"@),
        spec_operator_name("311"@, "180"@) == Some("AT&T"@),
        spec_operator_name("310"@, "016"@) == Some("AT&T"@),
        spec_operator_name("310"@, "038"@) == Some("AT&T"@),
        spec_operator_name("310"@, "026"@) == Some("T-Mobile US"@),
        spec_operator_name("310"@, "160"@) == Some("T-Mobile US"@),
        spec_operator_name("310"@, "200"@) == Some("T-Mobile US"@),
        spec_operator_name("310"@, "210"@) == Some("T-Mobile US"@),
        spec_operator_name("310"@, "220"@) == Some("T-Mobile US"@),
        spec_operator_name("310"@, "230"@) == Some("T-Mobile US"@),
        spec_operator_name("310"@, "240"@) == Some("T-Mobile US"@),
        spec_operator_name("310"@, "250"@) == Some("T-Mobile US"@),
        spec_operator_name("310"@, "260"@) == Some("T-Mobile US"@),
        spec_operator_name("310"@, "270"@) == Some("T-Mobile US"@),
        spec_operator_name("310"@, "300"@) == Some("T-Mobile US"@),
        spec_operator_name("310"@, "310"@) == Some("T-Mobile US"@),
        spec_operator_name("310"@, "490"@) == Some("T-Mobile US"@),
        spec_operator_name("310"@, "530"@) == Some("T-Mobile US"@),
        spec_operator_name("310"@, "580"@) == Some("T-Mobile US"@),
        spec_operator_name("310"@, "660"@) == Some("T-Mobile US"@),
        spec_operator_name("310"@, "800"@) == Some("T-Mobile US"@),
        spec_operator_name("311"@, "660"@) == Some("T-Mobile US"@),
        spec_operator_name("310"@, "031"@) == Some("T-Mobile US"@),
        spec_operator_name("310"@, "120"@) == Some("Sprint (T-Mobile)"@),
        spec_operator_name("311"@, "490"@) == Some("Sprint (T-Mobile)"@),
        spec_operator_name("311"@, "870"@) == Some("Sprint (T-Mobile)"@),
        spec_operator_name("311"@, "880"@) == Some("Sprint (T-Mobile)"@),
        spec_operator_name("312"@, "530"@) == Some("Sprint (T-Mobile)"@),
        spec_operator_name("316"@, "010"@) == Some("Sprint (T-Mobile)"@),
        spec_operator_name("310"@, "730"@) == Some("UScellular"@),
        spec_operator_name("311"@, "220"@) == Some("UScellular"@),
        spec_operator_name("311"@, "580"@) == Some("UScellular"@),
        spec_operator_name("313"@, "340"@) == Some("Dish Wireless"@),
        spec_operator_name("310"@, "390"@) == Some("Dish Wireless"@),
        spec_operator_name("311"@, "070"@) == Some("Google Fi"@),
{
    lemma_table_literals();
}

/// Each PLMN of the Canadian and Mexican operators resolves to its operator: the E.212
/// assignments the table lists, pair by pair.
pub proof fn lemma_canada_mexico_plmns()
    ensures
        spec_operator_name("302"@, "220"@) == Some("Telus"@),
        spec_operator_name("302"@, "221"@) == Some("Telus"@),
        spec_operator_name("302"@, "610"@) == Some("Bell"@),
        spec_operator_name("302"@, "620"@) == Some("Bell"@),
        spec_operator_name("302"@, "720"@) == Some("Rogers"@),
        spec_operator_name("302"@, "721"@) == Some("Rogers"@),
        spec_operator_name("302"@, "490"@) == Some("Freedom Mobile"@),
        spec_operator_name("302"@, "780"@) == Some("Freedom Mobile"@),
        spec_operator_name("334"@, "020"@) == Some("Telcel"@),
        spec_operator_name("334"@, "030"@) == Some("Telcel"@),
        spec_operator_name("334"@, "050"@) == Some("Telcel"@),
        spec_operator_name("334"@, "040"@) == Some("AT&T Mexico"@),
        spec_operator_name("334"@, "090"@) == Some("AT&T Mexico"@),
        spec_operator_name("334"@, "070"@) == Some("Movistar Mexico"@),
        spec_operator_name("334"@, "080"@) == Some("Movistar Mexico"@),
{
    lemma_table_literals();
}

/// Each PLMN of the European operators resolves to its operator: the E.212
/// assignments the table lists, pair by pair.
pub proof fn lemma_europe_plmns()
    ensures
        spec_operator_name("234"@, "10"@) == Some("O2 UK"@),
        spec_operator_name("234"@, "11"@) == Some("O2 UK"@),
        spec_operator_name("234"@, "01"@) == Some("O2 UK"@),
        spec_operator_name("234"@, "15"@) == Some("Vodafone UK"@),
        spec_operator_name("234"@, "91"@) == Some("Vodafone UK"@),
        spec_operator_name("234"@, "20"@) == Some("3 UK"@),
        spec_operator_name("234"@, "94"@) == Some("3 UK"@),
        spec_operator_name("234"@, "30"@) == Some("EE"@),
        spec_operator_name("234"@, "31"@) == Some("EE"@),
        spec_operator_name("234"@, "32"@) == Some("EE"@),
        spec_operator_name("234"@, "33"@) == Some("EE"@),
        spec_operator_name("234"@, "34"@) == Some("EE"@),
        spec_operator_name("262"@, "01"@) == Some("Telekom.de"@),
        spec_operator_name("262"@, "06"@) == Some("Telekom.de"@),
        spec_operator_name("262"@, "02"@) == Some("Vodafone.de"@),
        spec_operator_name("262"@, "04"@) == Some("Vodafone.de"@),
        spec_operator_name("262"@, "03"@) == Some("o2.de"@),
        spec_operator_name("262"@, "05"@) == Some("o2.de"@),
        spec_operator_name("262"@, "07"@) == Some("o2.de"@),
        spec_operator_name("262"@, "08"@) == Some("o2.de"@),
        spec_operator_name("208"@, "01"@) == Some("Orange France"@),
        spec_operator_name("208"@, "02"@) == Some("Orange France"@),
        spec_operator_name("208"@, "91"@) == Some("Orange France"@),
        spec_operator_name("208"@, "10"@) == Some("SFR"@),
        spec_operator_name("208"@, "11"@) == Some("SFR"@),
        spec_operator_name("208"@, "13"@) == Some("SFR"@),
        spec_operator_name("208"@, "20"@) == Some("Bouygues Telecom"@),
        spec_operator_name("208"@, "21"@) == Some("Bouygues Telecom"@),
        spec_operator_name("208"@, "15"@) == Some("Free Mobile"@),
        spec_operator_name("208"@, "16"@) == Some("Free Mobile"@),
        spec_operator_name("204"@, "04"@) == Some("Vodafone NL"@),
        spec_operator_name("204"@, "02"@) == Some("Vodafone NL"@),
        spec_operator_name("204"@, "08"@) == Some("KPN"@),
        spec_operator_name("204"@, "10"@) == Some("KPN"@),
        spec_operator_name("204"@, "16"@) == Some("T-Mobile NL"@),
        spec_operator_name("204"@, "20"@) == Some("T-Mobile NL"@),
        spec_operator_name("214"@, "07"@) == Some("Movistar"@),
        spec_operator_name("214"@, "05"@) == Some("Movistar"@),
        spec_operator_name("214"@, "01"@) == Some("Vodafone ES"@),
        spec_operator_name("214"@, "06"@) == Some("Vodafone ES"@),
        spec_operator_name("214"@, "03"@) == Some("Orange ES"@),
        spec_operator_name("214"@, "09"@) == Some("Orange ES"@),
        spec_operator_name("222"@, "01"@) == Some("TIM"@),
        spec_operator_name("222"@, "10"@) == Some("Vodafone IT"@),
        spec_operator_name("222"@, "88"@) == Some("WindTre"@),
        spec_operator_name("222"@, "50"@) == Some("Iliad"@),
{
    lemma_table_literals();
}

/// Each PLMN of the Australian operators resolves to its operator: the E.212
/// assignments the table lists, pair by pair.
pub proof fn lemma_australia_plmns()
    ensures
        spec_operator_name("505"@, "01"@) == Some("Telstra"@),
        spec_operator_name("505"@, "02"@) == Some("Optus"@),
        spec_operator_name("505"@, "03"@) == Some("Optus"@),
        spec_operator_name("505"@, "06"@) == Some("Vodafone AU"@),
{
    lemma_table_literals();
}

/// Each listed MCC resolves to its country.
pub proof fn lemma_mcc_countries()
    ensures
        spec_country_name("310"@) == Some("United States"@),
        spec_country_name("311"@) == Some("United States"@),
        spec_country_name("312"@) == Some("United States"@),
        spec_country_name("313"@) == Some("United States"@),
        spec_country_name("314"@) == Some("United States"@),
        spec_country_name("315"@) == Some("United States"@),
        spec_country_name("316"@) == Some("United States"@),
        spec_country_name("302"@) == Some("Canada"@),
        spec_country_name("334"@) == Some("Mexico"@),
        spec_country_name("234"@) == Some("United Kingdom"@),
        spec_country_name("235"@) == Some("United Kingdom"@),
        spec_country_name("262"@) == Some("Germany"@),
        spec_country_name("208"@) == Some("France"@),
        spec_country_name("204"@) == Some("Netherlands"@),
        spec_country_name("214"@) == Some("Spain"@),
        spec_country_name("222"@) == Some("Italy"@),
        spec_country_name("232"@) == Some("Austria"@),
        spec_country_name("206"@) == Some("Belgium"@),
        spec_country_name("228"@) == Some("Switzerland"@),
        spec_country_name("238"@) == Some("Denmark"@),
        spec_country_name("240"@) == Some("Sweden"@),
        spec_country_name("242"@) == Some("Norway"@),
        spec_country_name("244"@) == Some("Finland"@),
        spec_country_name("268"@) == Some("Portugal"@),
        spec_country_name("272"@) == Some("Ireland"@),
        spec_country_name("202"@) == Some("Greece"@),
        spec_country_name("260"@) == Some("Poland"@),
        spec_country_name("230"@) == Some("Czech Republic"@),
        spec_country_name("216"@) == Some("Hungary"@),
        spec_country_name("226"@) == Some("Romania"@),
        spec_country_name("255"@) == Some("Ukraine"@),
        spec_country_name("250"@) == Some("Russia"@),
        spec_country_name("286"@) == Some("Turkey"@),
        spec_country_name("425"@) == Some("Israel"@),
        spec_country_name("460"@) == Some("China"@),
        spec_country_name("440"@) == Some("Japan"@),
        spec_country_name("441"@) == Some("Japan"@),
        spec_country_name("450"@) == Some("South Korea"@),
        spec_country_name("404"@) == Some("India"@),
        spec_country_name("405"@) == Some("India"@),
        spec_country_name("406"@) == Some("India"@),
        spec_country_name("505"@) == Some("Australia"@),
        spec_country_name("530"@) == Some("New Zealand"@),
        spec_country_name("525"@) == Some("Singapore"@),
        spec_country_name("454"@) == Some("Hong Kong"@),
        spec_country_name("466"@) == Some("Taiwan"@),
        spec_country_name("502"@) == Some("Malaysia"@),
        spec_country_name("510"@) == Some("Indonesia"@),
        spec_country_name("515"@) == Some("Philippines"@),
        spec_country_name("520"@) == Some("Thailand"@),
        spec_country_name("452"@) == Some("Vietnam"@),
        spec_country_name("724"@) == Some("Brazil"@),
        spec_country_name("722"@) == Some("Brazil"@),
        spec_country_name("730"@) == Some("Chile"@),
        spec_country_name("732"@) == Some("Colombia"@),
        spec_country_name("716"@) == Some("Peru"@),
        spec_country_name("655"@) == Some("South Africa"@),
        spec_country_name("621"@) == Some("Nigeria"@),
        spec_country_name("639"@) == Some("Kenya"@),
        spec_country_name("602"@) == Some("Egypt"@),
        spec_country_name("424"@) == Some("United Arab Emirates"@),
        spec_country_name("420"@) == Some("Saudi Arabia"@),
{
    lemma_table_literals();
}

/// Only the listed PLMNs resolve to an operator: any other MCC/MNC pair
/// resolves to none.
pub proof fn lemma_only_listed_plmns_resolve(mcc: Seq<char>, mnc: Seq<char>)
    ensures
        spec_operator_name(mcc, mnc) is Some ==> {
            ||| (mcc == "310"@ && mnc == "004"@)
            ||| (mcc == "310"@ && mnc == "005"@)
            ||| (mcc == "310"@ && mnc == "006"@)
            ||| (mcc == "310"@ && mnc == "010"@)
            ||| (mcc == "310"@ && mnc == "012"@)
            ||| (mcc == "310"@ && mnc == "013"@)
            ||| (mcc == "311"@ && mnc == "110"@)
            ||| (mcc == "311"@ && mnc == "270"@)
            ||| (mcc == "311"@ && mnc == "271"@)
            ||| (mcc == "311"@ && mnc == "272"@)
            ||| (mcc == "311"@ && mnc == "273"@)
            ||| (mcc == "311"@ && mnc == "274"@)
            ||| (mcc == "311"@ && mnc == "275"@)
            ||| (mcc == "311"@ && mnc == "276"@)
            ||| (mcc == "311"@ && mnc == "277"@)
            ||| (mcc == "311"@ && mnc == "278"@)
            ||| (mcc == "311"@ && mnc == "279"@)
            ||| (mcc == "311"@ && mnc == "280"@)
            ||| (mcc == "311"@ && mnc == "281"@)
            ||| (mcc == "311"@ && mnc == "282"@)
            ||| (mcc == "311"@ && mnc == "283"@)
            ||| (mcc == "311"@ && mnc == "284"@)
            ||| (mcc == "311"@ && mnc == "285"@)
            ||| (mcc == "311"@ && mnc == "286"@)
            ||| (mcc == "311"@ && mnc == "287"@)
            ||| (mcc == "311"@ && mnc == "288"@)
            ||| (mcc == "311"@ && mnc == "289"@)
            ||| (mcc == "311"@ && mnc == "390"@)
            ||| (mcc == "311"@ && mnc == "480"@)
            ||| (mcc == "311"@ && mnc == "481"@)
            ||| (mcc == "311"@ && mnc == "482"@)
            ||| (mcc == "311"@ && mnc == "483"@)
            ||| (mcc == "311"@ && mnc == "484"@)
            ||| (mcc == "311"@ && mnc == "485"@)
            ||| (mcc == "311"@ && mnc == "486"@)
            ||| (mcc == "311"@ && mnc == "487"@)
            ||| (mcc == "311"@ && mnc == "488"@)
            ||| (mcc == "311"@ && mnc == "489"@)
            ||| (mcc == "310"@ && mnc == "590"@)
            ||| (mcc == "310"@ && mnc == "890"@)
            ||| (mcc == "310"@ && mnc == "910"@)
            ||| (mcc == "310"@ && mnc == "070"@)
            ||| (mcc == "310"@ && mnc == "090"@)
            ||| (mcc == "310"@ && mnc == "150"@)
            ||| (mcc == "310"@ && mnc == "170"@)
            ||| (mcc == "310"@ && mnc == "280"@)
            ||| (mcc == "310"@ && mnc == "380"@)
            ||| (mcc == "310"@ && mnc == "410"@)
            ||| (mcc == "310"@ && mnc == "560"@)
            ||| (mcc == "310"@ && mnc == "680"@)
            ||| (mcc == "310"@ && mnc == "980"@)
            ||| (mcc == "311"@ && mnc == "180"@)
            ||| (mcc == "310"@ && mnc == "016"@)
            ||| (mcc == "310"@ && mnc == "038"@)
            ||| (mcc == "310"@ && mnc == "026"@)
            ||| (mcc == "310"@ && mnc == "160"@)
            ||| (mcc == "310"@ && mnc == "200"@)
            ||| (mcc == "310"@ && mnc == "210"@)
            ||| (mcc == "310"@ && mnc == "220"@)
            ||| (mcc == "310"@ && mnc == "230"@)
            ||| (mcc == "310"@ && mnc == "240"@)
            ||| (mcc == "310"@ && mnc == "250"@)
            ||| (mcc == "310"@ && mnc == "260"@)
            ||| (mcc == "310"@ && mnc == "270"@)
            ||| (mcc == "310"@ && mnc == "300"@)
            ||| (mcc == "310"@ && mnc == "310"@)
            ||| (mcc == "310"@ && mnc == "490"@)
            ||| (mcc == "310"@ && mnc == "530"@)
            ||| (mcc == "310"@ && mnc == "580"@)
            ||| (mcc == "310"@ && mnc == "660"@)
            ||| (mcc == "310"@ && mnc == "800"@)
            ||| (mcc == "311"@ && mnc == "660"@)
            ||| (mcc == "310"@ && mnc == "031"@)
            ||| (mcc == "310"@ && mnc == "120"@)
            ||| (mcc == "311"@ && mnc == "490"@)
            ||| (mcc == "311"@ && mnc == "870"@)
            ||| (mcc == "311"@ && mnc == "880"@)
            ||| (mcc == "312"@ && mnc == "530"@)
            ||| (mcc == "316"@ && mnc == "010"@)
            ||| (mcc == "310"@ && mnc == "730"@)
            ||| (mcc == "311"@ && mnc == "220"@)
            ||| (mcc == "311"@ && mnc == "580"@)
            ||| (mcc == "313"@ && mnc == "340"@)
            ||| (mcc == "310"@ && mnc == "390"@)
            ||| (mcc == "311"@ && mnc == "070"@)
            ||| (mcc == "302"@ && mnc == "220"@)
            ||| (mcc == "302"@ && mnc == "221"@)
            ||| (mcc == "302"@ && mnc == "610"@)
            ||| (mcc == "302"@ && mnc == "620"@)
            ||| (mcc == "302"@ && mnc == "720"@)
            ||| (mcc == "302"@ && mnc == "721"@)
            ||| (mcc == "302"@ && mnc == "490"@)
            ||| (mcc == "302"@ && mnc == "780"@)
            ||| (mcc == "334"@ && mnc == "020"@)
            ||| (mcc == "334"@ && mnc == "030"@)
            ||| (mcc == "334"@ && mnc == "050"@)
            ||| (mcc == "334"@ && mnc == "040"@)
            ||| (mcc == "334"@ && mnc == "090"@)
            ||| (mcc == "334"@ && mnc == "070"@)
            ||| (mcc == "334"@ && mnc == "080"@)
            ||| (mcc == "234"@ && mnc == "10"@)
            ||| (mcc == "234"@ && mnc == "11"@)
            ||| (mcc == "234"@ && mnc == "01"@)
            ||| (mcc == "234"@ && mnc == "15"@)
            ||| (mcc == "234"@ && mnc == "91"@)
            ||| (mcc == "234"@ && mnc == "20"@)
            ||| (mcc == "234"@ && mnc == "94"@)
            ||| (mcc == "234"@ && mnc == "30"@)
            ||| (mcc == "234"@ && mnc == "31"@)
            ||| (mcc == "234"@ && mnc == "32"@)
            ||| (mcc == "234"@ && mnc == "33"@)
            ||| (mcc == "234"@ && mnc == "34"@)
            ||| (mcc == "262"@ && mnc == "01"@)
            ||| (mcc == "262"@ && mnc == "06"@)
            ||| (mcc == "262"@ && mnc == "02"@)
            ||| (mcc == "262"@ && mnc == "04"@)
            ||| (mcc == "262"@ && mnc == "03"@)
            ||| (mcc == "262"@ && mnc == "05"@)
            ||| (mcc == "262"@ && mnc == "07"@)
            ||| (mcc == "262"@ && mnc == "08"@)
            ||| (mcc == "208"@ && mnc == "01"@)
            ||| (mcc == "208"@ && mnc == "02"@)
            ||| (mcc == "208"@ && mnc == "91"@)
            ||| (mcc == "208"@ && mnc == "10"@)
            ||| (mcc == "208"@ && mnc == "11"@)
            ||| (mcc == "208"@ && mnc == "13"@)
            ||| (mcc == "208"@ && mnc == "20"@)
            ||| (mcc == "208"@ && mnc == "21"@)
            ||| (mcc == "208"@ && mnc == "15"@)
            ||| (mcc == "208"@ && mnc == "16"@)
            ||| (mcc == "204"@ && mnc == "04"@)
            ||| (mcc == "204"@ && mnc == "02"@)
            ||| (mcc == "204"@ && mnc == "08"@)
            ||| (mcc == "204"@ && mnc == "10"@)
            ||| (mcc == "204"@ && mnc == "16"@)
            ||| (mcc == "204"@ && mnc == "20"@)
            ||| (mcc == "214"@ && mnc == "07"@)
            ||| (mcc == "214"@ && mnc == "05"@)
            ||| (mcc == "214"@ && mnc == "01"@)
            ||| (mcc == "214"@ && mnc == "06"@)
            ||| (mcc == "214"@ && mnc == "03"@)
            ||| (mcc == "214"@ && mnc == "09"@)
            ||| (mcc == "222"@ && mnc == "01"@)
            ||| (mcc == "222"@ && mnc == "10"@)
            ||| (mcc == "222"@ && mnc == "88"@)
            ||| (mcc == "222"@ && mnc == "50"@)
            ||| (mcc == "505"@ && mnc == "01"@)
            ||| (mcc == "505"@ && mnc == "02"@)
            ||| (mcc == "505"@ && mnc == "03"@)
            ||| (mcc == "505"@ && mnc == "06"@)
        },
{
}

/// Only the listed MCCs resolve to a country.
pub proof fn lemma_only_listed_mccs_resolve(mcc: Seq<char>)
    ensures
        spec_country_name(mcc) is Some ==> {
            ||| mcc == "310"@
            ||| mcc == "311"@
            ||| mcc == "312"@
            ||| mcc == "313"@
            ||| mcc == "314"@
            ||| mcc == "315"@
            ||| mcc == "316"@
            ||| mcc == "302"@
            ||| mcc == "334"@
            ||| mcc == "234"@
            ||| mcc == "235"@
            ||| mcc == "262"@
            ||| mcc == "208"@
            ||| mcc == "204"@
            ||| mcc == "214"@
            ||| mcc == "222"@
            ||| mcc == "232"@
            ||| mcc == "206"@
            ||| mcc == "228"@
            ||| mcc == "238"@
            ||| mcc == "240"@
            ||| mcc == "242"@
            ||| mcc == "244"@
            ||| mcc == "268"@
            ||| mcc == "272"@
            ||| mcc == "202"@
            ||| mcc == "260"@
            ||| mcc == "230"@
            ||| mcc == "216"@
            ||| mcc == "226"@
            ||| mcc == "255"@
            ||| mcc == "250"@
            ||| mcc == "286"@
            ||| mcc == "425"@
            ||| mcc == "460"@
            ||| mcc == "440"@
            ||| mcc == "441"@
            ||| mcc == "450"@
            ||| mcc == "404"@
            ||| mcc == "405"@
            ||| mcc == "406"@
            ||| mcc == "505"@
            ||| mcc == "530"@
            ||| mcc == "525"@
            ||| mcc == "454"@
            ||| mcc == "466"@
            ||| mcc == "502"@
            ||| mcc == "510"@
            ||| mcc == "515"@
            ||| mcc == "520"@
            ||| mcc == "452"@
            ||| mcc == "724"@
            ||| mcc == "722"@
            ||| mcc == "730"@
            ||| mcc == "732"@
            ||| mcc == "716"@
            ||| mcc == "655"@
            ||| mcc == "621"@
            ||| mcc == "639"@
            ||| mcc == "602"@
            ||| mcc == "424"@
            ||| mcc == "420"@
        },
{
}

} // verus!
