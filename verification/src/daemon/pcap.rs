//! Decisions of the pcap export: which recording a request names, when a
//! followed recording has ended, and which GPS fix goes with a packet.

use vstd::prelude::*;

verus! {

/// A GPS fix recorded alongside a capture.
#[derive(Debug, Clone, Copy)]
pub struct GpsRecord {
    /// The timestamp of the latest packet captured when the fix was taken.
    pub latest_packet_timestamp: Option<i64>,
    /// The system time of the fix.
    pub system_time: i64,
    /// Latitude, as the bits of an IEEE-754 double.
    pub lat_bits: u64,
    /// Longitude, as the bits of an IEEE-754 double.
    pub lon_bits: u64,
}

/// The GPS fix attached to an exported packet.
#[derive(Debug, Clone, Copy, PartialEq, Eq, Structural)]
pub struct GpsPoint {
    /// Latitude, as the bits of an IEEE-754 double.
    pub latitude_bits: u64,
    /// Longitude, as the bits of an IEEE-754 double.
    pub longitude_bits: u64,
    /// The fix's packet timestamp (the smallest `i64` when unknown).
    pub unix_ts: i64,
}

/// The timestamp a fix is ordered by; fixes without one sort first.
pub open spec fn record_ts(r: GpsRecord) -> int {
    match r.latest_packet_timestamp {
        Some(t) => t as int,
        None => i64::MIN as int,
    }
}

/// The timestamp a fix is ordered by; fixes without one sort first.
pub fn record_timestamp(r: &GpsRecord) -> (res: i64)
    ensures
        res as int == record_ts(*r),
{
    match r.latest_packet_timestamp {
        Some(t) => t,
        None => i64::MIN,
    }
}

/// Fixes in non-decreasing timestamp order.
pub open spec fn fixes_sorted(records: Seq<GpsRecord>) -> bool {
    forall|i: int, j: int|
        0 <= i <= j < records.len() ==> record_ts(#[trigger] records[i]) <= record_ts(
            #[trigger] records[j],
        )
}

/// `k` splits the fixes into those taken at or before `t` and those after.
pub open spec fn is_split(records: Seq<GpsRecord>, t: i64, k: int) -> bool {
    &&& 0 <= k <= records.len()
    &&& forall|i: int| 0 <= i < k ==> record_ts(#[trigger] records[i]) <= t
    &&& forall|i: int| k <= i < records.len() ==> record_ts(#[trigger] records[i]) > t
}

/// The fix nearest to `t` given the split `k`: the first fix when all are
/// later, the last when all are earlier, otherwise the nearer of the two
/// around `t`, the earlier one on a tie.
pub open spec fn nearest_index(records: Seq<GpsRecord>, t: i64, k: int) -> int {
    if k == 0 {
        0
    } else if k >= records.len() {
        records.len() - 1
    } else if t - record_ts(records[k - 1]) <= record_ts(records[k]) - t {
        k - 1
    } else {
        k
    }
}

/// The distances from `t` to the fixes around it fit in an `i64`.
pub open spec fn deltas_fit(records: Seq<GpsRecord>, t: i64) -> bool {
    forall|k: int|
        #![trigger is_split(records, t, k)]
        is_split(records, t, k) && 0 < k < records.len() ==> {
            &&& t - record_ts(records[k - 1]) <= i64::MAX
            &&& record_ts(records[k]) - t <= i64::MAX
        }
}

/// The distance in time between `t` and a fix.
pub open spec fn distance(r: GpsRecord, t: i64) -> int {
    if record_ts(r) <= t {
        t - record_ts(r)
    } else {
        record_ts(r) - t
    }
}

/// The fix chosen for a packet is nearest to it in time: no fix is closer.
pub proof fn lemma_nearest_is_closest(records: Seq<GpsRecord>, t: i64, k: int)
    requires
        fixes_sorted(records),
        is_split(records, t, k),
        records.len() > 0,
    ensures
        0 <= nearest_index(records, t, k) < records.len(),
        forall|i: int|
            0 <= i < records.len() ==> distance(records[nearest_index(records, t, k)], t)
                <= distance(#[trigger] records[i], t),
{
    let c = nearest_index(records, t, k);
    assert forall|i: int| 0 <= i < records.len() implies distance(records[c], t) <= distance(
        #[trigger] records[i],
        t,
    ) by {
        if k == 0 {
            assert(record_ts(records[0]) <= record_ts(records[i]));
        } else if k >= records.len() {
            assert(record_ts(records[i]) <= record_ts(records[records.len() - 1]));
        } else if i < k {
            assert(record_ts(records[i]) <= record_ts(records[k - 1]));
        } else {
            assert(record_ts(records[k]) <= record_ts(records[i]));
        }
    }
}

/// The point of a fix.
pub open spec fn point_of(r: GpsRecord) -> GpsPoint {
    GpsPoint { latitude_bits: r.lat_bits, longitude_bits: r.lon_bits, unix_ts: record_ts(r) as i64 }
}

/// The fix nearest in time to a packet, by binary search over fixes in time
/// order: the first fix for a packet before all of them, the last for one
/// after all of them, otherwise the nearer neighbour (the earlier on a tie).
pub fn find_nearest_gps(records: &[GpsRecord], packet_timestamp: i64) -> (res: Option<GpsPoint>)
    requires
        fixes_sorted(records@),
        deltas_fit(records@, packet_timestamp),
    ensures
        records@.len() == 0 ==> res is None,
        records@.len() > 0 ==> exists|k: int|
            is_split(records@, packet_timestamp, k) && res == Some(
                point_of(records@[nearest_index(records@, packet_timestamp, k)]),
            ),
{
    if records.len() == 0 {
        return None;
    }
    let mut lo: usize = 0;
    let mut hi: usize = records.len();
    while lo < hi
        invariant
            0 <= lo <= hi <= records@.len(),
            fixes_sorted(records@),
            forall|i: int| 0 <= i < lo ==> record_ts(#[trigger] records@[i]) <= packet_timestamp,
            forall|i: int|
                hi <= i < records@.len() ==> record_ts(#[trigger] records@[i]) > packet_timestamp,
        decreases hi - lo,
    {
        let mid = lo + (hi - lo) / 2;
        if record_timestamp(&records[mid]) <= packet_timestamp {
            proof {
                assert forall|i: int| 0 <= i < mid + 1 implies record_ts(
                    #[trigger] records@[i],
                ) <= packet_timestamp by {
                    assert(record_ts(records@[i]) <= record_ts(records@[mid as int]));
                }
            }
            lo = mid + 1;
        } else {
            proof {
                assert forall|i: int| mid <= i < records@.len() implies record_ts(
                    #[trigger] records@[i],
                ) > packet_timestamp by {
                    assert(record_ts(records@[mid as int]) <= record_ts(records@[i]));
                }
            }
            hi = mid;
        }
    }
    let idx = lo;
    assert(is_split(records@, packet_timestamp, idx as int));
    let record = if idx == 0 {
        &records[0]
    } else if idx >= records.len() {
        &records[records.len() - 1]
    } else {
        let before = &records[idx - 1];
        let after = &records[idx];
        let before_delta = packet_timestamp - record_timestamp(before);
        let after_delta = record_timestamp(after) - packet_timestamp;
        if before_delta <= after_delta {
            before
        } else {
            after
        }
    };
    Some(
        GpsPoint {
            latitude_bits: record.lat_bits,
            longitude_bits: record.lon_bits,
            unix_ts: record_timestamp(record),
        },
    )
}

/// `s` ends with `suffix`.
pub open spec fn ends_with(s: Seq<char>, suffix: Seq<char>) -> bool {
    suffix.len() <= s.len() && s.skip(s.len() - suffix.len()) == suffix
}

/// `s` with every trailing repetition of `suffix` removed.
pub open spec fn trim_end_matches(s: Seq<char>, suffix: Seq<char>) -> Seq<char>
    decreases s.len(),
{
    if suffix.len() > 0 && ends_with(s, suffix) {
        trim_end_matches(s.take(s.len() - suffix.len()), suffix)
    } else {
        s
    }
}

/// `s` repeated `k` times.
pub open spec fn repeated(s: Seq<char>, k: nat) -> Seq<char>
    decreases k,
{
    if k == 0 {
        Seq::empty()
    } else {
        repeated(s, (k - 1) as nat) + s
    }
}

/// Trimming a non-empty suffix leaves a string that no longer ends with it,
/// and the original string is what is left followed by some number of
/// copies of the suffix.
pub proof fn lemma_trim_removes_every_suffix(s: Seq<char>, suffix: Seq<char>)
    requires
        suffix.len() > 0,
    ensures
        !ends_with(trim_end_matches(s, suffix), suffix),
        exists|k: nat| s == trim_end_matches(s, suffix) + #[trigger] repeated(suffix, k),
    decreases s.len(),
{
    if ends_with(s, suffix) {
        let t = s.take(s.len() - suffix.len());
        lemma_trim_removes_every_suffix(t, suffix);
        let r = trim_end_matches(s, suffix);
        assert(r == trim_end_matches(t, suffix));
        let k = choose|k: nat| t == r + #[trigger] repeated(suffix, k);
        assert(s =~= t + suffix);
        assert(repeated(suffix, k + 1) == repeated(suffix, k) + suffix);
        assert(s =~= r + repeated(suffix, k + 1));
    } else {
        assert(s =~= s + repeated(suffix, 0));
    }
}

/// The recording a pcap request names: a name ending in "pcapng" has every
/// trailing ".pcapng" removed.
pub open spec fn requested_recording(name: Seq<char>) -> Seq<char> {
    if ends_with(name, "pcapng"@) {
        trim_end_matches(name, ".pcapng"@)
    } else {
        name
    }
}

/// Whether `s` ends with `suffix`.
fn str_ends_with(s: &str, suffix: &str) -> (res: bool)
    ensures
        res == ends_with(s@, suffix@),
{
    let n = s.unicode_len();
    let m = suffix.unicode_len();
    if m > n {
        return false;
    }
    let mut i: usize = 0;
    while i < m
        invariant
            n == s@.len(),
            m == suffix@.len(),
            m <= n,
            i <= m,
            forall|j: int| 0 <= j < i ==> s@[n - m + j] == suffix@[j],
        decreases m - i,
    {
        if s.get_char(n - m + i) != suffix.get_char(i) {
            assert(s@.skip(n - m)[i as int] != suffix@[i as int]);
            return false;
        }
        i = i + 1;
    }
    assert(s@.skip(n - m) =~= suffix@);
    true
}

/// The recording a pcap request names, and whether it asks to follow the
/// live recording (the name "live").
pub fn pcap_request(name: &str) -> (res: (String, bool))
    ensures
        res.0@ == requested_recording(name@),
        res.1 == (requested_recording(name@) == "live"@),
{
    let mut current: &str = name;
    if str_ends_with(name, "pcapng") {
        proof {
            reveal_strlit(".pcapng");
        }
        while str_ends_with(current, ".pcapng")
            invariant
                trim_end_matches(current@, ".pcapng"@) == trim_end_matches(name@, ".pcapng"@),
                ".pcapng"@.len() == 7,
            decreases current@.len(),
        {
            let n = current.unicode_len();
            current = current.substring_char(0, n - 7);
        }
    }
    let result = String::from_str(current);
    let live = crate::text::str_eq(current, "live");
    (result, live)
}

/// The refusal when "live" is asked for and nothing is being recorded.
pub open spec fn no_recording_message() -> Seq<char> {
    "No QMDL data's being recorded, try starting a new recording!"@
}

/// The refusal when no recording has the requested name.
pub open spec fn no_such_entry_message(name: Seq<char>) -> Seq<char> {
    "couldn't find manifest entry with name "@ + name
}

/// The refusal when the chosen recording holds no data yet.
pub open spec fn empty_recording_message() -> Seq<char> {
    "QMDL file is empty, try again in a bit!"@
}

/// The recording a pcap request is served from, given the current recording
/// and the one with the requested name (each as its index and size in
/// bytes): "live" asks for the current one, any other name for the named
/// one. The answer is its index and whether it is followed live, or the
/// HTTP status and message of the refusal: 503 when "live" is asked for and
/// nothing is recorded, 404 when no recording has the name, 503 when the
/// chosen recording is empty.
pub open spec fn pcap_choice(
    name: Seq<char>,
    current: Option<(usize, u64)>,
    named: Option<(usize, u64)>,
) -> Result<(usize, bool), (u16, Seq<char>)> {
    let n = requested_recording(name);
    let live = n == "live"@;
    let entry = if live {
        current
    } else {
        named
    };
    match entry {
        None => if live {
            Err((503u16, no_recording_message()))
        } else {
            Err((404u16, no_such_entry_message(n)))
        },
        Some((index, size)) => if size == 0 {
            Err((503u16, empty_recording_message()))
        } else {
            Ok((index, live))
        },
    }
}

/// A pcap request is served exactly when the recording it asks for (the
/// current one for "live", the named one otherwise) exists and holds data,
/// and then from that recording, followed live exactly for "live"; it is
/// refused as not found (404) exactly when a named recording does not
/// exist, and as unavailable (503) exactly when "live" is asked for with
/// nothing recording or the recording asked for is empty.
pub proof fn lemma_pcap_choice_statuses(
    name: Seq<char>,
    current: Option<(usize, u64)>,
    named: Option<(usize, u64)>,
)
    ensures
        ({
            let live = requested_recording(name) == "live"@;
            let wanted = if live {
                current
            } else {
                named
            };
            let r = pcap_choice(name, current, named);
            &&& r is Ok <==> (wanted matches Some((_, size)) && size != 0)
            &&& r matches Ok((index, follow)) ==> (wanted matches Some((i, _)) && index == i
                && follow == live)
            &&& (r matches Err((code, _)) && code == 404) <==> (!live && named is None)
            &&& (r matches Err((code, _)) && code == 503) <==> ((live && current is None) || (
            wanted matches Some((_, size)) && size == 0))
        }),
{
}

/// Chooses the recording a pcap request is served from; see
/// [`pcap_choice`]. `named` is the recording with the name
/// [`pcap_request`] gives.
pub fn choose_pcap_entry(
    name: &str,
    current: Option<(usize, u64)>,
    named: Option<(usize, u64)>,
) -> (res: Result<(usize, bool), (u16, String)>)
    ensures
        match res {
            Ok(v) => pcap_choice(name@, current, named) == Ok::<(usize, bool), (u16, Seq<char>)>(v),
            Err((code, message)) => pcap_choice(name@, current, named) == Err::<
                (usize, bool),
                (u16, Seq<char>),
            >((code, message@)),
        },
{
    let (n, live) = pcap_request(name);
    let entry = if live {
        current
    } else {
        named
    };
    match entry {
        None => {
            if live {
                Err((503, String::from_str("No QMDL data's being recorded, try starting a new recording!")))
            } else {
                let mut message = String::from_str("couldn't find manifest entry with name ");
                message.append(n.as_str());
                Err((404, message))
            }
        },
        Some((index, size)) => {
            if size == 0 {
                Err((503, String::from_str("QMDL file is empty, try again in a bit!")))
            } else {
                Ok((index, live))
            }
        },
    }
}

/// What a read of a followed, still-growing recording does next.
#[derive(Debug, Clone, Copy, PartialEq, Eq, Structural)]
pub enum FollowStep {
    /// Hand the read's outcome to the caller.
    Deliver,
    /// Report the end of the stream.
    EndOfStream,
    /// Wait for the recording to grow, then read again.
    WaitAndRetry,
}

/// The next step after reading a followed recording: a read that completed
/// without new data means the recording has not grown yet, which is the end
/// of the stream once following was stopped and otherwise a reason to wait
/// and retry; any other outcome is delivered.
pub fn follow_step(completed_ok: bool, new_bytes: bool, stopped: bool) -> (res: FollowStep)
    ensures
        res == if completed_ok && !new_bytes {
            if stopped {
                FollowStep::EndOfStream
            } else {
                FollowStep::WaitAndRetry
            }
        } else {
            FollowStep::Deliver
        },
{
    if completed_ok && !new_bytes {
        if stopped {
            FollowStep::EndOfStream
        } else {
            FollowStep::WaitAndRetry
        }
    } else {
        FollowStep::Deliver
    }
}

} // verus!
