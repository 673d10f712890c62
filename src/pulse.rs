//! The pulse: one batched report of XP, its JSON body and where it is posted.
use vstd::prelude::*;
use vstd::string::StringExecFns;
use crate::text::{decimal, decimal_string, json_string, json_string_of};
use crate::xp::XpStore;

verus! {

/// Timestamps are milliseconds since the Unix epoch, within this bound either
/// way (about 253,000 years).
pub const MAX_TIMESTAMP_MS: i64 = 8_000_000_000_000_000;

/// The RFC 3339 text of a timestamp, in UTC.
pub uninterp spec fn rfc3339_of(millis: int) -> Seq<char>;

/// Relies on chrono's `DateTime::<Utc>::from_timestamp_millis`, which gives a
/// date for any timestamp within about 262,000 years of the epoch, and on
/// `DateTime::to_rfc3339`, whose text depends on that date alone.
#[verifier::external_body]
fn rfc3339_from_millis(millis: i64) -> (r: String)
    requires
        -MAX_TIMESTAMP_MS <= millis <= MAX_TIMESTAMP_MS,
    ensures
        r@ == rfc3339_of(millis as int),
{
    match chrono::DateTime::<chrono::Utc>::from_timestamp_millis(millis) {
        Some(t) => t.to_rfc3339(),
        None => String::new(),
    }
}

/// One language's XP in a pulse.
#[derive(Debug)]
pub struct PulseXp {
    pub language: String,
    pub xp: u32,
}

/// A report: when it was made and the XP of each language.
#[derive(Debug)]
pub struct PulsePayload {
    pub coded_at: String,
    pub xps: Vec<PulseXp>,
}

impl PulsePayload {
    /// The (language, XP) pairs of the report, in order.
    pub open spec fn xps_view(&self) -> Seq<(Seq<char>, nat)> {
        self.xps@.map_values(|x: PulseXp| (x.language@, x.xp as nat))
    }

    /// The JSON body of the report.
    pub fn to_json(&self) -> (r: String)
        ensures
            r@ == pulse_json(self.coded_at@, self.xps_view()),
    {
        let mut out = String::from_str("{\"coded_at\":");
        let stamp = json_string(self.coded_at.as_str());
        out.append(stamp.as_str());
        out.append(",\"xps\":[");
        let ghost head = out@;
        let ghost s = self.xps_view();
        let mut i: usize = 0;
        while i < self.xps.len()
            invariant
                i <= self.xps@.len(),
                s == self.xps_view(),
                out@ == head + xps_json(s.take(i as int)),
            decreases self.xps@.len() - i,
        {
            if i > 0 {
                out.append(",");
            }
            out.append("{\"language\":");
            let lang = json_string(self.xps[i].language.as_str());
            out.append(lang.as_str());
            out.append(",\"xp\":");
            let n = decimal_string(self.xps[i].xp);
            out.append(n.as_str());
            out.append("}");
            proof {
                assert(s.take(i + 1).drop_last() =~= s.take(i as int));
                assert(s.take(i + 1).last() == s[i as int]);
            }
            i = i + 1;
        }
        assert(s.take(i as int) =~= s);
        out.append("]}");
        out
    }
}

/// The JSON object of one language's XP.
pub open spec fn xp_json(e: (Seq<char>, nat)) -> Seq<char> {
    "{\"language\":"@ + json_string_of(e.0) + ",\"xp\":"@ + decimal(e.1) + "}"@
}

/// The JSON objects of a list of XP entries, separated by commas.
pub open spec fn xps_json(s: Seq<(Seq<char>, nat)>) -> Seq<char>
    decreases s.len(),
{
    if s.len() == 0 {
        Seq::empty()
    } else if s.len() == 1 {
        xp_json(s[0])
    } else {
        xps_json(s.drop_last()) + ","@ + xp_json(s.last())
    }
}

/// The JSON body of a pulse: `{"coded_at":...,"xps":[...]}`, with no spaces.
pub open spec fn pulse_json(coded_at: Seq<char>, xps: Seq<(Seq<char>, nat)>) -> Seq<char> {
    "{\"coded_at\":"@ + json_string_of(coded_at) + ",\"xps\":["@ + xps_json(xps) + "]}"@
}

/// Builds the pulse for a snapshot of the counters, stamped at `now`.
pub fn build_pulse(now: i64, snapshot: &XpStore) -> (r: PulsePayload)
    requires
        -MAX_TIMESTAMP_MS <= now <= MAX_TIMESTAMP_MS,
    ensures
        r.coded_at@ == rfc3339_of(now as int),
        r.xps_view() == snapshot@,
{
    let coded_at = rfc3339_from_millis(now);
    proof {
        snapshot.lemma_view();
    }
    let mut xps: Vec<PulseXp> = Vec::new();
    let mut i: usize = 0;
    while i < snapshot.entries.len()
        invariant
            i <= snapshot.entries@.len(),
            snapshot@.len() == snapshot.entries@.len(),
            xps@.len() == i,
            forall|j: int|
                0 <= j < i ==> (#[trigger] xps@[j]).language@ == snapshot@[j].0 && xps@[j].xp
                    as nat == snapshot@[j].1,
        decreases snapshot.entries@.len() - i,
    {
        proof {
            snapshot.lemma_view();
        }
        assert(snapshot@[i as int] == (
            snapshot.entries@[i as int].0@,
            snapshot.entries@[i as int].1 as nat,
        ));
        let language = snapshot.entries[i].0.clone();
        xps.push(PulseXp { language, xp: snapshot.entries[i].1 });
        i = i + 1;
    }
    let r = PulsePayload { coded_at, xps };
    assert(r.xps_view() =~= snapshot@);
    r
}

/// The address pulses are posted to: the server's base URL followed by `api/my/pulses`.
pub fn pulse_url(server: &str) -> (r: String)
    ensures
        r@ == server@ + "api/my/pulses"@,
{
    let mut r = String::from_str(server);
    r.append("api/my/pulses");
    r
}

} // verus!
