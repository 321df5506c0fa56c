//! The event type which represents an upcoming event.

use vstd::prelude::*;
use vstd::string::StringExecFns;

use crate::date::{
    civil_from_day, day_number, next_sunday_day, sunday_offset, valid_civil, TS_MAX,
};
use crate::text::{dec2, dec4, push_dec2, push_dec4};

verus! {

/// An upcoming event.
#[derive(Debug, Clone)]
pub struct Event {
    /// The title of the event.
    pub title: String,

    /// The start date of the event.
    /// This is always the next Sunday relative to the construction instant.
    pub start_date: String,

    /// The image of the event.
    pub image: String,
}

/// The textual timestamp `y`-`m`-`d`T`h`:`mi`:`s`Z.
pub open spec fn timestamp_chars(y: int, m: int, d: int, h: int, mi: int, s: int) -> Seq<char> {
    dec4(y) + "-"@ + dec2(m) + "-"@ + dec2(d) + "T"@ + dec2(h) + ":"@ + dec2(mi) + ":"@ + dec2(s)
        + "Z"@
}

/// What `start_date` holds for an event constructed at `ts` seconds after
/// 1970-01-01T00:00:00Z: the timestamp of the first Sunday on or after the
/// day of `ts`, carrying the time of day of `ts`.
pub open spec fn start_date_for(start_date: Seq<char>, ts: int) -> bool {
    let day = ts / 86400;
    let secs = ts % 86400;
    let sunday = day + sunday_offset(day);
    exists|y: int, m: int, d: int|
        {
            &&& #[trigger] valid_civil(y, m, d)
            &&& day_number(y, m, d) == sunday
            &&& start_date == timestamp_chars(y, m, d, secs / 3600, (secs % 3600) / 60, secs % 60)
        }
}

/// What an event constructed for `image` at instant `ts` holds: the image
/// reference doubles as the title, and the start date follows the Sunday
/// rule.
pub open spec fn event_for(e: Event, image: Seq<char>, ts: int) -> bool {
    &&& e.title@ == image
    &&& e.image@ == image
    &&& start_date_for(e.start_date@, ts)
}

/// Relies on chrono::Utc::now and chrono::DateTime::timestamp: the current
/// instant as whole seconds since 1970-01-01T00:00:00Z. chrono restricts
/// dates to the years -262144 to 262143, which bounds the magnitude.
#[verifier::external_body]
fn now_timestamp() -> (r: i64)
    ensures
        -9_000_000_000_000 < r < 9_000_000_000_000,
{
    chrono::Utc::now().timestamp()
}

impl Event {
    /// Creates a new event as of the given instant, in seconds since
    /// 1970-01-01T00:00:00Z.
    pub fn new_at(image: String, ts: i64) -> (e: Event)
        requires
            0 <= ts <= TS_MAX,
        ensures
            event_for(e, image@, ts as int),
    {
        let t: u64 = ts as u64;
        let day: u32 = (t / 86400) as u32;
        let secs: u32 = (t % 86400) as u32;
        assert(day as int == ts as int / 86400);
        assert(secs as int == ts as int % 86400);
        let sunday: u32 = next_sunday_day(day);
        let (y, m, d) = civil_from_day(sunday);
        let h: u8 = (secs / 3600) as u8;
        let mi: u8 = ((secs % 3600) / 60) as u8;
        let s: u8 = (secs % 60) as u8;
        let mut start_date = String::new();
        push_dec4(&mut start_date, y);
        start_date.append("-");
        push_dec2(&mut start_date, m);
        start_date.append("-");
        push_dec2(&mut start_date, d);
        start_date.append("T");
        push_dec2(&mut start_date, h);
        start_date.append(":");
        push_dec2(&mut start_date, mi);
        start_date.append(":");
        push_dec2(&mut start_date, s);
        start_date.append("Z");
        assert(start_date@ =~= timestamp_chars(
            y as int,
            m as int,
            d as int,
            h as int,
            mi as int,
            s as int,
        ));
        let title = image.clone();
        assert(title@ == image@);
        Event { title, start_date, image }
    }

    /// Creates a new event as of the current instant. An instant outside the
    /// years 1970 to 9999 is drawn to the nearest one inside them.
    pub fn new(image: String) -> (e: Event)
        ensures
            exists|ts: int| 0 <= ts <= TS_MAX && #[trigger] event_for(e, image@, ts),
    {
        let now = now_timestamp();
        let ts: i64 = if now < 0 {
            0
        } else if now > TS_MAX {
            TS_MAX
        } else {
            now
        };
        Event::new_at(image, ts)
    }

    /// Creates a new event from the given image.
    pub fn from(image: &str) -> (e: Event)
        ensures
            exists|ts: int| 0 <= ts <= TS_MAX && #[trigger] event_for(e, image@, ts),
    {
        Event::new(image.to_owned())
    }
}

/// Two events constructed for the same image at the same instant are equal
/// in every field, the start date included: construction is deterministic
/// once the clock is fixed.
pub proof fn lemma_same_instant_same_event(e1: Event, e2: Event, image: Seq<char>, ts: int)
    requires
        0 <= ts <= TS_MAX,
        event_for(e1, image, ts),
        event_for(e2, image, ts),
    ensures
        e1.title@ == e2.title@,
        e1.image@ == e2.image@,
        e1.start_date@ == e2.start_date@,
{
    let day = ts / 86400;
    let secs = ts % 86400;
    let sunday = day + sunday_offset(day);
    let (y1, m1, d1): (int, int, int) = choose|y: int, m: int, d: int|
        {
            &&& #[trigger] valid_civil(y, m, d)
            &&& day_number(y, m, d) == sunday
            &&& e1.start_date@ == timestamp_chars(y, m, d, secs / 3600, (secs % 3600) / 60, secs % 60)
        };
    let (y2, m2, d2): (int, int, int) = choose|y: int, m: int, d: int|
        {
            &&& #[trigger] valid_civil(y, m, d)
            &&& day_number(y, m, d) == sunday
            &&& e2.start_date@ == timestamp_chars(y, m, d, secs / 3600, (secs % 3600) / 60, secs % 60)
        };
    crate::date::lemma_civil_unique(y1, m1, d1, y2, m2, d2);
}

} // verus!
