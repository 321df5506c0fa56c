//! The tool that parses the emails and extracts the event data.

use vstd::prelude::*;

use crate::date::TS_MAX;
use crate::event::{event_for, Event};

verus! {

/// The src attribute values of the img elements of an HTML text, in document
/// order, skipping img elements without a src attribute. The text need not
/// be well-formed: the tree is built best-effort, and a text with no img
/// elements gives the empty sequence.
pub uninterp spec fn img_srcs_of(html: Seq<char>) -> Seq<Seq<char>>;

/// Relies on select::document::Document::from (a best-effort HTML5 tree
/// parse that cannot fail), Document::find with the predicate Name("img")
/// (the elements tagged img, in document order), and Node::attr("src"): the
/// result is a function of the text alone, and an empty text has no
/// elements.
#[verifier::external_body]
fn extract_img_srcs(html: &str) -> (r: Vec<String>)
    ensures
        r.deep_view() == img_srcs_of(html@),
        html@.len() == 0 ==> r@.len() == 0,
{
    let document = select::document::Document::from(html);
    document
        .find(select::predicate::Name("img"))
        .filter_map(|node| node.attr("src"))
        .map(|src| src.to_owned())
        .collect()
}

/// The event was constructed for the given image source at some accepted
/// instant.
pub open spec fn event_sourced(e: Event, src: Seq<char>) -> bool {
    exists|ts: int| 0 <= ts <= TS_MAX && #[trigger] event_for(e, src, ts)
}

/// What parsing yields: one event per extracted image source, in document
/// order, each constructed at some accepted instant with the image
/// reference doubling as the title.
pub open spec fn parse_post(html: Seq<char>, events: Seq<Event>) -> bool {
    &&& events.len() == img_srcs_of(html).len()
    &&& forall|i: int|
        0 <= i < events.len() ==> #[trigger] event_sourced(events[i], img_srcs_of(html)[i])
}

/// Parses the email and returns the event data.
pub fn parse_email(email: &str) -> (r: Vec<Event>)
    ensures
        parse_post(email@, r@),
        email@.len() == 0 ==> r@.len() == 0,
{
    let srcs = extract_img_srcs(email);
    let mut events: Vec<Event> = Vec::new();
    let mut i: usize = 0;
    while i < srcs.len()
        invariant
            i <= srcs.len(),
            srcs.deep_view() == img_srcs_of(email@),
            events@.len() == i,
            forall|j: int| 0 <= j < i ==> #[trigger] event_sourced(events@[j], img_srcs_of(email@)[j]),
        decreases srcs.len() - i,
    {
        assert(srcs.deep_view()[i as int] == srcs@[i as int]@);
        let event = Event::from(srcs[i].as_str());
        events.push(event);
        i = i + 1;
    }
    events
}

/// Parsing the same text twice yields sequences of the same length that
/// agree element-wise on title and image; only the start dates may differ,
/// as the construction instants may.
pub proof fn lemma_parse_deterministic(html: Seq<char>, r1: Seq<Event>, r2: Seq<Event>)
    requires
        parse_post(html, r1),
        parse_post(html, r2),
    ensures
        r1.len() == r2.len(),
        forall|i: int| 0 <= i < r1.len() ==> #[trigger] r1[i].image@ == r2[i].image@,
        forall|i: int| 0 <= i < r1.len() ==> #[trigger] r1[i].title@ == r2[i].title@,
{
    assert forall|i: int| 0 <= i < r1.len() implies #[trigger] r1[i].image@ == r2[i].image@ by {
        assert(event_sourced(r1[i], img_srcs_of(html)[i]));
        assert(event_sourced(r2[i], img_srcs_of(html)[i]));
        let ts1 = choose|ts: int|
            0 <= ts <= TS_MAX && #[trigger] event_for(r1[i], img_srcs_of(html)[i], ts);
        let ts2 = choose|ts: int|
            0 <= ts <= TS_MAX && #[trigger] event_for(r2[i], img_srcs_of(html)[i], ts);
        assert(r1[i].image@ == img_srcs_of(html)[i]);
        assert(r2[i].image@ == img_srcs_of(html)[i]);
    }
    assert forall|i: int| 0 <= i < r1.len() implies #[trigger] r1[i].title@ == r2[i].title@ by {
        assert(event_sourced(r1[i], img_srcs_of(html)[i]));
        assert(event_sourced(r2[i], img_srcs_of(html)[i]));
        let ts1 = choose|ts: int|
            0 <= ts <= TS_MAX && #[trigger] event_for(r1[i], img_srcs_of(html)[i], ts);
        let ts2 = choose|ts: int|
            0 <= ts <= TS_MAX && #[trigger] event_for(r2[i], img_srcs_of(html)[i], ts);
        assert(r1[i].title@ == img_srcs_of(html)[i]);
        assert(r2[i].title@ == img_srcs_of(html)[i]);
    }
}

} // verus!
