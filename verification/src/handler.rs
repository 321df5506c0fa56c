//! The request orchestrator's decisions: decoding the inbound body,
//! aggregating the publish outcomes, and shaping the outbound response.
//! The transport that carries the request and the concurrent dispatch of
//! the publish calls live outside the library.

use vstd::prelude::*;
use vstd::string::StringExecFns;
use vstd::string::StringSliceAdditionalSpecFns;
use vstd::utf8::valid_utf8;

use crate::cms::Cms;
use crate::event::Event;
use crate::parser::{img_srcs_of, parse_email};
use crate::{message_of, Error};

verus! {

/// Relies on core::str::from_utf8: it returns Ok exactly when the bytes
/// are valid UTF-8, and the returned text has those very bytes.
#[verifier::external_body]
fn utf8_decode(bytes: &[u8]) -> (r: Option<&str>)
    ensures
        r is Some <==> valid_utf8(bytes@),
        r matches Some(s) ==> s.spec_bytes() == bytes@,
{
    core::str::from_utf8(bytes).ok()
}

/// Decodes the raw request body as text. A body that is not valid UTF-8 is
/// the one condition the parsing step rejects.
pub fn decode_body(body: &[u8]) -> (r: Result<&str, Error>)
    ensures
        r is Ok <==> valid_utf8(body@),
        r matches Ok(s) ==> s.spec_bytes() == body@,
        !valid_utf8(body@) ==> r == Result::<&str, Error>::Err(Error::ParseError),
{
    match utf8_decode(body) {
        Some(s) => Ok(s),
        None => Err(Error::ParseError),
    }
}

/// Every publish outcome succeeded.
pub open spec fn all_ok(outcomes: Seq<Result<(), Error>>) -> bool {
    forall|i: int| 0 <= i < outcomes.len() ==> (#[trigger] outcomes[i]) is Ok
}

/// An equal error value, rebuilt field by field.
fn copy_error(e: &Error) -> (r: Error)
    ensures
        r == *e,
{
    match e {
        Error::ParseError => Error::ParseError,
        Error::Api(m) => Error::Api(m.clone()),
    }
}

/// Aggregates the outcomes of the publish calls once all have settled:
/// success exactly when every call succeeded, and otherwise the first
/// failure among them.
pub fn aggregate(outcomes: &Vec<Result<(), Error>>) -> (r: Result<(), Error>)
    ensures
        r is Ok <==> all_ok(outcomes@),
        forall|i: int|
            0 <= i < outcomes@.len() && (#[trigger] outcomes@[i]) is Err && (forall|j: int|
                0 <= j < i ==> (#[trigger] outcomes@[j]) is Ok) ==> r == outcomes@[i],
{
    let n = outcomes.len();
    let mut i: usize = 0;
    while i < n
        invariant
            i <= n,
            n == outcomes@.len(),
            forall|j: int| 0 <= j < i ==> (#[trigger] outcomes@[j]) is Ok,
        decreases n - i,
    {
        match &outcomes[i] {
            Ok(_) => {},
            Err(e) => {
                let err = copy_error(e);
                proof {
                    assert(outcomes@[i as int] is Err);
                    assert forall|k: int|
                        0 <= k < outcomes@.len() && (#[trigger] outcomes@[k]) is Err && (forall|
                            j: int,
                        |
                            0 <= j < k ==> (#[trigger] outcomes@[j]) is Ok) implies Result::<
                        (),
                        Error,
                    >::Err(err) == outcomes@[k] by {
                        if k < i {
                            assert(outcomes@[k] is Ok);
                        } else if k > i {
                            assert(outcomes@[i as int] is Ok);
                        }
                    }
                }
                return Err(err);
            },
        }
        i = i + 1;
    }
    Ok(())
}

/// Handles one inbound email body: parses it into events and publishes each
/// through the given CMS, then fails exactly when some publish call failed.
/// An email with no extractable images is a successful no-op. The publish
/// calls here are issued in document order, one after the other; every call
/// is issued and only then is failure reported.
pub fn handle_email<C: Cms>(cms: &C, email: &str) -> (r: Result<(), Error>)
    ensures
        img_srcs_of(email@).len() == 0 ==> r is Ok,
        email@.len() == 0 ==> r is Ok,
{
    let events: Vec<Event> = parse_email(email);
    let mut outcomes: Vec<Result<(), Error>> = Vec::new();
    let mut i: usize = 0;
    while i < events.len()
        invariant
            i <= events@.len(),
            outcomes@.len() == i,
            events@.len() == img_srcs_of(email@).len(),
            img_srcs_of(email@).len() == 0 ==> all_ok(outcomes@),
        decreases events@.len() - i,
    {
        let outcome = cms.save_event(&events[i]);
        outcomes.push(outcome);
        i = i + 1;
    }
    aggregate(&outcomes)
}

/// Shapes the outbound response for an aggregate outcome: a status and a
/// short body, with any failure reported in the error range and its
/// description available for logs.
pub fn response_of(outcome: &Result<(), Error>) -> (r: (u16, String))
    ensures
        outcome is Ok ==> r.0 == 200 && r.1@ == "Success!"@,
        outcome matches Err(e) ==> r.0 == 500 && r.1@ == message_of(*e),
{
    match outcome {
        Ok(_) => (200, "Success!".to_owned()),
        Err(e) => (500, e.message()),
    }
}

} // verus!
