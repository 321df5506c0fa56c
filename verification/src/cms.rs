//! The service contract for interacting with the CMS, and the verified
//! pieces of the HTTP implementation: the authorization header value, the
//! JSON body, and the classification of the response status.

use vstd::prelude::*;
use vstd::string::StrSliceExecFns;
use vstd::string::StringExecFns;
use vstd::utf8::encode_utf8;

use crate::event::Event;
use crate::text::{dec_str, hex_digit, hex_str, push_char, push_dec};
use crate::Error;

verus! {

/// The CMS service: saves one event, yielding success or a typed failure.
/// The HTTP implementation lives outside the library; an in-memory one is
/// [`FakeCms`].
pub trait Cms {
    /// Saves the event to the CMS.
    fn save_event(&self, event: &Event) -> Result<(), Error>;
}

/// The standard base64 encoding, with padding, of a byte sequence.
pub uninterp spec fn base64_std_of(bytes: Seq<u8>) -> Seq<char>;

/// Relies on base64::engine::Engine::encode with the standard alphabet and
/// padding: the encoding is a function of the input bytes alone, and its
/// documented length is four characters for every three input bytes,
/// rounded up.
#[verifier::external_body]
fn b64_encode(bytes: &[u8]) -> (r: String)
    ensures
        r@ == base64_std_of(bytes@),
        r@.len() == 4 * ((bytes@.len() + 2) / 3),
{
    base64::Engine::encode(&base64::prelude::BASE64_STANDARD, bytes)
}

/// The HTTP Basic authorization header value for a credential pair: the
/// base64 encoding of `username:password` after the scheme name.
pub open spec fn basic_auth_of(username: Seq<char>, password: Seq<char>) -> Seq<char> {
    "Basic "@ + base64_std_of(encode_utf8(username + ":"@ + password))
}

/// Builds the HTTP Basic authorization header value sent on every request
/// to the CMS. It is computed once, at client construction.
pub fn basic_auth_value(username: &str, password: &str) -> (r: String)
    ensures
        r@ == basic_auth_of(username@, password@),
{
    let mut credentials = username.to_owned();
    credentials.append(":");
    credentials.append(password);
    assert(credentials@ =~= username@ + ":"@ + password@);
    let encoded = b64_encode(credentials.as_str().as_bytes());
    let mut r = "Basic ".to_owned();
    r.append(encoded.as_str());
    assert(r@ =~= basic_auth_of(username@, password@));
    r
}

/// The JSON escape of one character: quote and backslash get a backslash,
/// the named control characters their short form, other control characters
/// a four-digit escape, and all else stands as it is.
pub open spec fn json_escape_char(c: char) -> Seq<char> {
    if c == '"' {
        "\\\""@
    } else if c == '\\' {
        "\\\\"@
    } else if c == '\n' {
        "\\n"@
    } else if c == '\r' {
        "\\r"@
    } else if c == '\t' {
        "\\t"@
    } else if c == '\u{8}' {
        "\\b"@
    } else if c == '\u{c}' {
        "\\f"@
    } else if (c as int) < 32 {
        "\\u00"@ + seq![hex_digit((c as int) / 16), hex_digit((c as int) % 16)]
    } else {
        seq![c]
    }
}

/// The JSON escape of a character sequence.
pub open spec fn json_escape(s: Seq<char>) -> Seq<char>
    decreases s.len(),
{
    if s.len() == 0 {
        Seq::empty()
    } else {
        json_escape(s.drop_last()) + json_escape_char(s.last())
    }
}

/// The JSON string literal for a character sequence: the escape of the
/// sequence between double quotes.
pub open spec fn json_string(s: Seq<char>) -> Seq<char> {
    "\""@ + json_escape(s) + "\""@
}

/// The JSON body posted to the CMS for an event: an object with the title,
/// the start date and the image.
pub open spec fn event_json(e: Event) -> Seq<char> {
    "{\"title\":"@ + json_string(e.title@) + ",\"start_date\":"@ + json_string(e.start_date@)
        + ",\"image\":"@ + json_string(e.image@) + "}"@
}

/// Appends the JSON escape of one character.
fn push_json_escaped(out: &mut String, c: char)
    ensures
        final(out)@ == old(out)@ + json_escape_char(c),
{
    if c == '"' {
        out.append("\\\"");
    } else if c == '\\' {
        out.append("\\\\");
    } else if c == '\n' {
        out.append("\\n");
    } else if c == '\r' {
        out.append("\\r");
    } else if c == '\t' {
        out.append("\\t");
    } else if c == '\u{8}' {
        out.append("\\b");
    } else if c == '\u{c}' {
        out.append("\\f");
    } else if (c as u32) < 32 {
        out.append("\\u00");
        let code: u32 = c as u32;
        out.append(hex_str((code / 16) as u8));
        out.append(hex_str((code % 16) as u8));
        assert(out@ =~= old(out)@ + json_escape_char(c));
    } else {
        push_char(out, c);
    }
}

/// Appends the JSON string literal for a text.
fn push_json_string(out: &mut String, s: &str)
    ensures
        final(out)@ == old(out)@ + json_string(s@),
{
    out.append("\"");
    let n = s.unicode_len();
    let mut i: usize = 0;
    while i < n
        invariant
            n == s@.len(),
            i <= n,
            out@ == old(out)@ + "\""@ + json_escape(s@.take(i as int)),
        decreases n - i,
    {
        let c = s.get_char(i);
        push_json_escaped(out, c);
        proof {
            assert(s@.take(i + 1).drop_last() =~= s@.take(i as int));
            assert(s@.take(i + 1).last() == s@[i as int]);
            assert(json_escape(s@.take(i + 1)) == json_escape(s@.take(i as int))
                + json_escape_char(s@[i as int]));
        }
        i = i + 1;
    }
    out.append("\"");
    proof {
        assert(s@.take(n as int) =~= s@);
        assert(out@ =~= old(out)@ + json_string(s@));
    }
}

/// Serializes the event into the JSON body posted to the CMS.
pub fn json_body(event: &Event) -> (r: String)
    ensures
        r@ == event_json(*event),
{
    let mut r = "{\"title\":".to_owned();
    push_json_string(&mut r, event.title.as_str());
    r.append(",\"start_date\":");
    push_json_string(&mut r, event.start_date.as_str());
    r.append(",\"image\":");
    push_json_string(&mut r, event.image.as_str());
    r.append("}");
    assert(r@ =~= event_json(*event));
    r
}

/// The description carried by a publish failure with a known response
/// status.
pub open spec fn status_err_msg(status: int) -> Seq<char> {
    "Failed to create event with status code: "@ + dec_str(status)
}

/// Classifies an HTTP response status from the CMS: any status in the
/// success range is a success, and any other status is a publish failure
/// carrying the status in its description.
pub fn classify_status(status: u16) -> (r: Result<(), Error>)
    ensures
        r is Ok <==> 200 <= status < 300,
        !(200 <= status < 300) ==> (r matches Err(Error::Api(m)) && m@ == status_err_msg(
            status as int,
        )),
{
    if 200 <= status && status < 300 {
        Ok(())
    } else {
        let mut m = "Failed to create event with status code: ".to_owned();
        push_dec(&mut m, status as u64);
        Err(Error::Api(m))
    }
}

/// An in-memory CMS used in place of the HTTP one where no network should
/// be touched: it rejects exactly the events whose image reference is on
/// its failing list.
pub struct FakeCms {
    /// Image references whose events this CMS rejects.
    pub fail_images: Vec<String>,
}

impl Cms for FakeCms {
    fn save_event(&self, event: &Event) -> Result<(), Error> {
        let mut i: usize = 0;
        while i < self.fail_images.len()
            decreases self.fail_images.len() - i,
        {
            if self.fail_images[i] == event.image {
                return Err(Error::Api("event rejected".to_owned()));
            }
            i = i + 1;
        }
        Ok(())
    }
}

} // verus!
