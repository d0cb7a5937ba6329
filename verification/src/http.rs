//! Plain-value model of the HTTP messages that pass through the gateway.

use vstd::prelude::*;
use vstd::string::*;

verus! {

/// Status of the redirect that answers a blocked user agent.
pub const MOVED_PERMANENTLY: u16 = 301;

/// Status of the redirect that answers every other rejection.
pub const FOUND: u16 = 302;

/// One header line: a name and a value, both as the bytes on the wire.
#[derive(Debug, Clone, PartialEq, Eq)]
pub struct Header {
    pub name: Vec<u8>,
    pub value: Vec<u8>,
}

/// What a `Header` holds.
pub struct HeaderView {
    pub name: Seq<u8>,
    pub value: Seq<u8>,
}

impl View for Header {
    type V = HeaderView;

    open spec fn view(&self) -> HeaderView {
        HeaderView { name: self.name@, value: self.value@ }
    }
}

/// The views of a list of headers, in order.
pub open spec fn header_views(headers: Seq<Header>) -> Seq<HeaderView> {
    headers.map_values(|h: Header| h@)
}

/// A response with its body fully buffered.
#[derive(Debug, Clone, PartialEq, Eq)]
pub struct Response {
    pub status: u16,
    pub headers: Vec<Header>,
    pub body: Vec<u8>,
}

/// What a `Response` holds.
pub struct ResponseView {
    pub status: u16,
    pub headers: Seq<HeaderView>,
    pub body: Seq<u8>,
}

impl View for Response {
    type V = ResponseView;

    open spec fn view(&self) -> ResponseView {
        ResponseView { status: self.status, headers: header_views(self.headers@), body: self.body@ }
    }
}

/// A redirect to `location`: the status, a `Location` header, a zero
/// `Content-Length`, and no body.
pub open spec fn redirect_view(status: u16, location: Seq<char>) -> ResponseView {
    ResponseView {
        status,
        headers: seq![
            HeaderView { name: "Location".spec_bytes(), value: encode_text(location) },
            HeaderView { name: "Content-Length".spec_bytes(), value: "0".spec_bytes() },
        ],
        body: Seq::empty(),
    }
}

/// The bytes of a text on the wire.
pub open spec fn encode_text(text: Seq<char>) -> Seq<u8> {
    vstd::utf8::encode_utf8(text)
}

/// Builds the redirect with the given status.
pub fn redirect_with_status(status: u16, location: &str) -> (r: Response)
    ensures
        r@ == redirect_view(status, location@),
{
    let mut headers: Vec<Header> = Vec::new();
    headers.push(Header { name: "Location".as_bytes_vec(), value: location.as_bytes_vec() });
    headers.push(Header { name: "Content-Length".as_bytes_vec(), value: "0".as_bytes_vec() });
    let r = Response { status, headers, body: Vec::new() };
    assert(r@.headers =~= redirect_view(status, location@).headers);
    r
}

/// A temporary redirect to `location`, with an empty body.
pub fn redirect(location: &str) -> (r: Response)
    ensures
        r@ == redirect_view(FOUND, location@),
{
    redirect_with_status(FOUND, location)
}

} // verus!
