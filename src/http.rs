use vstd::prelude::*;
use vstd::string::StringSliceAdditionalSpecFns;
use vstd::utf8::encode_utf8;
use crate::event::{Metadata, MetadataView};
use crate::wire::{append_bytes, decimal, decimal_i32, decimal_u128, signed_decimal};

verus! {

#[verifier::external_type_specification]
#[verifier::external_body]
pub struct ExUrl(reqwest::Url);

/// A relay that posts each event to an HTTP listener at a fixed URL.
pub struct HttpRelay {
    url: reqwest::Url,
}

/// The HTTP relay.
pub type Http = HttpRelay;

impl HttpRelay {
    /// The URL that this relay posts to.
    pub closed spec fn spec_url(&self) -> reqwest::Url {
        self.url
    }

    /// Creates a relay that posts to `url`.
    pub fn new(url: reqwest::Url) -> (r: HttpRelay)
        ensures
            r.spec_url() == url,
    {
        HttpRelay { url }
    }

    /// The URL that this relay posts to.
    pub fn url(&self) -> (r: &reqwest::Url)
        ensures
            *r == self.spec_url(),
    {
        &self.url
    }
}

/// The headers that a request of the HTTP relay carries.
#[derive(PartialEq, Eq, Structural, Clone, Copy, Debug)]
pub enum HeaderName {
    ContentType,
    LocalTime,
    Platform,
    Portal,
    DebugPin,
}

impl HeaderName {
    /// The header's name on the wire.
    pub fn as_str(&self) -> (r: &'static str)
        ensures
            r@ == match *self {
                HeaderName::ContentType => "Content-Type"@,
                HeaderName::LocalTime => "X-Local-Time"@,
                HeaderName::Platform => "X-Platform"@,
                HeaderName::Portal => "X-Portal"@,
                HeaderName::DebugPin => "X-Debug-Pin"@,
            },
    {
        match self {
            HeaderName::ContentType => "Content-Type",
            HeaderName::LocalTime => "X-Local-Time",
            HeaderName::Platform => "X-Platform",
            HeaderName::Portal => "X-Portal",
            HeaderName::DebugPin => "X-Debug-Pin",
        }
    }
}

/// One header of a request: its name and the bytes of its value.
pub struct Header {
    pub name: HeaderName,
    pub value: Vec<u8>,
}

/// The headers of the request that carries an event with this metadata, in
/// order: the content type, the local time, the platform, the portal, and the
/// debug pin when there is one.
pub open spec fn request_headers_spec(m: MetadataView) -> Seq<(HeaderName, Seq<u8>)> {
    seq![
        (HeaderName::ContentType, "application/json".spec_bytes()),
        (HeaderName::LocalTime, decimal(m.time as nat)),
        (HeaderName::Platform, "web".spec_bytes()),
        (HeaderName::Portal, encode_utf8(m.portal)),
    ] + match m.debug_pin {
        Some(pin) => seq![(HeaderName::DebugPin, signed_decimal(pin as int))],
        None => Seq::empty(),
    }
}

/// The name and value of each header, in order.
pub open spec fn headers_view(h: Seq<Header>) -> Seq<(HeaderName, Seq<u8>)> {
    h.map_values(|x: Header| (x.name, x.value@))
}

fn to_vec(s: &[u8]) -> (r: Vec<u8>)
    ensures
        r@ == s@,
{
    let mut out: Vec<u8> = Vec::new();
    append_bytes(&mut out, s);
    assert(out@ =~= s@);
    out
}

/// The headers of the POST request that carries an event with `metadata`.
pub fn request_headers(metadata: &Metadata) -> (r: Vec<Header>)
    ensures
        headers_view(r@) == request_headers_spec(metadata@),
{
    let mut headers: Vec<Header> = Vec::new();
    headers.push(
        Header { name: HeaderName::ContentType, value: to_vec("application/json".as_bytes()) },
    );
    headers.push(Header { name: HeaderName::LocalTime, value: decimal_u128(metadata.time()) });
    headers.push(Header { name: HeaderName::Platform, value: to_vec("web".as_bytes()) });
    headers.push(Header { name: HeaderName::Portal, value: to_vec(metadata.portal().as_bytes()) });
    match metadata.debug_pin() {
        Some(pin) => {
            headers.push(Header { name: HeaderName::DebugPin, value: decimal_i32(pin) });
        },
        None => {},
    }
    assert(headers_view(headers@) =~= request_headers_spec(metadata@));
    headers
}

} // verus!
