//! The HTTP client library as the verified code sees it: its types, and the
//! contracts assumed of the functions that are called on them.

use reqwest::header::{HeaderMap, HeaderValue, InvalidHeaderValue};
use reqwest::Client;
use std::time::Duration;
use vstd::prelude::*;
use vstd::string::*;
use vstd::utf8::*;

verus! {

#[verifier::external_type_specification]
#[verifier::external_body]
pub struct ExHeaderValue(reqwest::header::HeaderValue);

#[verifier::external_type_specification]
#[verifier::external_body]
pub struct ExInvalidHeaderValue(reqwest::header::InvalidHeaderValue);

#[verifier::external_type_specification]
#[verifier::external_body]
#[verifier::reject_recursive_types(T)]
pub struct ExHeaderMap<T>(reqwest::header::HeaderMap<T>);

#[verifier::external_type_specification]
#[verifier::external_body]
pub struct ExClient(reqwest::Client);

#[verifier::external_type_specification]
#[verifier::external_body]
pub struct ExTransportFailure(reqwest::Error);

/// A byte that may stand in the value of an HTTP header: anything from the
/// space upwards except DEL, and the horizontal tab.
pub open spec fn header_byte_ok(b: u8) -> bool {
    (b >= 32 && b != 127) || b == 9
}

/// A byte of visible ASCII, or the horizontal tab.
pub open spec fn header_byte_visible(b: u8) -> bool {
    (b >= 32 && b < 127) || b == 9
}

/// Whether `text`, encoded as UTF-8, is made of bytes that an HTTP header
/// value may hold.
pub open spec fn legal_header_value(text: Seq<char>) -> bool {
    forall|i: int|
        0 <= i < encode_utf8(text).len() ==> header_byte_ok(#[trigger] encode_utf8(text)[i])
}

/// Whether `text`, encoded as UTF-8, is made of visible ASCII and tabs only.
pub open spec fn visible_header_value(text: Seq<char>) -> bool {
    forall|i: int|
        0 <= i < encode_utf8(text).len() ==> header_byte_visible(
            #[trigger] encode_utf8(text)[i],
        )
}

/// The bytes that a header value is made of.
pub uninterp spec fn header_value_bytes(value: HeaderValue) -> Seq<u8>;

/// `HeaderValue::from_str` scans the bytes of its argument and accepts it
/// exactly when each of them is 32 or more and not 127, or is a tab. The
/// value that it makes holds a copy of those bytes.
pub assume_specification[ reqwest::header::HeaderValue::from_str ](src: &str) -> (r: Result<
    HeaderValue,
    InvalidHeaderValue,
>)
    ensures
        r is Ok <==> legal_header_value(src@),
        r is Ok ==> header_value_bytes(r->Ok_0) == encode_utf8(src@),
;

/// `HeaderValue::from_static` makes a value of the bytes of its argument. It
/// panics on a byte that is neither visible ASCII nor a tab; such arguments
/// are excluded.
pub assume_specification[ reqwest::header::HeaderValue::from_static ](src: &'static str) -> (r:
    HeaderValue)
    requires
        visible_header_value(src@),
    ensures
        header_value_bytes(r) == encode_utf8(src@),
;

/// The names under which `map` holds values, each with the bytes of the
/// value that it holds under that name (of the last one, where it holds
/// several).
pub uninterp spec fn header_map_entries(map: HeaderMap<HeaderValue>) -> Map<Seq<char>, Seq<u8>>;

/// The entries of a map that holds nothing.
pub open spec fn no_entries() -> Map<Seq<char>, Seq<u8>> {
    Map::empty()
}

/// `HeaderMap::new` makes a map without entries.
pub assume_specification[ reqwest::header::HeaderMap::<HeaderValue>::new ]() -> (map: HeaderMap<
    HeaderValue,
>)
    ensures
        header_map_entries(map) == no_entries(),
;

/// How many names a header map is allowed to hold before another is added.
/// The map itself gives up only far beyond this.
pub const HEADER_NAME_LIMIT: usize = 1024;

/// `HeaderMap::insert` with a lower-case literal for the name. Afterwards the
/// map holds `value`, and nothing else, under `name`; what it holds under
/// other names is as before. The call panics on a name that is no valid
/// header name, and when the map outgrows its size limit of several thousand
/// names: the contract admits the two names that this library sets, on a map
/// well below that limit.
#[verifier::external_body]
pub(crate) fn insert_header(
    map: &mut HeaderMap<HeaderValue>,
    name: &'static str,
    value: HeaderValue,
)
    requires
        name@ == "user-agent"@ || name@ == "accept"@,
        header_map_entries(*old(map)).dom().finite(),
        header_map_entries(*old(map)).dom().len() < HEADER_NAME_LIMIT,
    ensures
        header_map_entries(*final(map)) == header_map_entries(*old(map)).insert(
            name@,
            header_value_bytes(value),
        ),
{
    map.insert(name, value);
}

/// The length of a duration in whole milliseconds.
pub uninterp spec fn duration_millis(d: Duration) -> nat;

/// `Duration::from_millis` makes a duration of that many milliseconds.
pub assume_specification[ std::time::Duration::from_millis ](millis: u64) -> (d: Duration)
    ensures
        duration_millis(d) == millis,
;

/// `Duration::from_secs` makes a duration of that many seconds.
pub assume_specification[ std::time::Duration::from_secs ](secs: u64) -> (d: Duration)
    ensures
        duration_millis(d) == secs * 1000,
;

/// The time that a client gives each request to complete, in whole
/// milliseconds, where it was built with one.
pub uninterp spec fn client_timeout_millis(c: Client) -> nat;

/// The headers that a client sends with every request, each name with the
/// bytes of its value.
pub uninterp spec fn client_default_headers(c: Client) -> Map<Seq<char>, Seq<u8>>;

/// The default headers of a client that was built with `entries`: a fresh
/// builder starts with `accept: */*`, and each of `entries` is then inserted
/// over that.
pub open spec fn headers_over_fresh(entries: Map<Seq<char>, Seq<u8>>) -> Map<
    Seq<char>,
    Seq<u8>,
> {
    map!["accept"@ => encode_utf8("*/*"@)].union_prefer_right(entries)
}

/// `Client::builder()` followed by `timeout`, `default_headers` and `build`.
/// Whether the client can be built depends on the machine (its TLS backend
/// and resolver), so success is not promised. A client that was built gives
/// each request `timeout` to complete, and sends with every request the
/// headers of a fresh builder with those of `headers` inserted over them. The
/// builder copies every entry of `headers` into a map of its own, which is
/// why `headers` has to stay below the limit.
#[verifier::external_body]
pub(crate) fn build_client(timeout: Duration, headers: HeaderMap<HeaderValue>) -> (r: Result<
    Client,
    reqwest::Error,
>)
    requires
        header_map_entries(headers).dom().finite(),
        header_map_entries(headers).dom().len() < HEADER_NAME_LIMIT,
    ensures
        r matches Ok(c) ==> client_timeout_millis(c) == duration_millis(timeout),
        r matches Ok(c) ==> client_default_headers(c) == headers_over_fresh(
            header_map_entries(headers),
        ),
{
    Client::builder().timeout(timeout).default_headers(headers).build()
}

/// What `reqwest::Error::is_timeout` says of a failure: whether it was a
/// timeout.
pub uninterp spec fn failure_is_timeout(e: reqwest::Error) -> bool;

/// What `reqwest::Error::is_connect` says of a failure: whether it arose
/// while connecting.
pub uninterp spec fn failure_is_connect(e: reqwest::Error) -> bool;

/// What `reqwest::Error::is_builder` says of a failure: whether it arose
/// while a client or a request was being put together.
pub uninterp spec fn failure_is_builder(e: reqwest::Error) -> bool;

/// `reqwest::Error::is_timeout` reads the failure and nothing else, so that
/// it says the same of the same failure every time.
pub assume_specification[ reqwest::Error::is_timeout ](e: &reqwest::Error) -> (r: bool)
    ensures
        r == failure_is_timeout(*e),
;

/// `reqwest::Error::is_connect` reads the failure and nothing else.
pub assume_specification[ reqwest::Error::is_connect ](e: &reqwest::Error) -> (r: bool)
    ensures
        r == failure_is_connect(*e),
;

/// `reqwest::Error::is_builder` reads the failure and nothing else.
pub assume_specification[ reqwest::Error::is_builder ](e: &reqwest::Error) -> (r: bool)
    ensures
        r == failure_is_builder(*e),
;

} // verus!
