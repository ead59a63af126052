//! The HTTP request that both boards send.
use crate::decimal::{decimal, law_decimal_is_the_numeral};
use crate::decimal::lemma_fold_is_number;
use crate::endpoint::{law_endpoint_text_is_injective, lemma_endpoint_shape, remote, Endpoint};
use crate::text::{fits, given, write_ascii, writer_on, written_text};
use vstd::prelude::*;
use vstd::utf8::{encode_utf8, is_ascii_chars, is_ascii_chars_encode_utf8};

verus! {

/// The request for the root page of the host.
pub const REQUEST: &'static str = "GET / HTTP/1.0\r\nHost: www.mobile-j.de\r\n\r\n";

/// The length of the buffer in which a board puts its request URL together.
pub const URL_BUFFER_LEN: usize = 71;

/// The buffer is shorter than the URL.
#[derive(Clone, Copy, Debug, PartialEq, Eq)]
pub struct BufferTooShort;

/// The URL that asks `endpoint` for the page: the request follows the address and a
/// space.
pub open spec fn url_text(endpoint: Endpoint) -> Seq<char> {
    "http://"@ + endpoint.text() + " "@ + REQUEST@
}

/// The request as it goes over the wire.
pub fn request_bytes() -> (bytes: &'static [u8])
    ensures
        bytes@ == encode_utf8(REQUEST@),
{
    REQUEST.as_bytes()
}

/// Puts the request URL for `endpoint` together in `buf`.
pub fn request_url<'a>(endpoint: &Endpoint, buf: &'a mut [u8]) -> (url: Result<
    &'a str,
    BufferTooShort,
>)
    ensures
        url is Ok <==> fits(url_text(*endpoint), old(buf)@.len()),
        url matches Ok(text) ==> text@ == url_text(*endpoint),
{
    proof {
        lemma_url_shape(*endpoint);
        is_ascii_chars_encode_utf8(url_text(*endpoint));
        reveal_strlit("http://");
        reveal_strlit(" ");
        reveal_strlit("GET / HTTP/1.0\r\nHost: www.mobile-j.de\r\n\r\n");
    }
    let mut writer = writer_on(buf);
    if write_ascii(&mut writer, "http://").is_err() {
        return Err(BufferTooShort);
    }
    if endpoint.write(&mut writer).is_err() {
        return Err(BufferTooShort);
    }
    if write_ascii(&mut writer, " ").is_err() {
        return Err(BufferTooShort);
    }
    if write_ascii(&mut writer, REQUEST).is_err() {
        return Err(BufferTooShort);
    }
    assert(given(writer) =~= url_text(*endpoint));
    match written_text(writer) {
        Some(text) => Ok(text),
        None => Err(BufferTooShort),
    }
}

/// A URL is ASCII, and its length is that of the endpoint and of the fixed parts.
pub proof fn lemma_url_shape(endpoint: Endpoint)
    ensures
        is_ascii_chars(url_text(endpoint)),
        url_text(endpoint).len() == 49 + endpoint.text().len(),
        9 <= endpoint.text().len() <= 21,
{
    let host = endpoint.text();
    lemma_endpoint_shape(endpoint);
    reveal_strlit("http://");
    reveal_strlit(" ");
    reveal_strlit("GET / HTTP/1.0\r\nHost: www.mobile-j.de\r\n\r\n");
    assert(is_ascii_chars("http://"@ + host));
    assert(is_ascii_chars("http://"@ + host + " "@));
    assert(is_ascii_chars("http://"@ + host + " "@ + REQUEST@));
}

/// The URL buffer is long enough for every endpoint: putting a URL together in it
/// never fails.
pub proof fn law_every_url_fits_the_buffer(endpoint: Endpoint)
    ensures
        fits(url_text(endpoint), URL_BUFFER_LEN as nat),
{
    lemma_url_shape(endpoint);
    is_ascii_chars_encode_utf8(url_text(endpoint));
}

/// A URL tells its endpoint: no two endpoints share one.
pub proof fn law_url_tells_its_endpoint(a: Endpoint, b: Endpoint)
    requires
        url_text(a) == url_text(b),
    ensures
        a.octets@ == b.octets@,
        a.port == b.port,
{
    lemma_url_shape(a);
    lemma_url_shape(b);
    reveal_strlit("http://");
    let last = 7 + a.text().len();
    assert(url_text(a).subrange(7, last as int) =~= a.text());
    assert(url_text(b).subrange(7, last as int) =~= b.text());
    law_endpoint_text_is_injective(a, b);
}

/// The request is the same at every call, and asks for the root page of its host.
pub proof fn law_request_is_fixed(bytes: &'static [u8])
    requires
        call_ensures(request_bytes, (), bytes),
    ensures
        bytes@ == encode_utf8("GET / HTTP/1.0\r\nHost: www.mobile-j.de\r\n\r\n"@),
{
}

/// A URL spells out its endpoint, whatever the endpoint is: the four octets in their order,
/// with dots between them, then a colon and the port, and then the request. Each number is
/// written in digits only, without a leading zero before another digit, and each place
/// counts ten times the next.
pub proof fn law_url_spells_its_endpoint(
    endpoint: Endpoint,
    buf: &mut [u8],
    url: &str,
    numerals: Seq<Seq<char>>,
    place: spec_fn(int, char) -> int,
)
    requires
        call_ensures(request_url, (&endpoint, buf), Ok(url)),
        forall|n: int, c: char| #[trigger] place(n, c) == 10 * n + (c as int - '0' as int),
        numerals.len() == 5,
        forall|k: int|
            0 <= k < 5 ==> {
                let numeral = #[trigger] numerals[k];
                &&& numeral.len() > 0
                &&& numeral.len() > 1 ==> numeral[0] != '0'
                &&& forall|i: int| 0 <= i < numeral.len() ==> '0' <= #[trigger] numeral[i] <= '9'
                &&& numeral.fold_left(0, place) == (if k < 4 {
                    endpoint.octets@[k] as int
                } else {
                    endpoint.port as int
                })
            },
    ensures
        url@ == "http://"@ + numerals[0] + "."@ + numerals[1] + "."@ + numerals[2] + "."@
            + numerals[3] + ":"@ + numerals[4]
            + " GET / HTTP/1.0\r\nHost: www.mobile-j.de\r\n\r\n"@,
{
    assert forall|k: int| 0 <= k < 5 implies #[trigger] numerals[k] == (if k < 4 {
        decimal(endpoint.octets@[k] as nat)
    } else {
        decimal(endpoint.port as nat)
    }) by {
        lemma_fold_is_number(numerals[k], place);
        if k < 4 {
            law_decimal_is_the_numeral(numerals[k], endpoint.octets@[k] as nat);
        } else {
            law_decimal_is_the_numeral(numerals[k], endpoint.port as nat);
        }
    }
    reveal_strlit(" ");
    reveal_strlit("GET / HTTP/1.0\r\nHost: www.mobile-j.de\r\n\r\n");
    reveal_strlit(" GET / HTTP/1.0\r\nHost: www.mobile-j.de\r\n\r\n");
    assert(" "@ + "GET / HTTP/1.0\r\nHost: www.mobile-j.de\r\n\r\n"@
        =~= " GET / HTTP/1.0\r\nHost: www.mobile-j.de\r\n\r\n"@);
    assert(url@ =~= "http://"@ + numerals[0] + "."@ + numerals[1] + "."@ + numerals[2] + "."@
        + numerals[3] + ":"@ + numerals[4] + (" "@
        + "GET / HTTP/1.0\r\nHost: www.mobile-j.de\r\n\r\n"@));
}

/// A buffer is refused exactly when it is shorter than the URL that any other buffer is
/// given for the same endpoint, and every buffer that is long enough is given the same one.
pub proof fn law_url_needs_its_length(
    endpoint: Endpoint,
    buf: &mut [u8],
    url: &str,
    other: &mut [u8],
    outcome: Result<&str, BufferTooShort>,
)
    requires
        call_ensures(request_url, (&endpoint, buf), Ok(url)),
        call_ensures(request_url, (&endpoint, other), outcome),
    ensures
        outcome is Ok <==> old(other)@.len() >= url@.len(),
        outcome matches Ok(text) ==> text@ == url@,
{
    lemma_url_shape(endpoint);
    is_ascii_chars_encode_utf8(url_text(endpoint));
}

/// Seventy bytes are enough for every endpoint, and fewer than fifty-eight for none.
pub proof fn law_url_has_its_bounds(
    endpoint: Endpoint,
    buf: &mut [u8],
    outcome: Result<&str, BufferTooShort>,
)
    requires
        call_ensures(request_url, (&endpoint, buf), outcome),
    ensures
        old(buf)@.len() >= 70 ==> outcome is Ok,
        old(buf)@.len() < 58 ==> outcome is Err,
{
    lemma_url_shape(endpoint);
    is_ascii_chars_encode_utf8(url_text(endpoint));
}

/// The URL of the server, letter by letter.
pub(crate) proof fn lemma_url_of_the_server()
    ensures
        url_text(remote())
            == "http://142.250.185.115:80 GET / HTTP/1.0\r\nHost: www.mobile-j.de\r\n\r\n"@,
{
    reveal_with_fuel(decimal, 3);
    reveal_strlit("http://");
    reveal_strlit(".");
    reveal_strlit(":");
    reveal_strlit(" ");
    reveal_strlit("GET / HTTP/1.0\r\nHost: www.mobile-j.de\r\n\r\n");
    reveal_strlit("http://142.250.185.115:80 GET / HTTP/1.0\r\nHost: www.mobile-j.de\r\n\r\n");
    assert(url_text(remote())
        =~= "http://142.250.185.115:80 GET / HTTP/1.0\r\nHost: www.mobile-j.de\r\n\r\n"@);
}

} // verus!
