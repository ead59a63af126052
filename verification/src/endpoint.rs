//! The server that both boards talk to.
use crate::decimal::{decimal, law_decimal_is_injective, lemma_decimal_shape, write_decimal};
use crate::text::{extended, given, room, write_ascii};
use format_no_std::WriteTo;
use vstd::prelude::*;
use vstd::utf8::is_ascii_chars;

verus! {

/// An IPv4 address and a TCP port.
#[derive(Clone, Copy, Debug, PartialEq, Eq)]
pub struct Endpoint {
    pub octets: [u8; 4],
    pub port: u16,
}

impl Endpoint {
    /// The address in dotted decimal notation, a colon, and the port.
    pub open spec fn text(self) -> Seq<char> {
        decimal(self.octets[0] as nat) + "."@ + decimal(self.octets[1] as nat) + "."@ + decimal(
            self.octets[2] as nat,
        ) + "."@ + decimal(self.octets[3] as nat) + ":"@ + decimal(self.port as nat)
    }

    /// Writes the endpoint behind the text that the writer has.
    pub(crate) fn write<'a>(&self, writer: &mut WriteTo<'a>) -> (written: Result<
        (),
        core::fmt::Error,
    >)
        requires
            is_ascii_chars(given(*old(writer))),
        ensures
            written is Ok <==> given(*old(writer)).len() + self.text().len() <= room(
                *old(writer),
            ),
            written is Ok ==> extended(*old(writer), *final(writer), self.text()),
    {
        proof {
            reveal_strlit(".");
            reveal_strlit(":");
            lemma_decimal_shape(self.octets[0] as nat);
            lemma_decimal_shape(self.octets[1] as nat);
            lemma_decimal_shape(self.octets[2] as nat);
            lemma_decimal_shape(self.octets[3] as nat);
            lemma_decimal_shape(self.port as nat);
        }
        if let Err(error) = write_decimal(writer, self.octets[0] as u16) {
            return Err(error);
        }
        if let Err(error) = write_ascii(writer, ".") {
            return Err(error);
        }
        if let Err(error) = write_decimal(writer, self.octets[1] as u16) {
            return Err(error);
        }
        if let Err(error) = write_ascii(writer, ".") {
            return Err(error);
        }
        if let Err(error) = write_decimal(writer, self.octets[2] as u16) {
            return Err(error);
        }
        if let Err(error) = write_ascii(writer, ".") {
            return Err(error);
        }
        if let Err(error) = write_decimal(writer, self.octets[3] as u16) {
            return Err(error);
        }
        if let Err(error) = write_ascii(writer, ":") {
            return Err(error);
        }
        if let Err(error) = write_decimal(writer, self.port) {
            return Err(error);
        }
        assert(given(*writer) =~= given(*old(writer)) + self.text());
        Ok(())
    }
}

/// The server that answers for the host of the request.
pub open spec fn remote() -> Endpoint {
    Endpoint { octets: [142, 250, 185, 115], port: 80 }
}

/// The server that answers for the host of the request.
pub fn remote_endpoint() -> (endpoint: Endpoint)
    ensures
        endpoint == remote(),
{
    Endpoint { octets: [142, 250, 185, 115], port: 80 }
}

/// Where two texts begin with numbers in decimal notation, each closed by the same
/// separator, equal texts have equal numbers and equal rests.
proof fn lemma_same_leading_number(a: nat, b: nat, separator: char, rest_a: Seq<char>, rest_b: Seq<char>)
    requires
        a < 100_000,
        b < 100_000,
        !('0' <= separator <= '9'),
        decimal(a) + seq![separator] + rest_a == decimal(b) + seq![separator] + rest_b,
    ensures
        a == b,
        rest_a == rest_b,
{
    lemma_decimal_shape(a);
    lemma_decimal_shape(b);
    let left = decimal(a) + seq![separator] + rest_a;
    let right = decimal(b) + seq![separator] + rest_b;
    let len_a = decimal(a).len() as int;
    let len_b = decimal(b).len() as int;
    assert(left[len_a] == separator);
    assert(right[len_b] == separator);
    if len_a < len_b {
        assert(right[len_a] == decimal(b)[len_a]);
    } else if len_b < len_a {
        assert(left[len_b] == decimal(a)[len_b]);
    }
    assert(left.take(len_a) =~= decimal(a));
    assert(right.take(len_b) =~= decimal(b));
    law_decimal_is_injective(a, b);
    assert(left.skip(len_a + 1) =~= rest_a);
    assert(right.skip(len_b + 1) =~= rest_b);
}

/// The notation of an endpoint is unambiguous: it belongs to one endpoint only.
pub proof fn law_endpoint_text_is_injective(a: Endpoint, b: Endpoint)
    requires
        a.text() == b.text(),
    ensures
        a.octets@ == b.octets@,
        a.port == b.port,
{
    reveal_strlit(".");
    reveal_strlit(":");
    assert("."@ =~= seq!['.']);
    assert(":"@ =~= seq![':']);
    let port_a = decimal(a.port as nat);
    let port_b = decimal(b.port as nat);
    let tail_a3 = decimal(a.octets[3] as nat) + seq![':'] + port_a;
    let tail_b3 = decimal(b.octets[3] as nat) + seq![':'] + port_b;
    let tail_a2 = decimal(a.octets[2] as nat) + seq!['.'] + tail_a3;
    let tail_b2 = decimal(b.octets[2] as nat) + seq!['.'] + tail_b3;
    let tail_a1 = decimal(a.octets[1] as nat) + seq!['.'] + tail_a2;
    let tail_b1 = decimal(b.octets[1] as nat) + seq!['.'] + tail_b2;
    assert(a.text() =~= decimal(a.octets[0] as nat) + seq!['.'] + tail_a1);
    assert(b.text() =~= decimal(b.octets[0] as nat) + seq!['.'] + tail_b1);
    lemma_same_leading_number(a.octets[0] as nat, b.octets[0] as nat, '.', tail_a1, tail_b1);
    lemma_same_leading_number(a.octets[1] as nat, b.octets[1] as nat, '.', tail_a2, tail_b2);
    lemma_same_leading_number(a.octets[2] as nat, b.octets[2] as nat, '.', tail_a3, tail_b3);
    lemma_same_leading_number(a.octets[3] as nat, b.octets[3] as nat, ':', port_a, port_b);
    law_decimal_is_injective(a.port as nat, b.port as nat);
    assert(a.octets@ =~= b.octets@);
}

/// The server has one address and one port, whenever it is asked for.
pub proof fn law_server_is_fixed(endpoint: Endpoint)
    requires
        call_ensures(remote_endpoint, (), endpoint),
    ensures
        endpoint.octets@ == seq![142u8, 250, 185, 115],
        endpoint.port == 80,
{
}

/// The notation of an endpoint is ASCII, and its length is that of its numbers and of the
/// four characters between them.
pub(crate) proof fn lemma_endpoint_shape(endpoint: Endpoint)
    ensures
        is_ascii_chars(endpoint.text()),
        9 <= endpoint.text().len() <= 21,
{
    reveal_strlit(".");
    reveal_strlit(":");
    let a = decimal(endpoint.octets[0] as nat) + "."@;
    let b = a + decimal(endpoint.octets[1] as nat) + "."@;
    let c = b + decimal(endpoint.octets[2] as nat) + "."@;
    let d = c + decimal(endpoint.octets[3] as nat) + ":"@;
    lemma_decimal_shape(endpoint.octets[0] as nat);
    assert(is_ascii_chars(a));
    lemma_decimal_shape(endpoint.octets[1] as nat);
    assert(is_ascii_chars(b));
    lemma_decimal_shape(endpoint.octets[2] as nat);
    assert(is_ascii_chars(c));
    lemma_decimal_shape(endpoint.octets[3] as nat);
    assert(is_ascii_chars(d));
    lemma_decimal_shape(endpoint.port as nat);
    assert(is_ascii_chars(endpoint.text()));
}

} // verus!
