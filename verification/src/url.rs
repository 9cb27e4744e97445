use vstd::prelude::*;

use crate::collections::StringMap;
use crate::keys::{PARAM_PARAMETERS, PARAM_ROUTE};
use crate::text::{ascii_char, join2, str_equal, string_from_ascii};
use vstd::utf8::encode_utf8;

verus! {

pub const GATEWAY_TYPE_REST: &'static str = "rest";

pub const GATEWAY_TYPE_GRAPHQL: &'static str = "graphql";

/// Bytes that stand for themselves in a URL component: letters, digits and
/// `-`, `_`, `.`, `~`.
pub open spec fn is_unreserved(b: u8) -> bool {
    (65 <= b <= 90) || (97 <= b <= 122) || (48 <= b <= 57) || b == 45 || b == 95 || b == 46 || b
        == 126
}

/// The upper-case hexadecimal digit of a value below 16.
pub open spec fn hex_digit(n: u8) -> u8 {
    if n < 10 {
        (48 + n) as u8
    } else {
        (55 + n) as u8
    }
}

/// How one byte is written in a URL component: as itself when unreserved,
/// as `%` and two upper-case hexadecimal digits otherwise.
pub open spec fn encode_byte(b: u8) -> Seq<u8> {
    if is_unreserved(b) {
        seq![b]
    } else {
        seq![37u8, hex_digit(b / 16), hex_digit(b % 16)]
    }
}

/// The percent-encoding of a byte sequence, byte by byte.
pub open spec fn encode_bytes(s: Seq<u8>) -> Seq<u8>
    decreases s.len(),
{
    if s.len() == 0 {
        Seq::empty()
    } else {
        encode_bytes(s.drop_last()) + encode_byte(s.last())
    }
}

/// The text of ASCII bytes.
pub open spec fn ascii_text(s: Seq<u8>) -> Seq<char> {
    s.map_values(|b: u8| ascii_char(b))
}

/// The percent-encoding of a text: its UTF-8 bytes, each encoded.
pub open spec fn spec_encode(s: Seq<char>) -> Seq<char> {
    ascii_text(encode_bytes(encode_utf8(s)))
}

fn hex(n: u8) -> (r: u8)
    requires
        n < 16,
    ensures
        r == hex_digit(n),
        r < 128,
{
    if n < 10 {
        48 + n
    } else {
        55 + n
    }
}

/// Percent-encodes a text for a URL query component.
pub fn encode(value: &str) -> (r: String)
    ensures
        r@ == spec_encode(value@),
{
    let bytes = value.as_bytes();
    let mut out: Vec<u8> = Vec::new();
    let mut i: usize = 0;
    while i < bytes.len()
        invariant
            i <= bytes@.len(),
            bytes@ == encode_utf8(value@),
            out@ == encode_bytes(bytes@.take(i as int)),
            forall|j: int| 0 <= j < out@.len() ==> out@[j] < 128,
        decreases bytes@.len() - i,
    {
        let b = bytes[i];
        let ghost before = out@;
        if (65 <= b && b <= 90) || (97 <= b && b <= 122) || (48 <= b && b <= 57) || b == 45 || b
            == 95 || b == 46 || b == 126 {
            out.push(b);
        } else {
            out.push(37);
            out.push(hex(b / 16));
            out.push(hex(b % 16));
        }
        proof {
            assert(bytes@.take(i + 1).drop_last() =~= bytes@.take(i as int));
            assert(out@ =~= before + encode_byte(b));
        }
        i = i + 1;
    }
    assert(bytes@.take(bytes@.len() as int) =~= bytes@);
    string_from_ascii(out)
}

/// How many bytes percent-encoding a byte string writes: one per unreserved
/// byte, three per other byte.
pub open spec fn encoded_len(s: Seq<u8>) -> int
    decreases s.len(),
{
    if s.len() == 0 {
        0
    } else {
        encoded_len(s.drop_last()) + if is_unreserved(s.last()) {
            1int
        } else {
            3int
        }
    }
}

/// The value of an upper-case hexadecimal digit.
pub open spec fn hex_value(d: u8) -> int {
    if d < 58 {
        d - 48
    } else {
        d - 55
    }
}

/// Percent-decodes a byte string, reading it from the end: a `%` two bytes
/// before the end starts an escape, any other last byte stands for itself.
pub open spec fn decode_bytes(t: Seq<u8>) -> Seq<u8>
    decreases t.len(),
{
    if t.len() == 0 {
        Seq::empty()
    } else if t.len() >= 3 && t[t.len() - 3] == 37 {
        decode_bytes(t.take(t.len() - 3)).push(
            (hex_value(t[t.len() - 2]) * 16 + hex_value(t[t.len() - 1])) as u8,
        )
    } else {
        decode_bytes(t.drop_last()).push(t.last())
    }
}

proof fn lemma_encoding_ends_without_percent(s: Seq<u8>)
    ensures
        encode_bytes(s).len() == encoded_len(s),
        encode_bytes(s).len() >= 1 ==> encode_bytes(s)[encode_bytes(s).len() - 1] != 37,
        encode_bytes(s).len() >= 2 ==> encode_bytes(s)[encode_bytes(s).len() - 2] != 37,
    decreases s.len(),
{
    if s.len() > 0 {
        lemma_encoding_ends_without_percent(s.drop_last());
        let b = s.last();
        if !is_unreserved(b) {
            assert(b / 16 < 16 && b % 16 < 16);
        }
    }
}

/// Percent-decoding what percent-encoding wrote gives back exactly the bytes
/// encoded, and the encoding is one byte long for each unreserved byte and
/// three bytes long for each other byte.
pub proof fn law_encode_decodes(s: Seq<u8>)
    ensures
        decode_bytes(encode_bytes(s)) == s,
        encode_bytes(s).len() == encoded_len(s),
    decreases s.len(),
{
    lemma_encoding_ends_without_percent(s);
    if s.len() > 0 {
        let rest = s.drop_last();
        let b = s.last();
        let e = encode_bytes(rest);
        law_encode_decodes(rest);
        lemma_encoding_ends_without_percent(rest);
        let t = encode_bytes(s);
        assert(t == e + encode_byte(b));
        if is_unreserved(b) {
            assert(t.drop_last() =~= e);
            assert(t.last() == b);
            if t.len() >= 3 {
                assert(t[t.len() - 3] == e[e.len() - 2]);
            }
        } else {
            let hi = b / 16;
            let lo = b % 16;
            assert(t.take(t.len() - 3) =~= e);
            assert(t[t.len() - 3] == 37);
            assert(t[t.len() - 2] == hex_digit(hi));
            assert(t[t.len() - 1] == hex_digit(lo));
            assert(hex_value(hex_digit(hi)) == hi);
            assert(hex_value(hex_digit(lo)) == lo);
            assert(hi * 16 + lo == b);
        }
        assert(decode_bytes(t) =~= s);
    }
}

/// Percent-encoding leaves a byte string as it is exactly when every byte of
/// it is unreserved.
pub proof fn law_encode_keeps_only_unreserved(s: Seq<u8>)
    ensures
        (encode_bytes(s) == s) <==> (forall|i: int| 0 <= i < s.len() ==> is_unreserved(#[trigger] s[i])),
    decreases s.len(),
{
    lemma_encoding_ends_without_percent(s);
    lemma_encoded_len_bound(s);
    if s.len() == 0 {
        assert(encode_bytes(s) =~= s);
    } else {
        let rest = s.drop_last();
        law_encode_keeps_only_unreserved(rest);
        lemma_encoded_len_bound(rest);
        if forall|i: int| 0 <= i < s.len() ==> is_unreserved(#[trigger] s[i]) {
            assert forall|i: int| 0 <= i < rest.len() implies is_unreserved(#[trigger] rest[i]) by {
                assert(rest[i] == s[i]);
            }
            assert(is_unreserved(s[s.len() - 1]));
            assert(encode_bytes(rest) == rest);
            assert(encode_bytes(s) == encode_bytes(rest) + encode_byte(s.last()));
            assert(encode_bytes(s) =~= s);
        } else {
            let k = choose|i: int| 0 <= i < s.len() && !is_unreserved(#[trigger] s[i]);
            lemma_encoded_len_strict(s, k);
        }
    }
}

proof fn lemma_encoded_len_bound(s: Seq<u8>)
    ensures
        encoded_len(s) >= s.len(),
    decreases s.len(),
{
    if s.len() > 0 {
        lemma_encoded_len_bound(s.drop_last());
    }
}

proof fn lemma_encoded_len_strict(s: Seq<u8>, k: int)
    requires
        0 <= k < s.len(),
        !is_unreserved(s[k]),
    ensures
        encoded_len(s) > s.len(),
    decreases s.len(),
{
    lemma_encoded_len_bound(s.drop_last());
    if k < s.len() - 1 {
        assert(s.drop_last()[k] == s[k]);
        lemma_encoded_len_strict(s.drop_last(), k);
    }
}

/// Whether a byte is an upper-case hexadecimal digit.
pub open spec fn is_upper_hex(b: u8) -> bool {
    (48 <= b <= 57) || (65 <= b <= 70)
}

/// Every byte that percent-encoding writes is unreserved, or a `%` that
/// starts an escape of two upper-case hexadecimal digits.
pub proof fn law_encode_charset(s: Seq<u8>)
    ensures
        forall|i: int|
            0 <= i < encode_bytes(s).len() ==> is_unreserved(#[trigger] encode_bytes(s)[i]) || (
            encode_bytes(s)[i] == 37 && i + 2 < encode_bytes(s).len() && is_upper_hex(
                encode_bytes(s)[i + 1],
            ) && is_upper_hex(encode_bytes(s)[i + 2])),
    decreases s.len(),
{
    if s.len() > 0 {
        let rest = s.drop_last();
        let b = s.last();
        let e = encode_bytes(rest);
        law_encode_charset(rest);
        let t = encode_bytes(s);
        assert(t == e + encode_byte(b));
        assert forall|i: int| 0 <= i < t.len() implies is_unreserved(#[trigger] t[i]) || (t[i] == 37
            && i + 2 < t.len() && is_upper_hex(t[i + 1]) && is_upper_hex(t[i + 2])) by {
            if i < e.len() {
                assert(t[i] == e[i]);
                if !is_unreserved(e[i]) {
                    assert(t[i + 1] == e[i + 1] && t[i + 2] == e[i + 2]);
                }
            } else if !is_unreserved(b) {
                assert(b / 16 < 16 && b % 16 < 16);
            }
        }
    }
}

/// Percent-encoding a text writes, as bytes, what decodes back to the text's
/// UTF-8 bytes, one character per byte written.
pub proof fn law_encode_text_decodes(s: Seq<char>)
    ensures
        spec_encode(s).len() == encoded_len(encode_utf8(s)),
        decode_bytes(encode_bytes(encode_utf8(s))) == encode_utf8(s),
{
    law_encode_decodes(encode_utf8(s));
}

/// Whether a text holds the character `?`.
///
/// Trusted: calls `str::contains` with a `char` pattern, which reports whether
/// the character occurs in the text.
#[verifier::external_body]
fn has_question_mark(s: &str) -> (r: bool)
    ensures
        r == s@.contains('?'),
{
    s.contains('?')
}

/// The JSON text that `serde_json` writes for a string-to-string object made
/// of the given pairs.
pub uninterp spec fn parameters_json_text(pairs: Seq<(Seq<char>, Seq<char>)>) -> Seq<char>;

/// Writes string pairs as a JSON object.
///
/// Trusted: collects the pairs into a `serde_json::Map` of string values and
/// calls `serde_json::to_string` on it. The text is named, not stated; it is a
/// function of the pairs alone (the map orders its keys, a later pair replaces
/// an earlier one with the same key). Writing a map of strings does not fail.
#[verifier::external_body]
fn parameters_json(pairs: Vec<(String, String)>) -> (r: String)
    ensures
        r@ == parameters_json_text(pairs.deep_view()),
{
    let map: serde_json::Map<String, serde_json::Value> = pairs.into_iter().map(
        |(k, v)| (k, serde_json::Value::String(v)),
    ).collect();
    serde_json::to_string(&map).unwrap_or_default()
}

/// The pairs of a string map, in its order.
pub fn pairs_of(parameters: &StringMap<String>) -> (r: Vec<(String, String)>)
    ensures
        r.deep_view() == parameters.entries(),
{
    let mut out: Vec<(String, String)> = Vec::new();
    let mut i: usize = 0;
    let n = parameters.len();
    while i < n
        invariant
            n == parameters.entries().len(),
            i <= n,
            out.deep_view() =~= parameters.entries().take(i as int),
        decreases n - i,
    {
        let k = parameters.key_at(i).clone();
        let v = parameters.value_at(i).clone();
        let ghost before = out.deep_view();
        out.push((k, v));
        proof {
            assert(out.deep_view() =~= before.push((k@, v@)));
            assert(parameters.entries().take(i + 1) =~= parameters.entries().take(i as int).push(
                parameters.entries()[i as int],
            ));
        }
        i = i + 1;
    }
    assert(parameters.entries().take(n as int) =~= parameters.entries());
    out
}

/// The JSON text of the route parameters, as sent with a request.
pub fn encode_parameters(parameters: &StringMap<String>) -> (r: String)
    ensures
        r@ == parameters_json_text(parameters.entries()),
{
    parameters_json(pairs_of(parameters))
}

/// The REST URL of a frame request.
pub open spec fn spec_rest_url(base: &str, route: &str, parameters: &StringMap<String>) -> Seq<
    char,
> {
    let head = base@ + (if base@.contains('?') {
        "&"@
    } else {
        "?"@
    }) + "route="@ + spec_encode(route@);
    if parameters@.len() == 0 {
        head
    } else {
        head + "&parameters="@ + spec_encode(parameters_json_text(parameters.entries()))
    }
}

pub fn rest_url(base: &str, route: &str, parameters: &StringMap<String>) -> (r: String)
    ensures
        r@ == spec_rest_url(base, route, parameters),
{
    let separator = if has_question_mark(base) {
        "&"
    } else {
        "?"
    };
    let mut url = join2(base, separator);
    url.append("route=");
    let encoded_route = encode(route);
    url.append(encoded_route.as_str());
    if !parameters.is_empty() {
        let json = encode_parameters(parameters);
        url.append("&parameters=");
        let encoded = encode(json.as_str());
        url.append(encoded.as_str());
    }
    url
}

/// A parsed gateway of the project configuration: which operation it serves,
/// whether it is REST or GraphQL, and (for REST) its URL.
#[derive(Debug)]
pub struct ProjectConfigGateway {
    pub operation: String,
    pub gateway_type: String,
    pub value: String,
}

/// How a request reaches the server.
#[derive(Debug)]
pub enum GatewayTransport {
    /// A GET to `url` with the given query variables.
    Rest { url: String, variables: Vec<(String, String)> },
    /// A GraphQL `query` posted to `endpoint`, with the route and its
    /// parameters as variables when the query is about a route.
    GraphQl {
        endpoint: String,
        query: String,
        route: Option<String>,
        parameters: Vec<(String, String)>,
    },
}

/// Chooses the transport of a request: REST when the gateway says so, GraphQL
/// for any other gateway type.
pub fn build_transport(
    gateway: &ProjectConfigGateway,
    graphql_endpoint: &str,
    route: &str,
    parameters: &StringMap<String>,
    query: &str,
) -> (r: GatewayTransport)
    ensures
        gateway.gateway_type@ == GATEWAY_TYPE_REST@ ==> (r matches GatewayTransport::Rest {
            url,
            variables,
        } && url@ == gateway.value@ && variables.deep_view() == (if parameters@.len() == 0 {
            seq![(PARAM_ROUTE@, route@)]
        } else {
            seq![
                (PARAM_ROUTE@, route@),
                (PARAM_PARAMETERS@, parameters_json_text(parameters.entries())),
            ]
        })),
        gateway.gateway_type@ != GATEWAY_TYPE_REST@ ==> (r matches GatewayTransport::GraphQl {
            endpoint,
            query: q,
            route: rt,
            parameters: ps,
        } && endpoint@ == graphql_endpoint@ && q@ == query@ && rt.deep_view() == Some(route@)
            && ps.deep_view() == parameters.entries()),
{
    if str_equal(gateway.gateway_type.as_str(), GATEWAY_TYPE_REST) {
        let mut variables: Vec<(String, String)> = Vec::new();
        variables.push((String::from_str(PARAM_ROUTE), String::from_str(route)));
        if !parameters.is_empty() {
            variables.push((String::from_str(PARAM_PARAMETERS), encode_parameters(parameters)));
        }
        let r = GatewayTransport::Rest { url: gateway.value.clone(), variables };
        proof {
            if parameters@.len() == 0 {
                assert(variables.deep_view() =~= seq![(PARAM_ROUTE@, route@)]);
            } else {
                assert(variables.deep_view() =~= seq![
                    (PARAM_ROUTE@, route@),
                    (PARAM_PARAMETERS@, parameters_json_text(parameters.entries())),
                ]);
            }
        }
        r
    } else {
        GatewayTransport::GraphQl {
            endpoint: String::from_str(graphql_endpoint),
            query: String::from_str(query),
            route: Some(String::from_str(route)),
            parameters: pairs_of(parameters),
        }
    }
}

/// Chooses the transport of a scaffold request: a plain GET of the REST
/// gateway, or the scaffold query without variables.
pub fn scaffold_transport(gateway: &ProjectConfigGateway, graphql_endpoint: &str, query: &str) -> (r:
    GatewayTransport)
    ensures
        gateway.gateway_type@ == GATEWAY_TYPE_REST@ ==> (r matches GatewayTransport::Rest {
            url,
            variables,
        } && url@ == gateway.value@ && variables@.len() == 0),
        gateway.gateway_type@ != GATEWAY_TYPE_REST@ ==> (r matches GatewayTransport::GraphQl {
            endpoint,
            query: q,
            route: rt,
            parameters: ps,
        } && endpoint@ == graphql_endpoint@ && q@ == query@ && rt is None && ps@.len() == 0),
{
    if str_equal(gateway.gateway_type.as_str(), GATEWAY_TYPE_REST) {
        GatewayTransport::Rest { url: gateway.value.clone(), variables: Vec::new() }
    } else {
        GatewayTransport::GraphQl {
            endpoint: String::from_str(graphql_endpoint),
            query: String::from_str(query),
            route: None,
            parameters: Vec::new(),
        }
    }
}

} // verus!
