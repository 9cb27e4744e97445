use nativeblocks::collections::StringMap;
use nativeblocks::url::{
    build_transport, encode, encode_parameters, rest_url, scaffold_transport, GatewayTransport,
    ProjectConfigGateway,
};

fn params(pairs: &[(&str, &str)]) -> StringMap<String> {
    let mut m = StringMap::new();
    for (k, v) in pairs {
        m.insert(k.to_string(), v.to_string());
    }
    m
}

fn gateway(kind: &str, value: &str) -> ProjectConfigGateway {
    ProjectConfigGateway { operation: "frame".into(), gateway_type: kind.into(), value: value.into() }
}

#[test]
fn encode_keeps_unreserved_bytes() {
    assert_eq!(encode("AZaz09-_.~"), "AZaz09-_.~");
}

#[test]
fn encode_escapes_other_bytes() {
    assert_eq!(encode("a b/c?"), "a%20b%2Fc%3F");
    assert_eq!(encode("ü"), "%C3%BC");
    assert_eq!(encode(""), "");
}

#[test]
fn parameters_are_written_as_json() {
    assert_eq!(encode_parameters(&params(&[("id", "42")])), "{\"id\":\"42\"}");
}

#[test]
fn rest_url_without_parameters() {
    assert_eq!(rest_url("https://x/frame", "home page", &params(&[])), "https://x/frame?route=home%20page");
    assert_eq!(rest_url("https://x/frame?a=1", "home", &params(&[])), "https://x/frame?a=1&route=home");
}

#[test]
fn rest_url_with_parameters() {
    assert_eq!(
        rest_url("https://x/frame", "home", &params(&[("id", "42")])),
        "https://x/frame?route=home&parameters=%7B%22id%22%3A%2242%22%7D"
    );
}

#[test]
fn rest_gateway_builds_rest_transport() {
    match build_transport(&gateway("rest", "https://x/frame"), "https://graphql", "home", &params(&[("id", "42")]), "query") {
        GatewayTransport::Rest { url, variables } => {
            assert_eq!(url, "https://x/frame");
            assert_eq!(variables, vec![
                ("route".to_string(), "home".to_string()),
                ("parameters".to_string(), "{\"id\":\"42\"}".to_string()),
            ]);
        }
        other => panic!("unexpected {:?}", other),
    }
}

#[test]
fn other_gateway_builds_graphql_transport() {
    match build_transport(&gateway("graphql", "frame"), "https://graphql", "home", &params(&[]), "query q") {
        GatewayTransport::GraphQl { endpoint, query, route, parameters } => {
            assert_eq!(endpoint, "https://graphql");
            assert_eq!(query, "query q");
            assert_eq!(route.as_deref(), Some("home"));
            assert!(parameters.is_empty());
        }
        other => panic!("unexpected {:?}", other),
    }
    match scaffold_transport(&gateway("rest", "https://x/scaffold"), "https://graphql", "q") {
        GatewayTransport::Rest { url, variables } => {
            assert_eq!(url, "https://x/scaffold");
            assert!(variables.is_empty());
        }
        other => panic!("unexpected {:?}", other),
    }
}
