use ipc_gateway::connection::ConnectionSlot;
use ipc_gateway::error::GatewayError;
use ipc_gateway::gateway::{finish, Endpoint, Gateway, Response};
use ipc_gateway::route::{PatternSegment, RouteError, RouteTable};
use ipc_gateway::sample::{sample, Sample, SampleQuery};

fn gateway() -> Gateway {
    Gateway::new()
}

fn established() -> ConnectionSlot<u32> {
    let mut slot = ConnectionSlot::initialize();
    assert!(slot.publish(7));
    slot
}

const SAMPLE_JSON: &str = "{\"id\":1,\"title\":\"title\",\"body\":\"body\"}";

#[test]
fn resolve_binds_path_parameter() {
    let mut table = RouteTable::new();
    assert_eq!(table.register("GET", "/sample/{id}", 10u8), Ok(()));
    let (i, params) = table.resolve("GET", "/sample/42").expect("GET /sample/42 resolves");
    assert_eq!(i, 0);
    assert_eq!(params, vec![("id".to_string(), "42".to_string())]);
    assert_eq!(*table.handler(i), 10u8);
    assert_eq!(table.resolve("POST", "/sample/42"), None);
}

#[test]
fn resolve_needs_exact_segment_count() {
    let mut table = RouteTable::new();
    assert_eq!(table.register("GET", "/sample/{id}", ()), Ok(()));
    assert_eq!(table.resolve("GET", "/sample/42/more"), None);
    assert_eq!(table.resolve("GET", "/sample"), None);
    assert_eq!(table.resolve("GET", "/sample/"), None);
    assert_eq!(table.resolve("GET", "/other/42"), None);
    assert!(table.routes_path("/sample/9"));
    assert!(!table.routes_path("/sample"));
}

#[test]
fn resolve_takes_first_registered_route() {
    let mut table = RouteTable::new();
    assert_eq!(table.register("GET", "/a/{x}/c", 1u8), Ok(()));
    assert_eq!(table.register("GET", "/a/b/c", 2u8), Ok(()));
    assert_eq!(table.register("GET", "/", 3u8), Ok(()));
    assert_eq!(table.len(), 3);
    let (i, params) = table.resolve("GET", "/a/b/c").unwrap();
    assert_eq!(i, 0);
    assert_eq!(params, vec![("x".to_string(), "b".to_string())]);
    let (j, root) = table.resolve("GET", "/").unwrap();
    assert_eq!(*table.handler(j), 3u8);
    assert!(root.is_empty());
}

#[test]
fn resolve_binds_every_parameter_in_order() {
    let mut table = RouteTable::new();
    assert_eq!(table.register("PUT", "/u/{user}/item/{item}", ()), Ok(()));
    let (_, params) = table.resolve("PUT", "/u/ann/item/3").unwrap();
    assert_eq!(
        params,
        vec![("user".to_string(), "ann".to_string()), ("item".to_string(), "3".to_string())]
    );
}

#[test]
fn register_refuses_duplicate_route() {
    let mut table = RouteTable::new();
    assert_eq!(table.register("GET", "/sample/{id}", 1u8), Ok(()));
    assert_eq!(table.register("GET", "/sample/{id}", 2u8), Err(RouteError::DuplicateRoute));
    assert_eq!(table.register("GET", "/sample/{other}", 2u8), Err(RouteError::DuplicateRoute));
    assert_eq!(table.register("POST", "/sample/{id}", 3u8), Ok(()));
    assert_eq!(table.register("GET", "/sample/fixed", 4u8), Ok(()));
    assert_eq!(table.len(), 3);
}

#[test]
fn register_refuses_invalid_method_and_pattern() {
    let mut table = RouteTable::new();
    assert_eq!(table.register("G T", "/a", ()), Err(RouteError::InvalidMethod));
    assert_eq!(table.register("", "/a", ()), Err(RouteError::InvalidMethod));
    assert_eq!(table.register("GET", "a/b", ()), Err(RouteError::InvalidPattern));
    assert_eq!(table.register("GET", "", ()), Err(RouteError::InvalidPattern));
    assert_eq!(table.register("GET", "/a/{b", ()), Err(RouteError::InvalidPattern));
    assert_eq!(table.register("GET", "/a/x{b}", ()), Err(RouteError::InvalidPattern));
    assert_eq!(table.register("GET", "/a/{}", ()), Err(RouteError::InvalidPattern));
    assert_eq!(table.len(), 0);
}

#[test]
fn get_connection_before_establish_is_not_established() {
    let slot: ConnectionSlot<u32> = ConnectionSlot::initialize();
    assert!(!slot.has_connection());
    assert_eq!(slot.get_connection(), Err(GatewayError::NotEstablished));
}

#[test]
fn established_connection_stays() {
    let mut slot: ConnectionSlot<u32> = ConnectionSlot::initialize();
    assert!(slot.publish(1));
    assert!(slot.has_connection());
    assert!(!slot.publish(2));
    assert!(slot.has_connection());
    assert_eq!(slot.get_connection(), Ok(1));
}

#[test]
fn translate_absent_payload_equals_empty_object() {
    let g = gateway();
    let slot = established();
    let absent = g.handle(&slot, "/sample/5", "GET", None);
    let empty = g.handle(&slot, "/sample/5", "GET", Some("{}".to_string()));
    assert_eq!(absent, empty);
    assert_eq!(absent, Ok(SAMPLE_JSON.to_string()));
    let missing = g.handle(&slot, "/nowhere", "GET", None);
    assert_eq!(missing, g.handle(&slot, "/nowhere", "GET", Some("{}".to_string())));
}

#[test]
fn translate_invalid_path_never_routes() {
    let g = gateway();
    let slot = established();
    let r = g.handle(&slot, "/sample/\u{1}", "GET", None);
    let message = r.expect_err("a control character is not a URI");
    assert!(message.starts_with("Invalid path:"), "{}", message);
    let empty = Gateway::from_table(RouteTable::new());
    assert_eq!(empty.handle(&slot, "/sample/\u{1}", "GET", None), Err(message.clone()));
    let unset: ConnectionSlot<u32> = ConnectionSlot::initialize();
    assert_eq!(g.handle(&unset, "/sample/\u{1}", "BAD METHOD", None), Err(message));
    let blank = g.handle(&slot, "", "GET", None).unwrap_err();
    assert!(blank.starts_with("Invalid path: "), "{}", blank);
}

#[test]
fn failed_call_does_not_affect_others() {
    let g = gateway();
    let slot = established();
    let first = g.handle(&slot, "/sample/1", "GET", None);
    let failing = g.handle(&slot, "/missing", "GET", None);
    let second = g.handle(&slot, "/sample/2", "GET", None);
    assert_eq!(failing, Err("Error: status code 404 Not Found".to_string()));
    assert_eq!(first, Ok(SAMPLE_JSON.to_string()));
    assert_eq!(second, first);
}

#[test]
fn translate_round_trips_handler_value() {
    let g = gateway();
    let slot = established();
    let text = g.handle(&slot, "/sample/42?query=x", "GET", None).unwrap();
    let value: serde_json::Value = serde_json::from_str(&text).unwrap();
    let expected: serde_json::Value = serde_json::from_str(SAMPLE_JSON).unwrap();
    assert_eq!(value, expected);
    assert_eq!(text, SAMPLE_JSON);
}

#[test]
fn translate_before_connection_is_server_error() {
    let g = gateway();
    let slot: ConnectionSlot<u32> = ConnectionSlot::initialize();
    assert_eq!(
        g.handle(&slot, "/sample/42", "GET", None),
        Err("Error: status code 500 Internal Server Error".to_string())
    );
}

#[test]
fn translate_unknown_route_and_method() {
    let g = gateway();
    let slot = established();
    assert_eq!(
        g.handle(&slot, "/nothing/here", "GET", None),
        Err("Error: status code 404 Not Found".to_string())
    );
    assert_eq!(
        g.handle(&slot, "/sample/42", "POST", None),
        Err("Error: status code 405 Method Not Allowed".to_string())
    );
    assert_eq!(
        g.handle(&slot, "/sample/42", "get", None),
        Err("Error: status code 405 Method Not Allowed".to_string())
    );
}

#[test]
fn translate_invalid_method() {
    let g = gateway();
    let slot = established();
    assert_eq!(
        g.handle(&slot, "/sample/42", "GE T", None),
        Err("Invalid method: invalid HTTP method".to_string())
    );
    assert_eq!(
        g.handle(&slot, "/sample/42", "", None),
        Err("Invalid method: invalid HTTP method".to_string())
    );
}

#[test]
fn translate_decodes_path_parameter() {
    let g = gateway();
    let slot = established();
    assert_eq!(g.handle(&slot, "/sample/%34%32", "GET", None), Ok(SAMPLE_JSON.to_string()));
    assert_eq!(g.handle(&slot, "/sample/+7", "GET", None), Ok(SAMPLE_JSON.to_string()));
    let bad = Err("Error: status code 400 Bad Request".to_string());
    assert_eq!(g.handle(&slot, "/sample/abc", "GET", None), bad);
    assert_eq!(g.handle(&slot, "/sample/-1", "GET", None), bad);
    assert_eq!(g.handle(&slot, "/sample/4294967296", "GET", None), bad);
    assert_eq!(g.handle(&slot, "/sample/%FF", "GET", None), bad);
    assert_eq!(g.handle(&slot, "/sample/4294967295", "GET", None), Ok(SAMPLE_JSON.to_string()));
}

#[test]
fn translate_decodes_query() {
    let g = gateway();
    let slot = established();
    assert_eq!(g.handle(&slot, "/sample/1?query=a", "GET", None), Ok(SAMPLE_JSON.to_string()));
    assert_eq!(g.handle(&slot, "/sample/1?other=a", "GET", None), Ok(SAMPLE_JSON.to_string()));
    assert_eq!(
        g.handle(&slot, "/sample/1?query=a&query=b", "GET", None),
        Err("Error: status code 400 Bad Request".to_string())
    );
}

#[test]
fn finish_reads_status_and_body() {
    let ok = Response { status: 200, body: "{\"a\":[1,2]}".to_string() };
    assert_eq!(finish(ok), Ok("{\"a\":[1,2]}".to_string()));
    let broken = finish(Response { status: 200, body: "not json".to_string() }).unwrap_err();
    assert!(broken.starts_with("Response parsing error: "), "{}", broken);
    assert!(broken.len() > "Response parsing error: ".len());
    assert_eq!(
        finish(Response { status: 404, body: "{}".to_string() }),
        Err("Error: status code 404 Not Found".to_string())
    );
    assert_eq!(
        finish(Response { status: 418, body: String::new() }),
        Err("Error: status code 418 I'm a teapot".to_string())
    );
}

#[test]
fn dispatch_answers_routed_request() {
    let g = gateway();
    let slot = established();
    let r = g.dispatch(&slot, "GET", "/sample/3", &None, &"{}".to_string());
    assert_eq!(r, Response { status: 200, body: SAMPLE_JSON.to_string() });
    let r = g.dispatch(&slot, "DELETE", "/sample/3", &None, &"{}".to_string());
    assert_eq!(r.status, 405);
    let r = g.dispatch(&slot, "GET", "/sample", &None, &"{}".to_string());
    assert_eq!(r.status, 404);
}

#[test]
fn sample_handler_outcomes() {
    let slot = established();
    let params = vec![("id".to_string(), "42".to_string())];
    let s = sample(&slot, &params, &None).unwrap();
    assert_eq!(s, Sample { id: 1, title: "title".to_string(), body: "body".to_string() });
    let unset: ConnectionSlot<u32> = ConnectionSlot::initialize();
    assert_eq!(sample(&unset, &params, &None), Err(GatewayError::NotEstablished));
    let none: Vec<(String, String)> = Vec::new();
    assert!(matches!(sample(&slot, &none, &None), Err(GatewayError::Handler(_))));
    let bad = vec![("id".to_string(), "x".to_string())];
    assert!(matches!(sample(&slot, &bad, &None), Err(GatewayError::Decode(_))));
}

#[test]
fn sample_to_json_escapes_text() {
    let s = Sample { id: 123, title: "a\"b".to_string(), body: "line\nnext".to_string() };
    assert_eq!(s.to_json(), "{\"id\":123,\"title\":\"a\\\"b\",\"body\":\"line\\nnext\"}");
    let zero = Sample { id: 0, title: String::new(), body: "x".to_string() };
    assert_eq!(zero.to_json(), "{\"id\":0,\"title\":\"\",\"body\":\"x\"}");
}

#[test]
fn sample_query_decodes_field() {
    let q = SampleQuery::decode(&Some("query=hello%20world".to_string())).unwrap();
    assert_eq!(q.query, Some("hello world".to_string()));
    let q = SampleQuery::decode(&Some("x=1&query=a+b".to_string())).unwrap();
    assert_eq!(q.query, Some("a b".to_string()));
    let q = SampleQuery::decode(&None).unwrap();
    assert_eq!(q.query, None);
    assert!(matches!(
        SampleQuery::decode(&Some("query=1&query=2".to_string())),
        Err(GatewayError::Decode(_))
    ));
}

#[test]
fn gateway_error_status_and_message() {
    assert_eq!(GatewayError::NotEstablished.status_code(), 500);
    assert_eq!(GatewayError::RouteNotFound.status_code(), 404);
    assert_eq!(GatewayError::MethodNotAllowed.status_code(), 405);
    assert_eq!(GatewayError::Decode("d".to_string()).status_code(), 400);
    assert_eq!(GatewayError::Handler("h".to_string()).status_code(), 500);
    assert_eq!(GatewayError::NotEstablished.message(), "Database connection not established");
    assert_eq!(GatewayError::Handler("h".to_string()).message(), "h");
}

#[test]
fn gateway_from_table_uses_its_routes() {
    let mut table = RouteTable::new();
    assert_eq!(table.register("POST", "/sample/{id}", Endpoint::Sample), Ok(()));
    let g = Gateway::from_table(table);
    let slot = established();
    assert_eq!(g.handle(&slot, "/sample/1", "POST", None), Ok(SAMPLE_JSON.to_string()));
    assert_eq!(
        g.handle(&slot, "/sample/1", "GET", None),
        Err("Error: status code 405 Method Not Allowed".to_string())
    );
}

#[test]
fn pattern_segment_values() {
    let a = PatternSegment::Literal("x".to_string());
    let b = PatternSegment::Param("x".to_string());
    assert_ne!(a, b);
}
