//! The gateway: it turns a boundary call (path, method, optional JSON payload)
//! into a routed request, runs the handler, and turns the answer into a JSON
//! text or an error text whose prefix tells the kind of failure.

use crate::connection::ConnectionSlot;
use crate::error::{status_of, GatewayError};
use crate::outside::{
    check_json, is_method_token, json_syntax_error, parse_method, parsed_uri, split_uri,
    status_line, status_text,
};
use crate::route::{
    path_is_routed, path_params, registration, route_takes, segment_from_text, segment_or_literal,
    split_path, RouteError, RouteTable, RouteView, Segment,
};
use crate::sample::{sample, sample_outcome};
use vstd::prelude::*;

verus! {

/// The handlers that the gateway's routes lead to.
#[derive(Debug, Clone, Copy, PartialEq, Eq)]
pub enum Endpoint {
    /// Returns a sample record; needs the store connection.
    Sample,
}

/// What a handler answers: an HTTP status and a body.
#[derive(Debug, Clone, PartialEq, Eq)]
pub struct Response {
    pub status: u16,
    pub body: String,
}

/// A response as the contracts see it: the body of a success, or the status of
/// anything else.
pub open spec fn response_view(r: Response) -> Result<Seq<char>, u16> {
    if r.status == 200 {
        Ok(r.body@)
    } else {
        Err(r.status)
    }
}

/// The result of a handler for one request.
pub open spec fn endpoint_outcome(
    endpoint: Endpoint,
    params: Seq<(Seq<char>, Seq<char>)>,
    query: Option<Seq<char>>,
    body: Seq<char>,
    established: bool,
) -> Result<Seq<char>, u16> {
    match endpoint {
        Endpoint::Sample => sample_outcome(params, query, established),
    }
}

/// The route at `i` takes the request, and no earlier one does.
pub open spec fn is_first_taker(routes: Seq<RouteView>, method: Seq<char>, path: Seq<char>, i: int) -> bool {
    &&& 0 <= i < routes.len()
    &&& route_takes(routes[i], method, path)
    &&& forall|j: int| 0 <= j < i ==> !route_takes(#[trigger] routes[j], method, path)
}

/// What a routed request is answered with: the first route that takes it runs
/// its handler; without one, a path that some route has under another method
/// is answered 405, and any other 404.
pub open spec fn routed_outcome(
    routes: Seq<RouteView>,
    endpoints: Seq<Endpoint>,
    established: bool,
    method: Seq<char>,
    path: Seq<char>,
    query: Option<Seq<char>>,
    body: Seq<char>,
) -> Result<Seq<char>, u16> {
    if exists|i: int| is_first_taker(routes, method, path, i) {
        let i = choose|i: int| is_first_taker(routes, method, path, i);
        endpoint_outcome(endpoints[i], path_params(routes[i].pattern, path), query, body, established)
    } else if path_is_routed(routes, path) {
        Err(405)
    } else {
        Err(404)
    }
}

/// How the boundary reads a handler's answer: a success must be one JSON
/// value, and any other status is reported with its status line.
pub open spec fn finished(outcome: Result<Seq<char>, u16>) -> Result<Seq<char>, Seq<char>> {
    match outcome {
        Err(status) => Err("Error: status code "@ + status_text(status)),
        Ok(body) => match json_syntax_error(body) {
            None => Ok(body),
            Some(e) => Err("Response parsing error: "@ + e),
        },
    }
}

/// The body that a call sends: its payload, or an empty object without one.
pub open spec fn body_text(payload: Option<Seq<char>>) -> Seq<char> {
    match payload {
        Some(p) => p,
        None => "{}"@,
    }
}

/// What a boundary call returns. The path is parsed as a URI first, then the
/// method as a token; only then is the request routed.
pub open spec fn translation(
    routes: Seq<RouteView>,
    endpoints: Seq<Endpoint>,
    established: bool,
    path: Seq<char>,
    method: Seq<char>,
    payload: Option<Seq<char>>,
) -> Result<Seq<char>, Seq<char>> {
    match parsed_uri(path) {
        Err(e) => Err("Invalid path: "@ + e),
        Ok((p, q)) => if !is_method_token(method) {
            Err("Invalid method: "@ + "invalid HTTP method"@)
        } else {
            finished(routed_outcome(routes, endpoints, established, method, p, q, body_text(payload)))
        },
    }
}

pub open spec fn text_result_view(r: Result<String, String>) -> Result<Seq<char>, Seq<char>> {
    match r {
        Ok(t) => Ok(t@),
        Err(e) => Err(e@),
    }
}

proof fn lemma_first_taker_unique(routes: Seq<RouteView>, method: Seq<char>, path: Seq<char>, i: int, k: int)
    requires
        is_first_taker(routes, method, path, i),
        is_first_taker(routes, method, path, k),
    ensures
        i == k,
{
    if i < k {
        assert(!route_takes(routes[i], method, path));
    } else if k < i {
        assert(!route_takes(routes[k], method, path));
    }
}

fn error_response(e: GatewayError) -> (r: Response)
    ensures
        r.status == status_of(e),
        r.status != 200,
        100 <= r.status <= 999,
{
    Response { status: e.status_code(), body: e.message() }
}

/// Reads a handler's answer as the boundary does: the body of a 200 that is one
/// JSON value; otherwise an error text that starts with "Error: status code "
/// or "Response parsing error: ".
pub fn finish(response: Response) -> (r: Result<String, String>)
    requires
        100 <= response.status <= 999,
    ensures
        text_result_view(r) == finished(response_view(response)),
{
    if response.status != 200 {
        let mut m = String::from_str("Error: status code ");
        let line = status_line(response.status);
        m.append(line.as_str());
        return Err(m);
    }
    match check_json(response.body.as_str()) {
        Ok(()) => Ok(response.body),
        Err(e) => {
            let mut m = String::from_str("Response parsing error: ");
            m.append(e.as_str());
            Err(m)
        },
    }
}

/// The route of the sample endpoint: `GET /sample/{id}`.
pub open spec fn sample_route() -> RouteView {
    RouteView {
        method: "GET"@,
        pattern: seq![Segment::Literal(Seq::empty()), Segment::Literal("sample"@), Segment::Param("id"@)],
    }
}

proof fn lemma_sample_route_registers()
    ensures
        registration(Seq::empty(), "GET"@, "/sample/{id}"@) == Ok::<RouteView, RouteError>(sample_route()),
{
        reveal_strlit("GET");
        reveal_strlit("/sample/{id}");
        reveal_strlit("sample");
        reveal_strlit("id");
        let p = "/sample/{id}"@;
        assert(p.len() == 12);
        assert(p.subrange(0, 0) =~= Seq::<char>::empty());
        assert(split_path(p.subrange(0, 0)) =~~= seq![Seq::<char>::empty()]);
        assert(p.subrange(0, 1).drop_last() =~= p.subrange(0, 0));
        assert(p.subrange(0, 1).last() == '/');
        assert(split_path(p.subrange(0, 1)) =~~= seq![Seq::<char>::empty(), Seq::<char>::empty()]);
        assert(p.subrange(0, 2).drop_last() =~= p.subrange(0, 1));
        assert(p.subrange(0, 2).last() == 's');
        assert(split_path(p.subrange(0, 2)) =~~= seq![Seq::<char>::empty(), seq!['s']]);
        assert(p.subrange(0, 3).drop_last() =~= p.subrange(0, 2));
        assert(p.subrange(0, 3).last() == 'a');
        assert(split_path(p.subrange(0, 3)) =~~= seq![Seq::<char>::empty(), seq!['s', 'a']]);
        assert(p.subrange(0, 4).drop_last() =~= p.subrange(0, 3));
        assert(p.subrange(0, 4).last() == 'm');
        assert(split_path(p.subrange(0, 4)) =~~= seq![Seq::<char>::empty(), seq!['s', 'a', 'm']]);
        assert(p.subrange(0, 5).drop_last() =~= p.subrange(0, 4));
        assert(p.subrange(0, 5).last() == 'p');
        assert(split_path(p.subrange(0, 5)) =~~= seq![Seq::<char>::empty(), seq!['s', 'a', 'm', 'p']]);
        assert(p.subrange(0, 6).drop_last() =~= p.subrange(0, 5));
        assert(p.subrange(0, 6).last() == 'l');
        assert(split_path(p.subrange(0, 6)) =~~= seq![Seq::<char>::empty(), seq!['s', 'a', 'm', 'p', 'l']]);
        assert(p.subrange(0, 7).drop_last() =~= p.subrange(0, 6));
        assert(p.subrange(0, 7).last() == 'e');
        assert(split_path(p.subrange(0, 7)) =~~= seq![Seq::<char>::empty(), seq!['s', 'a', 'm', 'p', 'l', 'e']]);
        assert(p.subrange(0, 8).drop_last() =~= p.subrange(0, 7));
        assert(p.subrange(0, 8).last() == '/');
        assert(split_path(p.subrange(0, 8)) =~~= seq![Seq::<char>::empty(), seq!['s', 'a', 'm', 'p', 'l', 'e'], Seq::<char>::empty()]);
        assert(p.subrange(0, 9).drop_last() =~= p.subrange(0, 8));
        assert(p.subrange(0, 9).last() == '{');
        assert(split_path(p.subrange(0, 9)) =~~= seq![Seq::<char>::empty(), seq!['s', 'a', 'm', 'p', 'l', 'e'], seq!['{']]);
        assert(p.subrange(0, 10).drop_last() =~= p.subrange(0, 9));
        assert(p.subrange(0, 10).last() == 'i');
        assert(split_path(p.subrange(0, 10)) =~~= seq![Seq::<char>::empty(), seq!['s', 'a', 'm', 'p', 'l', 'e'], seq!['{', 'i']]);
        assert(p.subrange(0, 11).drop_last() =~= p.subrange(0, 10));
        assert(p.subrange(0, 11).last() == 'd');
        assert(split_path(p.subrange(0, 11)) =~~= seq![Seq::<char>::empty(), seq!['s', 'a', 'm', 'p', 'l', 'e'], seq!['{', 'i', 'd']]);
        assert(p.subrange(0, 12).drop_last() =~= p.subrange(0, 11));
        assert(p.subrange(0, 12).last() == '}');
        assert(split_path(p.subrange(0, 12)) =~~= seq![Seq::<char>::empty(), seq!['s', 'a', 'm', 'p', 'l', 'e'], seq!['{', 'i', 'd', '}']]);
        assert(p.subrange(0, 12) =~= p);
        let parts = split_path(p);
        assert(segment_from_text(parts[0]) == Some(Segment::Literal(Seq::<char>::empty())));
        assert(parts[1] =~= "sample"@);
        assert(segment_from_text(parts[1]) == Some(Segment::Literal("sample"@)));
        assert(parts[2].subrange(1, 3) =~= "id"@);
        assert(segment_from_text(parts[2]) == Some(Segment::Param("id"@)));
        assert(is_method_token("GET"@));
        assert(parts.map_values(|x: Seq<char>| segment_or_literal(x)) =~= sample_route().pattern);
}

/// The gateway: one route table, fixed once built, over the endpoints.
pub struct Gateway {
    table: RouteTable<Endpoint>,
}

impl Gateway {
    /// The gateway's routes, in order.
    pub closed spec fn routes(&self) -> Seq<RouteView> {
        self.table@
    }

    /// The endpoints of the routes, in the same order.
    pub closed spec fn endpoints(&self) -> Seq<Endpoint> {
        self.table.handlers()
    }

    pub closed spec fn wf(&self) -> bool {
        self.table.wf()
    }

    /// The gateway over a route table.
    pub fn from_table(table: RouteTable<Endpoint>) -> (g: Gateway)
        requires
            table.wf(),
        ensures
            g.wf(),
            g.routes() == table@,
            g.endpoints() == table.handlers(),
    {
        Gateway { table }
    }

    /// The application's gateway: `GET /sample/{id}` leads to the sample
    /// endpoint. Registering that route does not fail.
    pub fn new() -> (g: Gateway)
        ensures
            g.wf(),
            g.routes() == seq![sample_route()],
            g.endpoints() == seq![Endpoint::Sample],
    {
        let mut table: RouteTable<Endpoint> = RouteTable::new();
        let ghost empty = table@;
        assert(empty =~= Seq::<RouteView>::empty());
        proof {
            lemma_sample_route_registers();
        }
        let registered = table.register("GET", "/sample/{id}", Endpoint::Sample);
        assert(registered is Ok);
        assert(table@ =~= seq![sample_route()]);
        assert(table.handlers() =~= seq![Endpoint::Sample]);
        Gateway { table }
    }

    fn invoke<C: Clone>(
        endpoint: Endpoint,
        slot: &ConnectionSlot<C>,
        params: &Vec<(String, String)>,
        query: &Option<String>,
        body: &String,
    ) -> (r: Response)
        ensures
            response_view(r) == endpoint_outcome(
                endpoint,
                params.deep_view(),
                query.deep_view(),
                body@,
                slot.is_established(),
            ),
            100 <= r.status <= 999,
    {
        match endpoint {
            Endpoint::Sample => match sample(slot, params, query) {
                Ok(s) => Response { status: 200, body: s.to_json() },
                Err(e) => error_response(e),
            },
        }
    }

    /// Routes a request that has been parsed: the first route that takes the
    /// method and path runs its handler on the path parameters, the query and
    /// the body.
    pub fn dispatch<C: Clone>(
        &self,
        slot: &ConnectionSlot<C>,
        method: &str,
        path: &str,
        query: &Option<String>,
        body: &String,
    ) -> (r: Response)
        requires
            self.wf(),
        ensures
            response_view(r) == routed_outcome(
                self.routes(),
                self.endpoints(),
                slot.is_established(),
                method@,
                path@,
                query.deep_view(),
                body@,
            ),
            100 <= r.status <= 999,
    {
        match self.table.resolve(method, path) {
            Some((i, params)) => {
                let endpoint = *self.table.handler(i);
                proof {
                    assert(is_first_taker(self.routes(), method@, path@, i as int));
                    let k = choose|k: int| is_first_taker(self.routes(), method@, path@, k);
                    lemma_first_taker_unique(self.routes(), method@, path@, i as int, k);
                }
                Self::invoke(endpoint, slot, &params, query, body)
            },
            None => {
                proof {
                    assert forall|i: int| !is_first_taker(self.routes(), method@, path@, i) by {
                        if 0 <= i < self.routes().len() {
                            assert(!route_takes(self.routes()[i], method@, path@));
                        }
                    }
                }
                if self.table.routes_path(path) {
                    error_response(GatewayError::MethodNotAllowed)
                } else {
                    error_response(GatewayError::RouteNotFound)
                }
            },
        }
    }

    /// Handles one boundary call. The path is parsed as a URI ("Invalid path: "
    /// on failure), the payload defaults to an empty JSON object, the method is
    /// parsed as a token ("Invalid method: " on failure), and the routed
    /// answer is read by `finish`.
    pub fn handle<C: Clone>(
        &self,
        slot: &ConnectionSlot<C>,
        path: &str,
        method: &str,
        payload: Option<String>,
    ) -> (r: Result<String, String>)
        requires
            self.wf(),
        ensures
            text_result_view(r) == translation(
                self.routes(),
                self.endpoints(),
                slot.is_established(),
                path@,
                method@,
                payload.deep_view(),
            ),
    {
        let (uri_path, query) = match split_uri(path) {
            Ok(parts) => parts,
            Err(e) => {
                let mut m = String::from_str("Invalid path: ");
                m.append(e.as_str());
                return Err(m);
            },
        };
        let body = match payload {
            Some(b) => b,
            None => String::from_str("{}"),
        };
        let token = match parse_method(method) {
            Ok(t) => t,
            Err(e) => {
                let mut m = String::from_str("Invalid method: ");
                m.append(e.as_str());
                return Err(m);
            },
        };
        let response = self.dispatch(slot, token.as_str(), uri_path.as_str(), &query, &body);
        finish(response)
    }
}

/// A call that is absent its payload is answered exactly as one whose payload
/// is the empty JSON object.
pub proof fn lemma_absent_payload_is_empty_object(
    routes: Seq<RouteView>,
    endpoints: Seq<Endpoint>,
    established: bool,
    path: Seq<char>,
    method: Seq<char>,
)
    ensures
        translation(routes, endpoints, established, path, method, None) == translation(
            routes,
            endpoints,
            established,
            path,
            method,
            Some("{}"@),
        ),
{
}

/// A path that does not parse as a URI is answered "Invalid path: " and the
/// parser's message, whatever the routes, the connection or the rest of the
/// call: the request never reaches the route table.
pub proof fn lemma_invalid_path_never_routed(
    routes: Seq<RouteView>,
    endpoints: Seq<Endpoint>,
    established: bool,
    other_routes: Seq<RouteView>,
    other_endpoints: Seq<Endpoint>,
    other_established: bool,
    path: Seq<char>,
    method: Seq<char>,
    payload: Option<Seq<char>>,
)
    requires
        parsed_uri(path) is Err,
    ensures
        translation(routes, endpoints, established, path, method, payload) == Err::<
            Seq<char>,
            Seq<char>,
        >("Invalid path: "@ + parsed_uri(path)->Err_0),
        translation(routes, endpoints, established, path, method, payload) == translation(
            other_routes,
            other_endpoints,
            other_established,
            path,
            method,
            payload,
        ),
{
}

/// The answers to a batch of calls, one for each call.
pub open spec fn batch_translation(
    routes: Seq<RouteView>,
    endpoints: Seq<Endpoint>,
    established: bool,
    calls: Seq<(Seq<char>, Seq<char>, Option<Seq<char>>)>,
) -> Seq<Result<Seq<char>, Seq<char>>> {
    Seq::new(
        calls.len(),
        |i: int| translation(routes, endpoints, established, calls[i].0, calls[i].1, calls[i].2),
    )
}

/// Calls do not affect one another: in any two batches of calls, whatever else
/// they hold and whether those fail, the same call gets the same answer, and
/// that answer is the one it gets alone.
pub proof fn lemma_calls_are_independent(
    routes: Seq<RouteView>,
    endpoints: Seq<Endpoint>,
    established: bool,
    calls: Seq<(Seq<char>, Seq<char>, Option<Seq<char>>)>,
    others: Seq<(Seq<char>, Seq<char>, Option<Seq<char>>)>,
    i: int,
    j: int,
)
    requires
        0 <= i < calls.len(),
        0 <= j < others.len(),
        calls[i] == others[j],
    ensures
        batch_translation(routes, endpoints, established, calls)[i] == batch_translation(
            routes,
            endpoints,
            established,
            others,
        )[j],
        batch_translation(routes, endpoints, established, calls)[i] == translation(
            routes,
            endpoints,
            established,
            calls[i].0,
            calls[i].1,
            calls[i].2,
        ),
{
}

/// When a call parses and its handler answers a value that is one JSON text,
/// the call returns exactly that text.
pub proof fn lemma_round_trip(
    routes: Seq<RouteView>,
    endpoints: Seq<Endpoint>,
    established: bool,
    path: Seq<char>,
    method: Seq<char>,
    payload: Option<Seq<char>>,
    value: Seq<char>,
)
    requires
        parsed_uri(path) is Ok,
        is_method_token(method),
        routed_outcome(
            routes,
            endpoints,
            established,
            method,
            parsed_uri(path)->Ok_0.0,
            parsed_uri(path)->Ok_0.1,
            body_text(payload),
        ) == Ok::<Seq<char>, u16>(value),
        json_syntax_error(value) is None,
    ensures
        translation(routes, endpoints, established, path, method, payload) == Ok::<
            Seq<char>,
            Seq<char>,
        >(value),
{
}

} // verus!
