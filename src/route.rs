//! The route table: HTTP-shaped routes from a method and a path pattern with
//! named segments to a handler, and the resolution of a request against them.

use crate::outside::{is_method_token, parse_method};
use vstd::prelude::*;

verus! {

/// The parts of a text between its slashes, in order. A text with `k` slashes
/// has `k + 1` parts, some of which may be empty.
pub open spec fn split_path(s: Seq<char>) -> Seq<Seq<char>>
    decreases s.len(),
{
    if s.len() == 0 {
        seq![Seq::<char>::empty()]
    } else {
        let prev = split_path(s.drop_last());
        if s.last() == '/' {
            prev.push(Seq::<char>::empty())
        } else {
            prev.update(prev.len() - 1, prev.last().push(s.last()))
        }
    }
}

proof fn lemma_split_path_nonempty(s: Seq<char>)
    ensures
        split_path(s).len() >= 1,
    decreases s.len(),
{
    if s.len() > 0 {
        lemma_split_path_nonempty(s.drop_last());
    }
}

/// Splits a text at its slashes.
fn split_segments(s: &str) -> (r: Vec<String>)
    ensures
        r.deep_view() == split_path(s@),
{
    let n = s.unicode_len();
    let mut out: Vec<String> = Vec::new();
    let mut start: usize = 0;
    let mut i: usize = 0;
    proof {
        assert(s@.subrange(0, 0) =~= Seq::<char>::empty());
        assert(out.deep_view().push(s@.subrange(0, 0)) =~= split_path(s@.subrange(0, 0)));
    }
    while i < n
        invariant
            n == s@.len(),
            start <= i <= n,
            out.deep_view().push(s@.subrange(start as int, i as int)) == split_path(
                s@.subrange(0, i as int),
            ),
        decreases n - i,
    {
        let c = s.get_char(i);
        let ghost pre = s@.subrange(0, i as int);
        let ghost cur = s@.subrange(start as int, i as int);
        let ghost before = out.deep_view();
        proof {
            assert(s@.subrange(0, i + 1).drop_last() =~= pre);
            lemma_split_path_nonempty(pre);
        }
        if c == '/' {
            let seg = String::from_str(s.substring_char(start, i));
            out.push(seg);
            proof {
                assert(out.deep_view() =~= before.push(cur));
                assert(s@.subrange(i + 1, i + 1) =~= Seq::<char>::empty());
            }
            start = i + 1;
        } else {
            proof {
                assert(s@.subrange(start as int, i + 1) =~= cur.push(c));
                assert(split_path(pre).update(split_path(pre).len() - 1, cur.push(c))
                    =~= before.push(cur.push(c)));
            }
        }
        i = i + 1;
    }
    proof {
        assert(s@.subrange(0, n as int) =~= s@);
    }
    let ghost before = out.deep_view();
    out.push(String::from_str(s.substring_char(start, n)));
    proof {
        assert(out.deep_view() =~= before.push(s@.subrange(start as int, n as int)));
    }
    out
}

/// One segment of a path pattern, as the contracts see it.
pub enum Segment {
    /// Matches exactly this text.
    Literal(Seq<char>),
    /// Matches any non-empty text and binds it to this name.
    Param(Seq<char>),
}

/// One segment of a path pattern.
#[derive(Debug, Clone, PartialEq, Eq)]
pub enum PatternSegment {
    Literal(String),
    Param(String),
}

impl View for PatternSegment {
    type V = Segment;

    open spec fn view(&self) -> Segment {
        match self {
            PatternSegment::Literal(s) => Segment::Literal(s@),
            PatternSegment::Param(s) => Segment::Param(s@),
        }
    }
}

pub open spec fn segments_view(v: Seq<PatternSegment>) -> Seq<Segment> {
    v.map_values(|x: PatternSegment| x@)
}

pub open spec fn is_brace(c: char) -> bool {
    c == '{' || c == '}'
}

pub open spec fn no_braces(s: Seq<char>) -> bool {
    forall|i: int| 0 <= i < s.len() ==> !is_brace(#[trigger] s[i])
}

/// A pattern segment from its text: `{name}` binds a parameter, text without
/// braces is literal, and anything else is refused.
pub open spec fn segment_from_text(s: Seq<char>) -> Option<Segment> {
    if s.len() >= 3 && s[0] == '{' && s.last() == '}' && no_braces(s.subrange(1, s.len() - 1)) {
        Some(Segment::Param(s.subrange(1, s.len() - 1)))
    } else if no_braces(s) {
        Some(Segment::Literal(s))
    } else {
        None
    }
}

pub open spec fn segment_or_literal(s: Seq<char>) -> Segment {
    match segment_from_text(s) {
        Some(seg) => seg,
        None => Segment::Literal(s),
    }
}

/// A path pattern from its text: it starts with a slash, and each of its parts
/// is a valid segment.
pub open spec fn pattern_from_text(p: Seq<char>) -> Option<Seq<Segment>> {
    let parts = split_path(p);
    if p.len() > 0 && p[0] == '/' && forall|i: int|
        0 <= i < parts.len() ==> (#[trigger] segment_from_text(parts[i])) is Some {
        Some(parts.map_values(|x: Seq<char>| segment_or_literal(x)))
    } else {
        None
    }
}

fn has_brace(s: &str) -> (r: bool)
    ensures
        r == !no_braces(s@),
{
    let n = s.unicode_len();
    let mut i: usize = 0;
    while i < n
        invariant
            n == s@.len(),
            i <= n,
            no_braces(s@.subrange(0, i as int)),
        decreases n - i,
    {
        let c = s.get_char(i);
        if c == '{' || c == '}' {
            return true;
        }
        proof {
            assert forall|k: int| 0 <= k < i + 1 implies !is_brace(
                #[trigger] s@.subrange(0, i + 1)[k],
            ) by {
                if k < i {
                    assert(s@.subrange(0, i + 1)[k] == s@.subrange(0, i as int)[k]);
                }
            }
        }
        i = i + 1;
    }
    proof {
        assert(s@.subrange(0, n as int) =~= s@);
    }
    false
}

fn parse_segment(s: &str) -> (r: Option<PatternSegment>)
    ensures
        match r {
            Some(seg) => segment_from_text(s@) == Some(seg@),
            None => segment_from_text(s@) is None,
        },
{
    let n = s.unicode_len();
    if n >= 3 && s.get_char(0) == '{' && s.get_char(n - 1) == '}' {
        let inner = s.substring_char(1, n - 1);
        if !has_brace(inner) {
            return Some(PatternSegment::Param(String::from_str(inner)));
        }
    }
    if has_brace(s) {
        None
    } else {
        Some(PatternSegment::Literal(String::from_str(s)))
    }
}

fn parse_pattern(p: &str) -> (r: Option<Vec<PatternSegment>>)
    ensures
        match r {
            Some(v) => pattern_from_text(p@) == Some(segments_view(v@)),
            None => pattern_from_text(p@) is None,
        },
{
    if p.unicode_len() == 0 || p.get_char(0) != '/' {
        return None;
    }
    let parts = split_segments(p);
    let ghost parts_view = split_path(p@);
    let mut out: Vec<PatternSegment> = Vec::new();
    let mut i: usize = 0;
    while i < parts.len()
        invariant
            parts.deep_view() == parts_view,
            parts_view == split_path(p@),
            i <= parts.len(),
            out@.len() == i,
            forall|k: int| 0 <= k < i ==> (#[trigger] segment_from_text(parts_view[k])) is Some,
            forall|k: int|
                0 <= k < i ==> (#[trigger] out@[k])@ == segment_or_literal(parts_view[k]),
        decreases parts.len() - i,
    {
        assert(parts[i as int]@ == parts_view[i as int]);
        match parse_segment(parts[i].as_str()) {
            Some(seg) => {
                out.push(seg);
            },
            None => {
                return None;
            },
        }
        i = i + 1;
    }
    proof {
        assert(segments_view(out@) =~= parts_view.map_values(
            |x: Seq<char>| segment_or_literal(x),
        ));
    }
    Some(out)
}

/// A route as the contracts see it: its method token and its pattern.
pub struct RouteView {
    pub method: Seq<char>,
    pub pattern: Seq<Segment>,
}

pub open spec fn same_shape(a: Segment, b: Segment) -> bool {
    match (a, b) {
        (Segment::Literal(x), Segment::Literal(y)) => x == y,
        (Segment::Param(_), Segment::Param(_)) => true,
        _ => false,
    }
}

/// Two routes conflict when they have the same method and patterns of the same
/// shape: equal literals and parameters at the same places, whatever the
/// parameters are called.
pub open spec fn conflicts(a: RouteView, b: RouteView) -> bool {
    &&& a.method == b.method
    &&& a.pattern.len() == b.pattern.len()
    &&& forall|k: int| 0 <= k < a.pattern.len() ==> same_shape(a.pattern[k], #[trigger] b.pattern[k])
}

pub open spec fn segment_matches(p: Segment, s: Seq<char>) -> bool {
    match p {
        Segment::Literal(l) => s == l,
        Segment::Param(_) => s.len() > 0,
    }
}

/// A pattern matches a path split at its slashes when it has as many segments
/// and each segment matches: no wildcards, no prefixes.
pub open spec fn pattern_matches(pattern: Seq<Segment>, parts: Seq<Seq<char>>) -> bool {
    &&& pattern.len() == parts.len()
    &&& forall|k: int| 0 <= k < pattern.len() ==> segment_matches(pattern[k], #[trigger] parts[k])
}

/// The parameters that the first `n` segments of a pattern bind, as (name, text)
/// pairs in order.
pub open spec fn bindings(pattern: Seq<Segment>, parts: Seq<Seq<char>>, n: int) -> Seq<
    (Seq<char>, Seq<char>),
>
    decreases n,
{
    if n <= 0 {
        Seq::empty()
    } else {
        let prev = bindings(pattern, parts, n - 1);
        match pattern[n - 1] {
            Segment::Param(name) => prev.push((name, parts[n - 1])),
            Segment::Literal(_) => prev,
        }
    }
}

/// The parameters that a matching pattern binds in a path.
pub open spec fn path_params(pattern: Seq<Segment>, path: Seq<char>) -> Seq<(Seq<char>, Seq<char>)> {
    bindings(pattern, split_path(path), pattern.len() as int)
}

/// A route takes a request when the methods are equal and its pattern matches
/// the path.
pub open spec fn route_takes(r: RouteView, method: Seq<char>, path: Seq<char>) -> bool {
    r.method == method && pattern_matches(r.pattern, split_path(path))
}

/// Some route has a pattern that matches the path, under any method.
pub open spec fn path_is_routed(routes: Seq<RouteView>, path: Seq<char>) -> bool {
    exists|i: int| 0 <= i < routes.len() && pattern_matches(#[trigger] routes[i].pattern, split_path(path))
}

/// Why a route could not be registered.
#[derive(Debug, Clone, PartialEq, Eq)]
pub enum RouteError {
    /// The method is not a token.
    InvalidMethod,
    /// The pattern does not start with a slash, or a segment holds stray braces.
    InvalidPattern,
    /// A route with the same method and a pattern of the same shape exists.
    DuplicateRoute,
}

/// What registering `method` and the pattern text `pattern` gives on a table
/// with `routes`: the new route, or why it is refused.
pub open spec fn registration(routes: Seq<RouteView>, method: Seq<char>, pattern: Seq<char>) -> Result<
    RouteView,
    RouteError,
> {
    if !is_method_token(method) {
        Err(RouteError::InvalidMethod)
    } else if pattern_from_text(pattern) is None {
        Err(RouteError::InvalidPattern)
    } else {
        let route = RouteView { method, pattern: pattern_from_text(pattern)->0 };
        if exists|i: int| 0 <= i < routes.len() && conflicts(#[trigger] routes[i], route) {
            Err(RouteError::DuplicateRoute)
        } else {
            Ok(route)
        }
    }
}

struct Route<H> {
    method: String,
    pattern: Vec<PatternSegment>,
    handler: H,
}

/// A table of routes, each from a method and a path pattern to a handler.
/// No two of its routes conflict.
pub struct RouteTable<H> {
    routes: Vec<Route<H>>,
}

fn segment_same_shape(a: &PatternSegment, b: &PatternSegment) -> (r: bool)
    ensures
        r == same_shape(a@, b@),
{
    match (a, b) {
        (PatternSegment::Literal(x), PatternSegment::Literal(y)) => *x == *y,
        (PatternSegment::Param(_), PatternSegment::Param(_)) => true,
        _ => false,
    }
}

fn segment_takes(p: &PatternSegment, s: &String) -> (r: bool)
    ensures
        r == segment_matches(p@, s@),
{
    match p {
        PatternSegment::Literal(l) => *l == *s,
        PatternSegment::Param(_) => s.as_str().unicode_len() > 0,
    }
}

fn pattern_takes(pattern: &Vec<PatternSegment>, parts: &Vec<String>) -> (r: bool)
    ensures
        r == pattern_matches(segments_view(pattern@), parts.deep_view()),
{
    if pattern.len() != parts.len() {
        return false;
    }
    let mut k: usize = 0;
    while k < pattern.len()
        invariant
            pattern.len() == parts.len(),
            k <= pattern.len(),
            forall|j: int|
                0 <= j < k ==> segment_matches(
                    segments_view(pattern@)[j],
                    #[trigger] parts.deep_view()[j],
                ),
        decreases pattern.len() - k,
    {
        if !segment_takes(&pattern[k], &parts[k]) {
            assert(segment_matches(segments_view(pattern@)[k as int], parts.deep_view()[k as int])
                == segment_matches(pattern@[k as int]@, parts@[k as int]@));
            return false;
        }
        k = k + 1;
    }
    true
}

fn pattern_bindings(pattern: &Vec<PatternSegment>, parts: &Vec<String>) -> (r: Vec<(String, String)>)
    requires
        pattern.len() == parts.len(),
    ensures
        r.deep_view() == bindings(segments_view(pattern@), parts.deep_view(), pattern.len() as int),
{
    let mut out: Vec<(String, String)> = Vec::new();
    let mut k: usize = 0;
    while k < pattern.len()
        invariant
            pattern.len() == parts.len(),
            k <= pattern.len(),
            out.deep_view() == bindings(segments_view(pattern@), parts.deep_view(), k as int),
        decreases pattern.len() - k,
    {
        let ghost before = out.deep_view();
        match &pattern[k] {
            PatternSegment::Param(name) => {
                out.push((name.clone(), parts[k].clone()));
                proof {
                    assert(out.deep_view() =~= before.push((name@, parts.deep_view()[k as int])));
                }
            },
            PatternSegment::Literal(_) => {},
        }
        k = k + 1;
    }
    out
}

impl<H> RouteTable<H> {
    /// The routes, in the order of registration.
    pub closed spec fn view(&self) -> Seq<RouteView> {
        Seq::new(
            self.routes@.len(),
            |i: int|
                RouteView {
                    method: self.routes@[i].method@,
                    pattern: segments_view(self.routes@[i].pattern@),
                },
        )
    }

    /// The handlers, in the order of registration.
    pub closed spec fn handlers(&self) -> Seq<H> {
        self.routes@.map_values(|r: Route<H>| r.handler)
    }

    /// No two routes conflict.
    pub open spec fn wf(&self) -> bool {
        &&& self.handlers().len() == self@.len()
        &&& forall|i: int, j: int|
            0 <= i < j < self@.len() ==> !conflicts(#[trigger] self@[i], #[trigger] self@[j])
    }

    /// A table without routes.
    pub fn new() -> (t: Self)
        ensures
            t.wf(),
            t@.len() == 0,
    {
        let t = RouteTable { routes: Vec::new() };
        proof {
            assert(t.handlers().len() == 0);
        }
        t
    }

    /// The number of routes.
    pub fn len(&self) -> (n: usize)
        ensures
            n == self@.len(),
    {
        self.routes.len()
    }

    /// The handler of the route at `i`.
    pub fn handler(&self, i: usize) -> (h: &H)
        requires
            self.wf(),
            i < self@.len(),
        ensures
            *h == self.handlers()[i as int],
    {
        &self.routes[i].handler
    }

    fn conflicts_with(&self, method: &String, pattern: &Vec<PatternSegment>) -> (r: bool)
        ensures
            r == exists|i: int|
                0 <= i < self@.len() && conflicts(
                    #[trigger] self@[i],
                    RouteView { method: method@, pattern: segments_view(pattern@) },
                ),
    {
        let ghost new_route = RouteView { method: method@, pattern: segments_view(pattern@) };
        let mut i: usize = 0;
        while i < self.routes.len()
            invariant
                new_route == (RouteView { method: method@, pattern: segments_view(pattern@) }),
                i <= self.routes.len(),
                forall|j: int| 0 <= j < i ==> !conflicts(#[trigger] self@[j], new_route),
            decreases self.routes.len() - i,
        {
            let r = &self.routes[i];
            let mut same = r.method == *method && r.pattern.len() == pattern.len();
            if same {
                let mut k: usize = 0;
                while k < pattern.len()
                    invariant
                        r == &self.routes@[i as int],
                        r.pattern.len() == pattern.len(),
                        k <= pattern.len(),
                        same == forall|m: int|
                            0 <= m < k ==> same_shape(
                                segments_view(r.pattern@)[m],
                                #[trigger] segments_view(pattern@)[m],
                            ),
                    decreases pattern.len() - k,
                {
                    let s = segment_same_shape(&r.pattern[k], &pattern[k]);
                    proof {
                        if !s {
                            assert(!same_shape(
                                segments_view(r.pattern@)[k as int],
                                segments_view(pattern@)[k as int],
                            ));
                        }
                    }
                    same = same && s;
                    k = k + 1;
                }
            }
            assert(self@[i as int].method == r.method@);
            assert(self@[i as int].pattern == segments_view(r.pattern@));
            if same {
                assert(conflicts(self@[i as int], new_route));
                return true;
            }
            i = i + 1;
        }
        false
    }

    /// Adds a route from `method` and the pattern `pattern` to `handler`.
    ///
    /// Fails, and leaves the table as it was, when the method is not a token,
    /// when the pattern is not valid, or when a route with the same method and a
    /// pattern of the same shape is already there.
    pub fn register(&mut self, method: &str, pattern: &str, handler: H) -> (r: Result<(), RouteError>)
        requires
            old(self).wf(),
        ensures
            final(self).wf(),
            match registration(old(self)@, method@, pattern@) {
                Ok(route) => {
                    &&& r is Ok
                    &&& final(self)@ == old(self)@.push(route)
                    &&& final(self).handlers() == old(self).handlers().push(handler)
                },
                Err(e) => {
                    &&& r == Err::<(), RouteError>(e)
                    &&& final(self)@ == old(self)@
                    &&& final(self).handlers() == old(self).handlers()
                },
            },
    {
        let token = match parse_method(method) {
            Ok(t) => t,
            Err(_) => {
                return Err(RouteError::InvalidMethod);
            },
        };
        let segments = match parse_pattern(pattern) {
            Some(p) => p,
            None => {
                return Err(RouteError::InvalidPattern);
            },
        };
        if self.conflicts_with(&token, &segments) {
            return Err(RouteError::DuplicateRoute);
        }
        let ghost old_view = self@;
        let ghost old_handlers = self.handlers();
        let ghost added = RouteView { method: token@, pattern: segments_view(segments@) };
        self.routes.push(Route { method: token, pattern: segments, handler });
        proof {
            assert(self@ =~= old_view.push(added));
            assert(self.handlers() =~= old_handlers.push(handler));
            assert forall|i: int, j: int| 0 <= i < j < self@.len() implies !conflicts(
                #[trigger] self@[i],
                #[trigger] self@[j],
            ) by {
                if j == self@.len() - 1 {
                    assert(self@[j] == added);
                    assert(self@[i] == old_view[i]);
                }
            }
        }
        Ok(())
    }

    /// The first route that takes `method` on `path`, with the parameters that
    /// its pattern binds in the path; `None` when no route takes them.
    pub fn resolve(&self, method: &str, path: &str) -> (r: Option<(usize, Vec<(String, String)>)>)
        requires
            self.wf(),
        ensures
            r is None <==> forall|i: int| 0 <= i < self@.len() ==> !route_takes(#[trigger] self@[i], method@, path@),
            r matches Some((i, params)) ==> {
                &&& i < self@.len()
                &&& route_takes(self@[i as int], method@, path@)
                &&& forall|j: int| 0 <= j < i ==> !route_takes(#[trigger] self@[j], method@, path@)
                &&& params.deep_view() == path_params(self@[i as int].pattern, path@)
            },
    {
        let parts = split_segments(path);
        let wanted = String::from_str(method);
        let mut i: usize = 0;
        while i < self.routes.len()
            invariant
                parts.deep_view() == split_path(path@),
                wanted@ == method@,
                i <= self.routes.len(),
                forall|j: int| 0 <= j < i ==> !route_takes(#[trigger] self@[j], method@, path@),
            decreases self.routes.len() - i,
        {
            let r = &self.routes[i];
            assert(self@[i as int].method == r.method@);
            assert(self@[i as int].pattern == segments_view(r.pattern@));
            if r.method == wanted && pattern_takes(&r.pattern, &parts) {
                let params = pattern_bindings(&r.pattern, &parts);
                return Some((i, params));
            }
            i = i + 1;
        }
        None
    }

    /// Whether some route's pattern matches `path`, under any method.
    pub fn routes_path(&self, path: &str) -> (r: bool)
        requires
            self.wf(),
        ensures
            r == path_is_routed(self@, path@),
    {
        let parts = split_segments(path);
        let mut i: usize = 0;
        while i < self.routes.len()
            invariant
                parts.deep_view() == split_path(path@),
                i <= self.routes.len(),
                forall|j: int|
                    0 <= j < i ==> !pattern_matches(#[trigger] self@[j].pattern, split_path(path@)),
            decreases self.routes.len() - i,
        {
            assert(self@[i as int].pattern == segments_view(self.routes@[i as int].pattern@));
            if pattern_takes(&self.routes[i].pattern, &parts) {
                return true;
            }
            i = i + 1;
        }
        false
    }
}

} // verus!
