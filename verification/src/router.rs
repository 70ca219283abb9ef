//! A table of routes: a request goes to the first route whose method and
//! path pattern it matches.
use vstd::prelude::*;

use crate::pattern::{regex_compiles, regex_finds, regex_is_match, regex_valid};
use crate::web::jwt::UNAUTHORIZED;

verus! {

/// What answers a route: a handler that anyone may reach, or one that needs
/// an authenticated user. The number picks the handler from the caller's
/// table of handlers.
#[derive(Clone, Copy, Debug, PartialEq, Eq, Structural)]
pub enum RequestSignature {
    Open(usize),
    Closed(usize),
}

/// The route pattern anchored at both ends: `^` put in front unless it starts
/// with one, then `$` put behind unless it ends with one.
pub open spec fn anchored(route: Seq<char>) -> Seq<char> {
    let front = if route.len() > 0 && route[0] == '^' {
        route
    } else {
        seq!['^'] + route
    };
    if front.last() == '$' {
        front
    } else {
        front.push('$')
    }
}

/// Anchoring twice anchors no further.
pub proof fn lemma_anchored_idempotent(route: Seq<char>)
    ensures
        anchored(anchored(route)) == anchored(route),
        anchored(route).len() >= 2,
        anchored(route)[0] == '^',
        anchored(route).last() == '$',
{
    let front = if route.len() > 0 && route[0] == '^' {
        route
    } else {
        seq!['^'] + route
    };
    assert(front[0] == '^');
    if front.last() != '$' {
        assert(front.push('$')[0] == '^');
    }
}

/// A route: the HTTP method it answers, its anchored path pattern and what
/// answers it.
pub struct Route {
    verb: String,
    route: String,
    with: RequestSignature,
}

impl Route {
    #[verifier::type_invariant]
    spec fn pattern_compiles(self) -> bool {
        regex_compiles(self.route@)
    }

    /// The HTTP method the route answers.
    pub closed spec fn verb(&self) -> Seq<char> {
        self.verb@
    }

    /// The anchored path pattern.
    pub closed spec fn pattern(&self) -> Seq<char> {
        self.route@
    }

    /// What answers the route.
    pub closed spec fn target(&self) -> RequestSignature {
        self.with
    }

    /// Whether the route answers this method and path.
    pub open spec fn hits(&self, method: Seq<char>, path: Seq<char>) -> bool {
        self.verb() == method && regex_finds(self.pattern(), path)
    }

    /// The pattern that a route keeps for `route`: anchored at both ends.
    pub fn anchor(route: &str) -> (r: String)
        ensures
            r@ == anchored(route@),
    {
        let n = route.unicode_len();
        let mut r = if n > 0 && route.get_char(0) == '^' {
            route.to_owned()
        } else {
            proof {
                reveal_strlit("^");
            }
            let mut front = String::from_str("^");
            front.append(route);
            front
        };
        assert(r@.len() > 0);
        let m = r.as_str().unicode_len();
        let last = r.as_str().get_char(m - 1);
        if last != '$' {
            proof {
                reveal_strlit("$");
            }
            r.append("$");
            assert(r@ =~= anchored(route@));
        }
        r
    }

    /// A route for the method and the path pattern, anchored at both ends.
    /// The anchored pattern must be one that `regex` accepts; `try_new`
    /// checks that first.
    pub fn new(verb: &str, route: &str, with: RequestSignature) -> (r: Route)
        requires
            regex_compiles(anchored(route@)),
        ensures
            r.verb() == verb@,
            r.pattern() == anchored(route@),
            r.target() == with,
    {
        let pattern = Self::anchor(route);
        Route { verb: verb.to_owned(), route: pattern, with }
    }

    /// `Route::new` where `regex` accepts the anchored pattern, `None` where
    /// it refuses it.
    pub fn try_new(verb: &str, route: &str, with: RequestSignature) -> (r: Option<Route>)
        ensures
            r is Some <==> regex_compiles(anchored(route@)),
            r matches Some(x) ==> (x.verb() == verb@ && x.pattern() == anchored(route@)
                && x.target() == with),
    {
        let pattern = Self::anchor(route);
        if regex_valid(pattern.as_str()) {
            Some(Route { verb: verb.to_owned(), route: pattern, with })
        } else {
            None
        }
    }

    /// Whether the route's pattern matches the path.
    pub fn matches(&self, path: &str) -> (r: bool)
        ensures
            r == regex_finds(self.pattern(), path@),
    {
        proof {
            use_type_invariant(self);
        }
        regex_is_match(self.route.as_str(), path)
    }
}

/// The status with which a request that no route answers is turned away.
pub const NOT_FOUND: u16 = 404;

/// An HTTP answer: its status, its headers as `(name, value)` pairs in
/// order, and its body.
#[derive(Debug, PartialEq, Eq)]
pub struct Response {
    pub status: u16,
    pub headers: Vec<(String, String)>,
    pub body: Vec<u8>,
}

/// The text of an HTTP answer.
pub struct ResponseView {
    pub status: u16,
    pub headers: Seq<(Seq<char>, Seq<char>)>,
    pub body: Seq<u8>,
}

impl View for Response {
    type V = ResponseView;

    open spec fn view(&self) -> ResponseView {
        ResponseView {
            status: self.status,
            headers: self.headers@.map_values(|h: (String, String)| (h.0@, h.1@)),
            body: self.body@,
        }
    }
}

/// The headers of every answer: `Access-Control-Allow-Origin: *`.
pub open spec fn cors_headers() -> Seq<(Seq<char>, Seq<char>)> {
    seq![("Access-Control-Allow-Origin"@, "*"@)]
}

/// The answer with this status, the usual headers and an empty body.
pub open spec fn empty_answer(code: u16) -> ResponseView {
    ResponseView { status: code, headers: cors_headers(), body: Seq::empty() }
}

/// Where the table sends a request.
pub enum Dispatch {
    /// To this open handler.
    Open(usize),
    /// To this handler, once the authentication handler has named the user.
    Closed(usize),
    /// Nowhere: the answer is 404.
    NotFound,
}

/// What the reader does with a request: call an open handler, call a closed
/// one once the authentication handler has named the user, or answer at once.
#[derive(Debug, PartialEq, Eq)]
pub enum Routed {
    Open(usize),
    Closed(usize),
    Answer(Response),
}

/// The answer to a request for a closed route, once authentication has run.
#[derive(Debug, PartialEq, Eq)]
pub enum Admission {
    /// Call the handler for this user.
    Call(usize, String),
    /// Answer at once with this.
    Refused(Response),
}

/// Whether what `parse` gives back carries out the table's decision: the
/// same handler, or the 404 answer with an empty body.
pub open spec fn routed_as(r: Routed, d: Dispatch) -> bool {
    match d {
        Dispatch::Open(h) => r matches Routed::Open(g) && g == h,
        Dispatch::Closed(h) => r matches Routed::Closed(g) && g == h,
        Dispatch::NotFound => r matches Routed::Answer(a) && a@ == empty_answer(NOT_FOUND),
    }
}

/// The position of the first route that answers the method and path, or the
/// number of routes where none does.
pub open spec fn first_hit(routes: Seq<Route>, method: Seq<char>, path: Seq<char>) -> int
    decreases routes.len(),
{
    if routes.len() == 0 {
        0
    } else if routes[0].hits(method, path) {
        0
    } else {
        1 + first_hit(routes.drop_first(), method, path)
    }
}

/// What the table decides for a request.
pub open spec fn dispatch_of(routes: Seq<Route>, method: Seq<char>, path: Seq<char>) -> Dispatch {
    let k = first_hit(routes, method, path);
    if k >= routes.len() {
        Dispatch::NotFound
    } else {
        match routes[k].target() {
            RequestSignature::Open(h) => Dispatch::Open(h),
            RequestSignature::Closed(h) => Dispatch::Closed(h),
        }
    }
}

/// The first hit is a route that answers the request, with none before it
/// that does, or the end of the table where none does.
pub proof fn lemma_first_hit(routes: Seq<Route>, method: Seq<char>, path: Seq<char>)
    ensures
        0 <= first_hit(routes, method, path) <= routes.len(),
        first_hit(routes, method, path) < routes.len() ==> routes[first_hit(
            routes,
            method,
            path,
        )].hits(method, path),
        forall|j: int|
            0 <= j < first_hit(routes, method, path) ==> !(#[trigger] routes[j]).hits(method, path),
    decreases routes.len(),
{
    if routes.len() > 0 && !routes[0].hits(method, path) {
        lemma_first_hit(routes.drop_first(), method, path);
        assert forall|j: int| 0 <= j < first_hit(routes, method, path) implies !(
        #[trigger] routes[j]).hits(method, path) by {
            if j > 0 {
                assert(routes.drop_first()[j - 1] == routes[j]);
            }
        }
    }
}

/// A request goes to the target of a route that answers it when no earlier
/// route does, and nowhere (404) when no route answers it.
pub proof fn lemma_dispatch_first_route(
    routes: Seq<Route>,
    method: Seq<char>,
    path: Seq<char>,
    k: int,
)
    ensures
        0 <= k < routes.len() && routes[k].hits(method, path) && (forall|j: int|
            0 <= j < k ==> !(#[trigger] routes[j]).hits(method, path)) ==> dispatch_of(
            routes,
            method,
            path,
        ) == (match routes[k].target() {
            RequestSignature::Open(h) => Dispatch::Open(h),
            RequestSignature::Closed(h) => Dispatch::Closed(h),
        }),
        (forall|j: int| 0 <= j < routes.len() ==> !(#[trigger] routes[j]).hits(method, path))
            ==> dispatch_of(routes, method, path) == Dispatch::NotFound,
{
    lemma_first_hit(routes, method, path);
    let h = first_hit(routes, method, path);
    if 0 <= k < routes.len() && routes[k].hits(method, path) && (forall|j: int|
        0 <= j < k ==> !(#[trigger] routes[j]).hits(method, path)) {
        if h < k {
            assert(!routes[h].hits(method, path));
        }
        if h > k {
            assert(!routes[k].hits(method, path));
        }
    }
    if h < routes.len() {
        assert(routes[h].hits(method, path));
    }
}

/// A route added behind others never takes a request from an earlier route
/// that answers it; a request that no earlier route answers goes to the new
/// route if it answers it, and nowhere otherwise.
pub proof fn lemma_added_route_keeps_dispatch(
    routes: Seq<Route>,
    route: Route,
    method: Seq<char>,
    path: Seq<char>,
)
    ensures
        first_hit(routes, method, path) < routes.len() ==> dispatch_of(
            routes.push(route),
            method,
            path,
        ) == dispatch_of(routes, method, path),
        first_hit(routes, method, path) >= routes.len() ==> dispatch_of(
            routes.push(route),
            method,
            path,
        ) == dispatch_of(seq![route], method, path),
    decreases routes.len(),
{
    lemma_first_hit(routes, method, path);
    if routes.len() > 0 {
        lemma_added_route_keeps_dispatch(routes.drop_first(), route, method, path);
        assert(routes.push(route).drop_first() =~= routes.drop_first().push(route));
        assert(routes.push(route)[0] == routes[0]);
        if !routes[0].hits(method, path) {
            let rest = routes.drop_first();
            lemma_first_hit(rest, method, path);
            lemma_first_hit(rest.push(route), method, path);
            let k = first_hit(rest, method, path);
            if k < rest.len() {
                assert(rest.push(route)[k] == rest[k]);
            } else {
                assert(rest.push(route)[rest.len() as int] == route);
            }
        }
    } else {
        assert(routes.push(route) =~= seq![route]);
    }
}

/// Routes tried in the order they were added, and the handler that names
/// the user of a request for a closed route.
pub struct Router {
    pub routes: Vec<Route>,
    pub auth_handler: Option<usize>,
}

impl Router {
    /// An empty table without an authentication handler.
    pub fn build() -> (r: Router)
        ensures
            r.routes@.len() == 0,
            r.auth_handler is None,
    {
        Router { routes: Vec::new(), auth_handler: None }
    }

    /// Sets the authentication handler.
    pub fn auth_handler(&mut self, handler: usize)
        ensures
            final(self).auth_handler == Some(handler),
            final(self).routes@ == old(self).routes@,
    {
        self.auth_handler = Some(handler);
    }

    /// Adds a route that anyone may reach, behind those already there.
    pub fn open_route(&mut self, verb: &str, path: &str, with: usize)
        requires
            regex_compiles(anchored(path@)),
        ensures
            final(self).auth_handler == old(self).auth_handler,
            final(self).routes@.len() == old(self).routes@.len() + 1,
            final(self).routes@.drop_last() == old(self).routes@,
            final(self).routes@.last().verb() == verb@,
            final(self).routes@.last().pattern() == anchored(path@),
            final(self).routes@.last().target() == RequestSignature::Open(with),
    {
        let route = Route::new(verb, path, RequestSignature::Open(with));
        self.routes.push(route);
        assert(self.routes@.drop_last() =~= old(self).routes@);
    }

    /// Adds a route for authenticated users, behind those already there.
    pub fn closed_route(&mut self, verb: &str, path: &str, with: usize)
        requires
            regex_compiles(anchored(path@)),
        ensures
            final(self).auth_handler == old(self).auth_handler,
            final(self).routes@.len() == old(self).routes@.len() + 1,
            final(self).routes@.drop_last() == old(self).routes@,
            final(self).routes@.last().verb() == verb@,
            final(self).routes@.last().pattern() == anchored(path@),
            final(self).routes@.last().target() == RequestSignature::Closed(with),
    {
        let route = Route::new(verb, path, RequestSignature::Closed(with));
        self.routes.push(route);
        assert(self.routes@.drop_last() =~= old(self).routes@);
    }

    /// Adds a route, open or closed, where `regex` accepts its anchored
    /// pattern; leaves the table as it is and answers `false` otherwise.
    pub fn try_route(&mut self, verb: &str, path: &str, with: RequestSignature) -> (added: bool)
        ensures
            added == regex_compiles(anchored(path@)),
            final(self).auth_handler == old(self).auth_handler,
            !added ==> final(self).routes@ == old(self).routes@,
            added ==> final(self).routes@.len() == old(self).routes@.len() + 1
                && final(self).routes@.drop_last() == old(self).routes@
                && final(self).routes@.last().verb() == verb@
                && final(self).routes@.last().pattern() == anchored(path@)
                && final(self).routes@.last().target() == with,
    {
        let pattern = Route::anchor(path);
        if !regex_valid(pattern.as_str()) {
            return false;
        }
        match with {
            RequestSignature::Open(h) => self.open_route(verb, path, h),
            RequestSignature::Closed(h) => self.closed_route(verb, path, h),
        }
        true
    }

    /// Where a request with this method and path goes: the target of the
    /// first route that answers both, or nowhere. A request that a closed
    /// route answers needs the authentication handler to be set;
    /// `try_parse` checks that first.
    pub fn parse(&self, method: &str, path: &str) -> (r: Routed)
        requires
            dispatch_of(self.routes@, method@, path@) is Closed ==> self.auth_handler is Some,
        ensures
            routed_as(r, dispatch_of(self.routes@, method@, path@)),
    {
        self.dispatch(method, path)
    }

    /// `parse` where the request does not reach a closed route while no
    /// authentication handler is set; `None` where it does.
    pub fn try_parse(&self, method: &str, path: &str) -> (r: Option<Routed>)
        ensures
            r is None <==> (self.auth_handler is None && dispatch_of(
                self.routes@,
                method@,
                path@,
            ) is Closed),
            r matches Some(x) ==> routed_as(x, dispatch_of(self.routes@, method@, path@)),
    {
        if self.auth_handler.is_none() {
            let d = self.dispatch(method, path);
            if let Routed::Closed(_) = d {
                return None;
            }
        }
        Some(self.parse(method, path))
    }

    /// The target of the first route that answers the method and path, or
    /// the 404 answer.
    fn dispatch(&self, method: &str, path: &str) -> (r: Routed)
        ensures
            routed_as(r, dispatch_of(self.routes@, method@, path@)),
    {
        let ghost routes = self.routes@;
        let wanted: String = method.to_owned();
        let mut k: usize = 0;
        while k < self.routes.len()
            invariant
                routes == self.routes@,
                wanted@ == method@,
                k <= routes.len(),
                forall|j: int| 0 <= j < k ==> !(#[trigger] routes[j]).hits(method@, path@),
            decreases routes.len() - k,
        {
            let r = &self.routes[k];
            let verb_matches = r.verb == wanted;
            if r.matches(path) && verb_matches {
                proof {
                    lemma_first_hit(routes, method@, path@);
                    if first_hit(routes, method@, path@) < k {
                        assert(!routes[first_hit(routes, method@, path@)].hits(method@, path@));
                    }
                    if first_hit(routes, method@, path@) > k {
                        assert(!routes[k as int].hits(method@, path@));
                    }
                }
                return match r.with {
                    RequestSignature::Open(h) => Routed::Open(h),
                    RequestSignature::Closed(h) => Routed::Closed(h),
                };
            }
            k = k + 1;
        }
        proof {
            lemma_first_hit(routes, method@, path@);
            if first_hit(routes, method@, path@) < routes.len() {
                assert(!routes[first_hit(routes, method@, path@)].hits(method@, path@));
            }
        }
        Routed::Answer(Router::throw_code(NOT_FOUND))
    }

    /// The answer to a request for a closed route once the authentication
    /// handler has run: the handler for the user it named, or 401 with an
    /// empty body where it named none.
    pub fn authorize(handler: usize, username: Option<String>) -> (r: Admission)
        ensures
            username matches Some(u) ==> (r matches Admission::Call(h, v) && h == handler && v@
                == u@),
            username is None ==> (r matches Admission::Refused(a) && a@ == empty_answer(
                UNAUTHORIZED,
            )),
    {
        match username {
            Some(user) => Admission::Call(handler, user),
            None => Admission::Refused(Router::throw_code(UNAUTHORIZED)),
        }
    }

    /// The answer with this status and body, and the header
    /// `Access-Control-Allow-Origin: *`.
    pub fn response(body: Vec<u8>, status: u16) -> (r: Response)
        ensures
            r@ == (ResponseView { status: status, headers: cors_headers(), body: body@ }),
    {
        let mut headers: Vec<(String, String)> = Vec::new();
        headers.push(
            (String::from_str("Access-Control-Allow-Origin"), String::from_str("*")),
        );
        let r = Response { status, headers, body };
        assert(r@.headers =~= cors_headers());
        r
    }

    /// The answer with this status, an empty body and the header
    /// `Access-Control-Allow-Origin: *`.
    pub fn throw_code(code: u16) -> (r: Response)
        ensures
            r@ == empty_answer(code),
    {
        let r = Router::response(Vec::new(), code);
        assert(r@.body =~= Seq::<u8>::empty());
        r
    }
}

} // verus!
