use vstd::prelude::*;

use crate::err::BuildError;
use crate::handler::InnerHandler;
use crate::method::Method;
use crate::pattern::{
    regex_accepts, regex_captures, regex_compiles, regex_set_compiles, Pattern, PatternSet,
};
use crate::request::{spec_path, Request};
use crate::response::Response;

verus! {

/// Route `i` wins for `path` among routes with the given pattern `sources`
/// and `priorities`: its pattern matches the path, and every route whose
/// pattern also matches has a numerically larger priority — or an equal
/// priority and an index no smaller, so that among equal priorities the
/// first-registered route wins.
pub open spec fn is_winner(
    sources: Seq<Seq<char>>,
    priorities: Seq<usize>,
    path: Seq<char>,
    i: int,
) -> bool {
    &&& 0 <= i < sources.len()
    &&& regex_accepts(sources[i], path)
    &&& forall|j: int|
        0 <= j < sources.len() && regex_accepts(#[trigger] sources[j], path) ==> (priorities[i]
            < priorities[j] || (priorities[i] == priorities[j] && i <= j))
}

/// One method's compiled routes: the combined matcher, the standalone
/// patterns (needed to extract the winner's captures), and the parallel
/// priority and handler arrays.  Index `i` everywhere refers to the `i`-th
/// registered route; all four parts are built together from the same
/// ordered pattern list.
struct RouteGroup<H> {
    set: PatternSet,
    patterns: Vec<Pattern>,
    priorities: Vec<usize>,
    handlers: Vec<H>,
}

impl<H> RouteGroup<H> {
    /// The pattern strings of this group's routes, in registration order.
    spec fn srcs(&self) -> Seq<Seq<char>> {
        Seq::new(self.patterns@.len(), |i: int| self.patterns@[i].src())
    }

    spec fn wf(&self) -> bool {
        &&& self.patterns@.len() >= 1
        &&& self.set.pats() == self.srcs()
        &&& self.priorities@.len() == self.patterns@.len()
        &&& self.handlers@.len() == self.patterns@.len()
    }
}

/// Selects the winning route of one group for `path`.
fn select_in_group<H>(g: &RouteGroup<H>, path: &str) -> (r: Option<usize>)
    requires
        g.wf(),
    ensures
        match r {
            Some(i) => is_winner(g.srcs(), g.priorities@, path@, i as int),
            None => forall|j: int|
                0 <= j < g.srcs().len() ==> !regex_accepts(#[trigger] g.srcs()[j], path@),
        },
{
    let np = g.patterns.len();
    proof {
        assert(g.srcs().len() == np as int);
    }
    let matched = g.set.matches(path);
    if matched.len() == 0 {
        proof {
            assert forall|j: int|
                0 <= j < g.srcs().len() implies !regex_accepts(#[trigger] g.srcs()[j], path@) by {
                if regex_accepts(g.srcs()[j], path@) {
                    assert(matched@.contains(j as usize));
                }
            }
        }
        None
    } else {
        proof {
            assert(matched@.contains(matched@[0]));
        }
        let mut best: usize = matched[0];
        let mut k: usize = 1;
        while k < matched.len()
            invariant
                1 <= k <= matched@.len(),
                g.wf(),
                g.srcs().len() <= usize::MAX,
                forall|j: int|
                    0 <= j < g.srcs().len() ==> (matched@.contains(j as usize) <==> regex_accepts(
                        #[trigger] g.srcs()[j],
                        path@,
                    )),
                forall|t: int| 0 <= t < matched@.len() ==> (#[trigger] matched@[t] as int) < g.srcs().len(),
                (best as int) < g.srcs().len(),
                regex_accepts(g.srcs()[best as int], path@),
                forall|t: int|
                    0 <= t < k ==> (g.priorities@[best as int] < g.priorities@[#[trigger] matched@[t] as int]
                        || (g.priorities@[best as int] == g.priorities@[matched@[t] as int]
                        && best <= matched@[t])),
            decreases matched@.len() - k,
        {
            let idx = matched[k];
            proof {
                assert(matched@.contains(matched@[k as int]));
            }
            if g.priorities[idx] < g.priorities[best] || (g.priorities[idx] == g.priorities[best]
                && idx < best) {
                best = idx;
            }
            k += 1;
        }
        proof {
            assert forall|j: int|
                0 <= j < g.srcs().len() && regex_accepts(#[trigger] g.srcs()[j], path@) implies (
            g.priorities@[best as int] < g.priorities@[j] || (g.priorities@[best as int]
                == g.priorities@[j] && best as int <= j)) by {
                assert(matched@.contains(j as usize));
                let t = choose|t: int| 0 <= t < matched@.len() && matched@[t] == j as usize;
                assert(g.priorities@[best as int] < g.priorities@[matched@[t] as int] || (
                g.priorities@[best as int] == g.priorities@[matched@[t] as int] && best
                    <= matched@[t]));
            }
        }
        Some(best)
    }
}

/// The immutable route table: one optional route group per HTTP method and
/// the mandatory not-found handler.  Built once by `RouterBuilder::finish`,
/// read-only thereafter.
pub struct Router<H> {
    get: Option<RouteGroup<H>>,
    post: Option<RouteGroup<H>>,
    put: Option<RouteGroup<H>>,
    patch: Option<RouteGroup<H>>,
    delete: Option<RouteGroup<H>>,
    head: Option<RouteGroup<H>>,
    not_found: H,
}

impl<H> Router<H> {
    #[verifier::type_invariant]
    spec fn wf(self) -> bool {
        &&& match self.get {
            Some(g) => g.wf(),
            None => true,
        }
        &&& match self.post {
            Some(g) => g.wf(),
            None => true,
        }
        &&& match self.put {
            Some(g) => g.wf(),
            None => true,
        }
        &&& match self.patch {
            Some(g) => g.wf(),
            None => true,
        }
        &&& match self.delete {
            Some(g) => g.wf(),
            None => true,
        }
        &&& match self.head {
            Some(g) => g.wf(),
            None => true,
        }
    }

    spec fn spec_group(&self, m: Method) -> Option<RouteGroup<H>> {
        match m {
            Method::Get => self.get,
            Method::Post => self.post,
            Method::Put => self.put,
            Method::Patch => self.patch,
            Method::Delete => self.delete,
            Method::Head => self.head,
        }
    }

    /// Whether any route is registered for `m`.
    pub closed spec fn spec_has_routes(&self, m: Method) -> bool {
        self.spec_group(m) is Some
    }

    /// The pattern strings registered for `m`, in registration order
    /// (empty when the method has no routes).
    pub closed spec fn spec_sources(&self, m: Method) -> Seq<Seq<char>> {
        match self.spec_group(m) {
            Some(g) => g.srcs(),
            None => Seq::empty(),
        }
    }

    /// The priorities registered for `m`, parallel to `spec_sources`.
    pub closed spec fn spec_priorities(&self, m: Method) -> Seq<usize> {
        match self.spec_group(m) {
            Some(g) => g.priorities@,
            None => Seq::empty(),
        }
    }

    /// The handlers registered for `m`, parallel to `spec_sources`.
    pub closed spec fn spec_handlers(&self, m: Method) -> Seq<H> {
        match self.spec_group(m) {
            Some(g) => g.handlers@,
            None => Seq::empty(),
        }
    }

    /// The not-found handler.
    pub closed spec fn spec_not_found(&self) -> H {
        self.not_found
    }

    /// The entry point for registering routes: a fresh, empty builder.
    pub fn build() -> (r: RouterBuilder<H>)
        ensures
            forall|m: Method| #[trigger] r.spec_patterns(m).len() == 0,
            forall|m: Method| #[trigger] r.spec_priorities(m).len() == 0,
            forall|m: Method| #[trigger] r.spec_handlers(m).len() == 0,
            r.spec_not_found() is None,
    {
        RouterBuilder::default()
    }

    /// The not-found handler itself, for a transport that must hand a
    /// request with an unsupported method straight to it.
    pub fn not_found_handler(&self) -> (r: &H)
        ensures
            *r == self.spec_not_found(),
    {
        &self.not_found
    }

    fn group(&self, m: Method) -> (r: &Option<RouteGroup<H>>)
        ensures
            *r == self.spec_group(m),
    {
        match m {
            Method::Get => &self.get,
            Method::Post => &self.post,
            Method::Put => &self.put,
            Method::Patch => &self.patch,
            Method::Delete => &self.delete,
            Method::Head => &self.head,
        }
    }

    /// Selects the winning route index for `method` and `path`: among the
    /// routes whose pattern matches the path, the one with the numerically
    /// smallest priority, ties going to the first registered.  `None` when
    /// the method has no routes or none of its patterns matches.
    pub fn select_route(&self, method: Method, path: &str) -> (r: Option<usize>)
        ensures
            self.spec_priorities(method).len() == self.spec_sources(method).len(),
            self.spec_handlers(method).len() == self.spec_sources(method).len(),
            match r {
                Some(i) => is_winner(
                    self.spec_sources(method),
                    self.spec_priorities(method),
                    path@,
                    i as int,
                ),
                None => forall|j: int|
                    0 <= j < self.spec_sources(method).len() ==> !regex_accepts(
                        #[trigger] self.spec_sources(method)[j],
                        path@,
                    ),
            },
    {
        proof {
            use_type_invariant(self);
        }
        match self.group(method) {
            Some(g) => select_in_group(g, path),
            None => None,
        }
    }
}

impl<H: InnerHandler> Router<H> {
    /// Dispatches one request: computes its path, selects the winning route
    /// of its method's group, binds the winner's capture groups onto the
    /// request and invokes that route's handler — or the not-found handler
    /// when the method has no routes or no pattern matches.  Exactly one
    /// response is returned: one satisfying the invoked handler's own
    /// response predicate, on the request as the handler saw it.
    pub fn dispatch(&self, req: &mut Request) -> (resp: Response)
        ensures
            final (req).spec_method() == old(req).spec_method(),
            final (req).spec_uri() == old(req).spec_uri(),
            final (req).spec_headers() == old(req).spec_headers(),
            ({
                let srcs = self.spec_sources(old(req).spec_method());
                let pris = self.spec_priorities(old(req).spec_method());
                let path = spec_path(old(req).spec_uri());
                if exists|i: int| is_winner(srcs, pris, path, i) {
                    exists|i: int|
                        #[trigger] is_winner(srcs, pris, path, i) && final (req).spec_captures()
                            == Some(regex_captures(srcs[i], path)) && self.spec_handlers(
                            old(req).spec_method(),
                        )[i].spec_handle(*final (req), resp)
                } else {
                    final (req).spec_captures() == old(req).spec_captures()
                        && self.spec_not_found().spec_handle(*final (req), resp)
                }
            }),
    {
        proof {
            use_type_invariant(self);
        }
        let method = req.method();
        let path = req.path().to_owned();
        match self.group(method) {
            Some(g) => {
                match select_in_group(g, path.as_str()) {
                    Some(i) => {
                        let caps = g.patterns[i].captures(path.as_str());
                        req.bind_captures(caps.unwrap());
                        g.handlers[i].handle(req)
                    },
                    None => self.not_found.handle(req),
                }
            },
            None => self.not_found.handle(req),
        }
    }
}

/// One method's routes as registered so far: parallel pattern, priority
/// and handler arrays.
struct BuilderGroup<H> {
    patterns: Vec<String>,
    priorities: Vec<usize>,
    handlers: Vec<H>,
}

impl<H> BuilderGroup<H> {
    /// The registered pattern strings, in registration order.
    spec fn pats(&self) -> Seq<Seq<char>> {
        self.patterns.deep_view()
    }

    spec fn wf(&self) -> bool {
        &&& self.priorities@.len() == self.patterns@.len()
        &&& self.handlers@.len() == self.patterns@.len()
    }

    fn empty() -> (r: Self)
        ensures
            r.wf(),
            r.pats().len() == 0,
            r.priorities@.len() == 0,
            r.handlers@.len() == 0,
    {
        BuilderGroup { patterns: Vec::new(), priorities: Vec::new(), handlers: Vec::new() }
    }
}

/// Compiles one method's registered routes: each pattern standalone, and
/// the whole list into one combined matcher, in registration order.
fn compile_group<H>(g: BuilderGroup<H>, m: Method) -> (r: Result<Option<RouteGroup<H>>, BuildError>)
    requires
        g.wf(),
    ensures
        match r {
            Ok(og) => {
                &&& match og {
                    Some(rg) => {
                        &&& rg.wf()
                        &&& rg.srcs() == g.pats()
                        &&& rg.priorities@ == g.priorities@
                        &&& rg.handlers@ == g.handlers@
                        &&& g.pats().len() > 0
                    },
                    None => g.pats().len() == 0,
                }
                &&& forall|i: int| 0 <= i < g.pats().len() ==> regex_compiles(#[trigger] g.pats()[i])
                &&& g.pats().len() > 0 ==> regex_set_compiles(g.pats())
            },
            Err(e) => match e {
                BuildError::InvalidPattern { method, pattern } => {
                    &&& method == m
                    &&& exists|i: int|
                        0 <= i < g.pats().len() && #[trigger] g.pats()[i] == pattern@
                    &&& !regex_compiles(pattern@) || !regex_set_compiles(g.pats())
                },
                BuildError::NotFoundHandlerMissing => false,
            },
        },
{
    if g.patterns.len() == 0 {
        return Ok(None);
    }
    let BuilderGroup { patterns, priorities, handlers } = g;
    let mut compiled: Vec<Pattern> = Vec::new();
    let mut i: usize = 0;
    while i < patterns.len()
        invariant
            i <= patterns@.len(),
            patterns@ == g.patterns@,
            patterns.deep_view() == g.pats(),
            compiled@.len() == i,
            forall|j: int| 0 <= j < i ==> (#[trigger] compiled@[j].src()) == patterns.deep_view()[j],
            forall|j: int| 0 <= j < i ==> regex_compiles(#[trigger] patterns.deep_view()[j]),
        decreases patterns@.len() - i,
    {
        proof {
            assert(patterns.deep_view()[i as int] == patterns@[i as int]@);
        }
        match Pattern::compile(&patterns[i]) {
            Some(p) => {
                compiled.push(p);
            },
            None => {
                let pat = patterns[i].clone();
                proof {
                    assert(g.pats()[i as int] == pat@);
                }
                return Err(BuildError::InvalidPattern { method: m, pattern: pat });
            },
        }
        i += 1;
    }
    match PatternSet::compile(&patterns) {
        Some(set) => {
            let rg = RouteGroup { set, patterns: compiled, priorities, handlers };
            proof {
                assert(rg.srcs() =~= patterns.deep_view());
            }
            Ok(Some(rg))
        },
        None => {
            let pat = patterns[0].clone();
            proof {
                assert(g.pats()[0] == pat@);
            }
            Err(BuildError::InvalidPattern { method: m, pattern: pat })
        },
    }
}

/// Carries a route group's compile error over to the builder the group
/// came from.
proof fn lemma_compile_err<H>(b: RouterBuilder<H>, g: BuilderGroup<H>, m: Method, e: BuildError)
    requires
        b.spec_bgroup(m) == g,
        match e {
            BuildError::InvalidPattern { method, pattern } => {
                &&& method == m
                &&& exists|i: int| 0 <= i < g.pats().len() && #[trigger] g.pats()[i] == pattern@
                &&& !regex_compiles(pattern@) || !regex_set_compiles(g.pats())
            },
            BuildError::NotFoundHandlerMissing => false,
        },
    ensures
        match e {
            BuildError::InvalidPattern { method, pattern } => {
                &&& exists|i: int|
                    0 <= i < b.spec_patterns(method).len() && (#[trigger] b.spec_patterns(
                        method,
                    )[i]) == pattern@
                &&& !regex_compiles(pattern@) || !regex_set_compiles(b.spec_patterns(method))
            },
            BuildError::NotFoundHandlerMissing => false,
        },
{
    match e {
        BuildError::InvalidPattern { method, pattern } => {
            assert(b.spec_patterns(method) == g.pats());
            let i = choose|i: int| 0 <= i < g.pats().len() && #[trigger] g.pats()[i] == pattern@;
            assert(b.spec_patterns(method)[i] == pattern@);
        },
        BuildError::NotFoundHandlerMissing => {},
    }
}

/// Accumulates per-method `(pattern, priority, handler)` registrations and
/// the not-found handler; `finish` compiles them into a `Router`.
pub struct RouterBuilder<H> {
    get: BuilderGroup<H>,
    post: BuilderGroup<H>,
    put: BuilderGroup<H>,
    patch: BuilderGroup<H>,
    delete: BuilderGroup<H>,
    head: BuilderGroup<H>,
    not_found: Option<H>,
}

/// `post` is `pre` with one route appended for `method` — pattern,
/// priority and handler pushed onto that method's parallel arrays — and
/// everything else unchanged.
pub open spec fn spec_route_added<H>(
    pre: RouterBuilder<H>,
    post: RouterBuilder<H>,
    method: Method,
    pattern: Seq<char>,
    priority: usize,
    handler: H,
) -> bool {
    &&& post.spec_patterns(method) == pre.spec_patterns(method).push(pattern)
    &&& post.spec_priorities(method) == pre.spec_priorities(method).push(priority)
    &&& post.spec_handlers(method) == pre.spec_handlers(method).push(handler)
    &&& forall|m: Method|
        m != method ==> (#[trigger] post.spec_patterns(m)) == pre.spec_patterns(m)
    &&& forall|m: Method|
        m != method ==> (#[trigger] post.spec_priorities(m)) == pre.spec_priorities(m)
    &&& forall|m: Method|
        m != method ==> (#[trigger] post.spec_handlers(m)) == pre.spec_handlers(m)
    &&& post.spec_not_found() == pre.spec_not_found()
}

impl<H> RouterBuilder<H> {
    #[verifier::type_invariant]
    spec fn wf(self) -> bool {
        &&& self.get.wf()
        &&& self.post.wf()
        &&& self.put.wf()
        &&& self.patch.wf()
        &&& self.delete.wf()
        &&& self.head.wf()
    }

    spec fn spec_bgroup(&self, m: Method) -> BuilderGroup<H> {
        match m {
            Method::Get => self.get,
            Method::Post => self.post,
            Method::Put => self.put,
            Method::Patch => self.patch,
            Method::Delete => self.delete,
            Method::Head => self.head,
        }
    }

    /// The pattern strings registered for `m`, in registration order.
    pub closed spec fn spec_patterns(&self, m: Method) -> Seq<Seq<char>> {
        self.spec_bgroup(m).pats()
    }

    /// The priorities registered for `m`, parallel to `spec_patterns`.
    pub closed spec fn spec_priorities(&self, m: Method) -> Seq<usize> {
        self.spec_bgroup(m).priorities@
    }

    /// The handlers registered for `m`, parallel to `spec_patterns`.
    pub closed spec fn spec_handlers(&self, m: Method) -> Seq<H> {
        self.spec_bgroup(m).handlers@
    }

    /// The not-found handler, once set.
    pub closed spec fn spec_not_found(&self) -> Option<H> {
        self.not_found
    }

    /// Every registered pattern compiles, and each non-empty method
    /// group's combined matcher does too.
    pub open spec fn spec_all_compile(&self) -> bool {
        &&& forall|m: Method, i: int|
            0 <= i < self.spec_patterns(m).len() ==> regex_compiles(
                #[trigger] self.spec_patterns(m)[i],
            )
        &&& forall|m: Method|
            self.spec_patterns(m).len() > 0 ==> regex_set_compiles(#[trigger] self.spec_patterns(m))
    }

    /// Registers a route for `method`: the pattern is kept as given (it is
    /// not compiled until `finish`), appended after the method's earlier
    /// registrations.
    pub fn add_with_priority(self, method: Method, pattern: String, priority: usize, handler: H) -> (r:
        Self)
        ensures
            spec_route_added(self, r, method, pattern@, priority, handler),
    {
        proof {
            use_type_invariant(&self);
        }
        let RouterBuilder { get, post, put, patch, delete, head, not_found } = self;
        match method {
            Method::Get => {
                let mut g = get;
                g.patterns.push(pattern);
                g.priorities.push(priority);
                g.handlers.push(handler);
                let r = RouterBuilder { get: g, post, put, patch, delete, head, not_found };
                proof {
                    assert(r.get.pats() =~= self.get.pats().push(pattern@));
                }
                r
            },
            Method::Post => {
                let mut g = post;
                g.patterns.push(pattern);
                g.priorities.push(priority);
                g.handlers.push(handler);
                let r = RouterBuilder { get, post: g, put, patch, delete, head, not_found };
                proof {
                    assert(r.post.pats() =~= self.post.pats().push(pattern@));
                }
                r
            },
            Method::Put => {
                let mut g = put;
                g.patterns.push(pattern);
                g.priorities.push(priority);
                g.handlers.push(handler);
                let r = RouterBuilder { get, post, put: g, patch, delete, head, not_found };
                proof {
                    assert(r.put.pats() =~= self.put.pats().push(pattern@));
                }
                r
            },
            Method::Patch => {
                let mut g = patch;
                g.patterns.push(pattern);
                g.priorities.push(priority);
                g.handlers.push(handler);
                let r = RouterBuilder { get, post, put, patch: g, delete, head, not_found };
                proof {
                    assert(r.patch.pats() =~= self.patch.pats().push(pattern@));
                }
                r
            },
            Method::Delete => {
                let mut g = delete;
                g.patterns.push(pattern);
                g.priorities.push(priority);
                g.handlers.push(handler);
                let r = RouterBuilder { get, post, put, patch, delete: g, head, not_found };
                proof {
                    assert(r.delete.pats() =~= self.delete.pats().push(pattern@));
                }
                r
            },
            Method::Head => {
                let mut g = head;
                g.patterns.push(pattern);
                g.priorities.push(priority);
                g.handlers.push(handler);
                let r = RouterBuilder { get, post, put, patch, delete, head: g, not_found };
                proof {
                    assert(r.head.pats() =~= self.head.pats().push(pattern@));
                }
                r
            },
        }
    }

    /// Registers a route for `method` with the default priority 0.
    pub fn add(self, method: Method, pattern: String, handler: H) -> (r: Self)
        ensures
            spec_route_added(self, r, method, pattern@, 0, handler),
    {
        self.add_with_priority(method, pattern, 0, handler)
    }

    /// Registers a GET route with the default priority 0.
    pub fn add_get(self, pattern: String, handler: H) -> (r: Self)
        ensures
            spec_route_added(self, r, Method::Get, pattern@, 0, handler),
    {
        self.add_with_priority(Method::Get, pattern, 0, handler)
    }

    /// Registers a GET route with the given priority.
    pub fn add_get_with_priority(self, pattern: String, priority: usize, handler: H) -> (r: Self)
        ensures
            spec_route_added(self, r, Method::Get, pattern@, priority, handler),
    {
        self.add_with_priority(Method::Get, pattern, priority, handler)
    }

    /// Registers a POST route with the default priority 0.
    pub fn add_post(self, pattern: String, handler: H) -> (r: Self)
        ensures
            spec_route_added(self, r, Method::Post, pattern@, 0, handler),
    {
        self.add_with_priority(Method::Post, pattern, 0, handler)
    }

    /// Registers a POST route with the given priority.
    pub fn add_post_with_priority(self, pattern: String, priority: usize, handler: H) -> (r: Self)
        ensures
            spec_route_added(self, r, Method::Post, pattern@, priority, handler),
    {
        self.add_with_priority(Method::Post, pattern, priority, handler)
    }

    /// Registers a PUT route with the default priority 0.
    pub fn add_put(self, pattern: String, handler: H) -> (r: Self)
        ensures
            spec_route_added(self, r, Method::Put, pattern@, 0, handler),
    {
        self.add_with_priority(Method::Put, pattern, 0, handler)
    }

    /// Registers a PUT route with the given priority.
    pub fn add_put_with_priority(self, pattern: String, priority: usize, handler: H) -> (r: Self)
        ensures
            spec_route_added(self, r, Method::Put, pattern@, priority, handler),
    {
        self.add_with_priority(Method::Put, pattern, priority, handler)
    }

    /// Registers a PATCH route with the default priority 0.
    pub fn add_patch(self, pattern: String, handler: H) -> (r: Self)
        ensures
            spec_route_added(self, r, Method::Patch, pattern@, 0, handler),
    {
        self.add_with_priority(Method::Patch, pattern, 0, handler)
    }

    /// Registers a PATCH route with the given priority.
    pub fn add_patch_with_priority(self, pattern: String, priority: usize, handler: H) -> (r: Self)
        ensures
            spec_route_added(self, r, Method::Patch, pattern@, priority, handler),
    {
        self.add_with_priority(Method::Patch, pattern, priority, handler)
    }

    /// Registers a DELETE route with the default priority 0.
    pub fn add_delete(self, pattern: String, handler: H) -> (r: Self)
        ensures
            spec_route_added(self, r, Method::Delete, pattern@, 0, handler),
    {
        self.add_with_priority(Method::Delete, pattern, 0, handler)
    }

    /// Registers a DELETE route with the given priority.
    pub fn add_delete_with_priority(self, pattern: String, priority: usize, handler: H) -> (r: Self)
        ensures
            spec_route_added(self, r, Method::Delete, pattern@, priority, handler),
    {
        self.add_with_priority(Method::Delete, pattern, priority, handler)
    }

    /// Registers a HEAD route with the default priority 0.
    pub fn add_head(self, pattern: String, handler: H) -> (r: Self)
        ensures
            spec_route_added(self, r, Method::Head, pattern@, 0, handler),
    {
        self.add_with_priority(Method::Head, pattern, 0, handler)
    }

    /// Registers a HEAD route with the given priority.
    pub fn add_head_with_priority(self, pattern: String, priority: usize, handler: H) -> (r: Self)
        ensures
            spec_route_added(self, r, Method::Head, pattern@, priority, handler),
    {
        self.add_with_priority(Method::Head, pattern, priority, handler)
    }

    /// Sets the single not-found handler; a later call overwrites an
    /// earlier one.
    pub fn add_not_found(self, handler: H) -> (r: Self)
        ensures
            r.spec_not_found() == Some(handler),
            forall|m: Method| (#[trigger] r.spec_patterns(m)) == self.spec_patterns(m),
            forall|m: Method| (#[trigger] r.spec_priorities(m)) == self.spec_priorities(m),
            forall|m: Method| (#[trigger] r.spec_handlers(m)) == self.spec_handlers(m),
    {
        proof {
            use_type_invariant(&self);
        }
        let RouterBuilder { get, post, put, patch, delete, head, not_found: _ } = self;
        RouterBuilder { get, post, put, patch, delete, head, not_found: Some(handler) }
    }

    /// Compiles the registrations into an immutable router, consuming the
    /// builder.  For each method with at least one route, every pattern is
    /// compiled standalone and the whole list into one combined matcher, in
    /// registration order.  Fails with `InvalidPattern` — naming the method
    /// and pattern — when a pattern does not compile, and with
    /// `NotFoundHandlerMissing` when no not-found handler was set; it
    /// succeeds whenever neither is the case.
    pub fn finish(self) -> (r: Result<Router<H>, BuildError>)
        ensures
            match r {
                Ok(router) => {
                    &&& self.spec_not_found() matches Some(nf) && router.spec_not_found() == nf
                    &&& forall|m: Method|
                        (#[trigger] router.spec_sources(m)) == self.spec_patterns(m)
                    &&& forall|m: Method|
                        (#[trigger] router.spec_priorities(m)) == self.spec_priorities(m)
                    &&& forall|m: Method|
                        (#[trigger] router.spec_handlers(m)) == self.spec_handlers(m)
                    &&& forall|m: Method|
                        (#[trigger] router.spec_has_routes(m)) <==> self.spec_patterns(m).len() > 0
                    &&& self.spec_all_compile()
                },
                Err(e) => match e {
                    BuildError::InvalidPattern { method, pattern } => {
                        &&& exists|i: int|
                            0 <= i < self.spec_patterns(method).len() && (#[trigger] self.spec_patterns(
                                method,
                            )[i]) == pattern@
                        &&& !regex_compiles(pattern@) || !regex_set_compiles(
                            self.spec_patterns(method),
                        )
                    },
                    BuildError::NotFoundHandlerMissing => {
                        &&& self.spec_not_found() is None
                        &&& self.spec_all_compile()
                    },
                },
            },
    {
        proof {
            use_type_invariant(&self);
        }
        let ghost b = self;
        let RouterBuilder { get, post, put, patch, delete, head, not_found } = self;
        let ghost gv = get;
        let gget = match compile_group(get, Method::Get) {
            Ok(x) => x,
            Err(e) => {
                proof {
                    lemma_compile_err(b, gv, Method::Get, e);
                }
                return Err(e);
            },
        };
        let ghost gv = post;
        let gpost = match compile_group(post, Method::Post) {
            Ok(x) => x,
            Err(e) => {
                proof {
                    lemma_compile_err(b, gv, Method::Post, e);
                }
                return Err(e);
            },
        };
        let ghost gv = put;
        let gput = match compile_group(put, Method::Put) {
            Ok(x) => x,
            Err(e) => {
                proof {
                    lemma_compile_err(b, gv, Method::Put, e);
                }
                return Err(e);
            },
        };
        let ghost gv = patch;
        let gpatch = match compile_group(patch, Method::Patch) {
            Ok(x) => x,
            Err(e) => {
                proof {
                    lemma_compile_err(b, gv, Method::Patch, e);
                }
                return Err(e);
            },
        };
        let ghost gv = delete;
        let gdelete = match compile_group(delete, Method::Delete) {
            Ok(x) => x,
            Err(e) => {
                proof {
                    lemma_compile_err(b, gv, Method::Delete, e);
                }
                return Err(e);
            },
        };
        let ghost gv = head;
        let ghead = match compile_group(head, Method::Head) {
            Ok(x) => x,
            Err(e) => {
                proof {
                    lemma_compile_err(b, gv, Method::Head, e);
                }
                return Err(e);
            },
        };
        let nf = match not_found {
            Some(h) => h,
            None => return Err(BuildError::NotFoundHandlerMissing),
        };
        Ok(
            Router {
                get: gget,
                post: gpost,
                put: gput,
                patch: gpatch,
                delete: gdelete,
                head: ghead,
                not_found: nf,
            },
        )
    }
}

impl<H> Default for RouterBuilder<H> {
    /// An empty builder: no routes for any method, no not-found handler.
    fn default() -> (r: Self)
        ensures
            forall|m: Method| #[trigger] r.spec_patterns(m).len() == 0,
            forall|m: Method| #[trigger] r.spec_priorities(m).len() == 0,
            forall|m: Method| #[trigger] r.spec_handlers(m).len() == 0,
            r.spec_not_found() is None,
    {
        RouterBuilder {
            get: BuilderGroup::empty(),
            post: BuilderGroup::empty(),
            put: BuilderGroup::empty(),
            patch: BuilderGroup::empty(),
            delete: BuilderGroup::empty(),
            head: BuilderGroup::empty(),
            not_found: None,
        }
    }
}

// What the routing rules guarantee, stated once and proved for every route
// table, path and pair of routes.

/// Routing is deterministic: for one route table and one path there is at
/// most one winning route, so repeated dispatch of the identical request
/// against the identical router makes the identical routing decision.
pub proof fn lemma_winner_unique(
    sources: Seq<Seq<char>>,
    priorities: Seq<usize>,
    path: Seq<char>,
    i: int,
    j: int,
)
    requires
        is_winner(sources, priorities, path, i),
        is_winner(sources, priorities, path, j),
    ensures
        i == j,
{
    assert(regex_accepts(sources[i], path));
    assert(regex_accepts(sources[j], path));
}

/// If exactly one route's pattern matches the path, that route wins.
pub proof fn lemma_single_match_wins(
    sources: Seq<Seq<char>>,
    priorities: Seq<usize>,
    path: Seq<char>,
    i: int,
)
    requires
        priorities.len() == sources.len(),
        0 <= i < sources.len(),
        regex_accepts(sources[i], path),
        forall|j: int|
            0 <= j < sources.len() && j != i ==> !regex_accepts(#[trigger] sources[j], path),
    ensures
        is_winner(sources, priorities, path, i),
{
}

/// The winner is minimal: every other matching route has a larger
/// priority, or the same priority and a later registration index.
pub proof fn lemma_winner_minimal(
    sources: Seq<Seq<char>>,
    priorities: Seq<usize>,
    path: Seq<char>,
    i: int,
    j: int,
)
    requires
        is_winner(sources, priorities, path, i),
        0 <= j < sources.len(),
        regex_accepts(sources[j], path),
    ensures
        priorities[i] <= priorities[j],
        priorities[i] == priorities[j] ==> i <= j,
{
}

/// When no route's pattern matches the path, no route wins — dispatch
/// falls through to the not-found handler.
pub proof fn lemma_no_match_no_winner(
    sources: Seq<Seq<char>>,
    priorities: Seq<usize>,
    path: Seq<char>,
)
    requires
        forall|j: int| 0 <= j < sources.len() ==> !regex_accepts(#[trigger] sources[j], path),
    ensures
        forall|i: int| !is_winner(sources, priorities, path, i),
{
}

} // verus!
