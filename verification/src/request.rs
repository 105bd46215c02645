use vstd::prelude::*;
use vstd::string::StrSliceExecFns;

use crate::method::Method;

verus! {

/// Char index of the first `'?'` in `u`, or `u.len()` when there is none.
pub open spec fn spec_split_pos(u: Seq<char>) -> int
    decreases u.len(),
{
    if u.len() == 0 {
        0
    } else if u[0] == '?' {
        0
    } else {
        1 + spec_split_pos(u.drop_first())
    }
}

/// Everything before the first `'?'`: the path part of a request URI.
pub open spec fn spec_path(u: Seq<char>) -> Seq<char> {
    u.subrange(0, spec_split_pos(u))
}

/// Everything after the first `'?'`, or `None` when the URI has no query.
pub open spec fn spec_query(u: Seq<char>) -> Option<Seq<char>> {
    if spec_split_pos(u) == u.len() {
        None
    } else {
        Some(u.subrange(spec_split_pos(u) + 1, u.len() as int))
    }
}

/// The split position lies in the string, everything before it is not a
/// `'?'`, and the character at it (if any) is one.
pub proof fn lemma_split_pos(u: Seq<char>)
    ensures
        0 <= spec_split_pos(u) <= u.len(),
        forall|j: int| 0 <= j < spec_split_pos(u) ==> u[j] != '?',
        spec_split_pos(u) < u.len() ==> u[spec_split_pos(u)] == '?',
    decreases u.len(),
{
    if u.len() == 0 {
    } else if u[0] == '?' {
    } else {
        lemma_split_pos(u.drop_first());
        assert forall|j: int| 0 <= j < spec_split_pos(u) implies u[j] != '?' by {
            if j > 0 {
                assert(u.drop_first()[j - 1] == u[j]);
            }
        }
        if spec_split_pos(u) < u.len() {
            assert(u.drop_first()[spec_split_pos(u.drop_first())] == u[spec_split_pos(u)]);
        }
    }
}

/// Any position with the properties of `lemma_split_pos` is the split
/// position: the first `'?'` is unique.
pub proof fn lemma_split_pos_unique(u: Seq<char>, i: int)
    requires
        0 <= i <= u.len(),
        forall|j: int| 0 <= j < i ==> u[j] != '?',
        i < u.len() ==> u[i] == '?',
    ensures
        i == spec_split_pos(u),
{
    lemma_split_pos(u);
    let p = spec_split_pos(u);
    if i < p {
        assert(u[i] != '?');
    } else if p < i {
        assert(u[p] != '?');
    }
}

/// Char index of the first `'?'` in `u`, or its length when there is none.
fn find_split_pos(u: &str) -> (r: usize)
    ensures
        r == spec_split_pos(u@),
{
    let n = u.unicode_len();
    let mut i: usize = 0;
    while i < n
        invariant
            i <= n,
            n == u@.len(),
            forall|j: int| 0 <= j < i ==> u@[j] != '?',
        decreases n - i,
    {
        if u.get_char(i) == '?' {
            proof {
                lemma_split_pos_unique(u@, i as int);
            }
            return i;
        }
        i += 1;
    }
    proof {
        lemma_split_pos_unique(u@, n as int);
    }
    n
}

/// One inbound request: its method, its raw URI, its headers as plain
/// name/value pairs, the memoized position where the path ends and the
/// query begins, and — once dispatch has chosen a route — the winning
/// pattern's capture groups.  The body stream stays with the transport.
pub struct Request {
    method: Method,
    uri: String,
    headers: Vec<(String, String)>,
    qpos: usize,
    captures: Option<Vec<Option<String>>>,
}

impl Request {
    #[verifier::type_invariant]
    spec fn wf(self) -> bool {
        self.qpos == spec_split_pos(self.uri@)
    }

    /// The request's method.
    pub closed spec fn spec_method(&self) -> Method {
        self.method
    }

    /// The raw URI the request was created with.
    pub closed spec fn spec_uri(&self) -> Seq<char> {
        self.uri@
    }

    /// The request's headers, as name/value pairs.
    pub closed spec fn spec_headers(&self) -> Seq<(Seq<char>, Seq<char>)> {
        self.headers.deep_view()
    }

    /// The capture groups bound by dispatch, if a route has matched.
    pub closed spec fn spec_captures(&self) -> Option<Seq<Option<Seq<char>>>> {
        match self.captures {
            Some(c) => Some(c.deep_view()),
            None => None,
        }
    }

    /// Wraps a raw request.  The path/query split point is computed here,
    /// once; no capture groups are bound yet.
    pub fn new(method: Method, uri: String, headers: Vec<(String, String)>) -> (r: Request)
        ensures
            r.spec_method() == method,
            r.spec_uri() == uri@,
            r.spec_headers() == headers.deep_view(),
            r.spec_captures() is None,
    {
        let qpos = find_split_pos(uri.as_str());
        Request { method, uri, headers, qpos, captures: None }
    }

    /// The request's method.
    pub fn method(&self) -> (r: Method)
        ensures
            r == self.spec_method(),
    {
        self.method
    }

    /// The raw URI: path, optionally followed by `'?'` and the query.
    pub fn uri(&self) -> (r: &str)
        ensures
            r@ == self.spec_uri(),
    {
        self.uri.as_str()
    }

    /// The path part of the URI: everything before the first `'?'`.  The
    /// result never contains a `'?'` and is the same on every call.
    pub fn path(&self) -> (r: &str)
        ensures
            r@ == spec_path(self.spec_uri()),
            forall|j: int| 0 <= j < r@.len() ==> r@[j] != '?',
    {
        proof {
            use_type_invariant(self);
            lemma_split_pos(self.uri@);
        }
        self.uri.as_str().substring_char(0, self.qpos)
    }

    /// The query part of the URI: everything after the first `'?'`, or
    /// `None` when the URI has none.  The same on every call.
    pub fn query(&self) -> (r: Option<&str>)
        ensures
            match r {
                Some(q) => spec_query(self.spec_uri()) == Some(q@),
                None => spec_query(self.spec_uri()) is None,
            },
    {
        proof {
            use_type_invariant(self);
            lemma_split_pos(self.uri@);
        }
        let n = self.uri.as_str().unicode_len();
        if self.qpos == n {
            None
        } else {
            Some(self.uri.as_str().substring_char(self.qpos + 1, n))
        }
    }

    /// The request's headers, as name/value pairs, in the order the
    /// transport handed them over.
    pub fn headers(&self) -> (r: &Vec<(String, String)>)
        ensures
            r.deep_view() == self.spec_headers(),
    {
        &self.headers
    }

    /// The capture groups of the pattern that matched this request, bound
    /// by dispatch; `None` before dispatch or when no route matched.
    pub fn captures(&self) -> (r: Option<&Vec<Option<String>>>)
        ensures
            match r {
                Some(c) => self.spec_captures() == Some(c.deep_view()),
                None => self.spec_captures() is None,
            },
    {
        self.captures.as_ref()
    }

    /// Binds the winning pattern's capture groups onto the request, before
    /// its handler runs.
    pub(crate) fn bind_captures(&mut self, caps: Vec<Option<String>>)
        ensures
            final (self).spec_method() == old(self).spec_method(),
            final (self).spec_uri() == old(self).spec_uri(),
            final (self).spec_headers() == old(self).spec_headers(),
            final (self).spec_captures() == Some(caps.deep_view()),
    {
        proof {
            use_type_invariant(&*self);
        }
        self.captures = Some(caps);
    }
}

} // verus!
