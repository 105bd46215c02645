use vstd::prelude::*;
use vstd::utf8::encode_utf8;

verus! {

/// Relies on `String::push`: appends the given char to the end of the string.
pub assume_specification[ String::push ](s: &mut String, ch: char)
    ensures
        final (s)@ == old(s)@.push(ch),
;

/// The decimal digit character for `d` in `0 ..= 9`.
pub open spec fn spec_digit(d: int) -> char {
    if d == 0 {
        '0'
    } else if d == 1 {
        '1'
    } else if d == 2 {
        '2'
    } else if d == 3 {
        '3'
    } else if d == 4 {
        '4'
    } else if d == 5 {
        '5'
    } else if d == 6 {
        '6'
    } else if d == 7 {
        '7'
    } else if d == 8 {
        '8'
    } else {
        '9'
    }
}

/// The decimal numeral of `n`, most significant digit first.
pub open spec fn spec_dec(n: int) -> Seq<char>
    decreases n,
{
    if n < 10 {
        seq![spec_digit(n)]
    } else {
        spec_dec(n / 10).push(spec_digit(n % 10))
    }
}

fn digit_char(d: u64) -> (r: char)
    requires
        d < 10,
    ensures
        r == spec_digit(d as int),
{
    if d == 0 {
        '0'
    } else if d == 1 {
        '1'
    } else if d == 2 {
        '2'
    } else if d == 3 {
        '3'
    } else if d == 4 {
        '4'
    } else if d == 5 {
        '5'
    } else if d == 6 {
        '6'
    } else if d == 7 {
        '7'
    } else if d == 8 {
        '8'
    } else {
        '9'
    }
}

fn push_dec(n: u64, out: &mut String)
    ensures
        final (out)@ == old(out)@ + spec_dec(n as int),
    decreases n,
{
    if n < 10 {
        out.push(digit_char(n));
        proof {
            assert(out@ =~= old(out)@ + spec_dec(n as int));
        }
    } else {
        push_dec(n / 10, out);
        out.push(digit_char(n % 10));
        proof {
            assert(out@ =~= old(out)@ + spec_dec(n as int));
        }
    }
}

/// The decimal numeral of `n` as a string.
fn dec_string(n: u64) -> (r: String)
    ensures
        r@ == spec_dec(n as int),
{
    let mut s = String::new();
    push_dec(n, &mut s);
    proof {
        assert(s@ =~= spec_dec(n as int));
    }
    s
}

/// First index in `hs` whose name is `n`, or `hs.len()` when none has it.
pub open spec fn spec_header_pos(hs: Seq<(Seq<char>, Seq<char>)>, n: Seq<char>) -> int
    decreases hs.len(),
{
    if hs.len() == 0 {
        0
    } else if hs[0].0 == n {
        0
    } else {
        1 + spec_header_pos(hs.drop_first(), n)
    }
}

/// The header position lies in the list, every entry before it has another
/// name, and the entry at it (if any) has name `n`.
pub proof fn lemma_header_pos(hs: Seq<(Seq<char>, Seq<char>)>, n: Seq<char>)
    ensures
        0 <= spec_header_pos(hs, n) <= hs.len(),
        forall|j: int| 0 <= j < spec_header_pos(hs, n) ==> hs[j].0 != n,
        spec_header_pos(hs, n) < hs.len() ==> hs[spec_header_pos(hs, n)].0 == n,
    decreases hs.len(),
{
    if hs.len() == 0 {
    } else if hs[0].0 == n {
    } else {
        lemma_header_pos(hs.drop_first(), n);
        assert forall|j: int| 0 <= j < spec_header_pos(hs, n) implies hs[j].0 != n by {
            if j > 0 {
                assert(hs.drop_first()[j - 1] == hs[j]);
            }
        }
        if spec_header_pos(hs, n) < hs.len() {
            assert(hs.drop_first()[spec_header_pos(hs.drop_first(), n)] == hs[spec_header_pos(
                hs,
                n,
            )]);
        }
    }
}

/// Any position with the properties of `lemma_header_pos` is the header
/// position: the first entry with a given name is unique.
pub proof fn lemma_header_pos_unique(hs: Seq<(Seq<char>, Seq<char>)>, n: Seq<char>, i: int)
    requires
        0 <= i <= hs.len(),
        forall|j: int| 0 <= j < i ==> hs[j].0 != n,
        i < hs.len() ==> hs[i].0 == n,
    ensures
        i == spec_header_pos(hs, n),
{
    lemma_header_pos(hs, n);
    let p = spec_header_pos(hs, n);
    if i < p {
        assert(hs[i].0 != n);
    } else if p < i {
        assert(hs[p].0 != n);
    }
}

/// `hs` with the header named `n` set to `v`: the first entry with that
/// name replaced, or `(n, v)` appended when no entry has it.
pub open spec fn spec_set_header(
    hs: Seq<(Seq<char>, Seq<char>)>,
    n: Seq<char>,
    v: Seq<char>,
) -> Seq<(Seq<char>, Seq<char>)> {
    let k = spec_header_pos(hs, n);
    if k < hs.len() {
        hs.update(k, (n, v))
    } else {
        hs.push((n, v))
    }
}

/// Sets the header named `name` to `value` in `headers`, replacing the
/// first entry with that name or appending a new one.
fn headers_set(headers: &mut Vec<(String, String)>, name: String, value: String)
    ensures
        final (headers).deep_view() == spec_set_header(old(headers).deep_view(), name@, value@),
{
    let ghost hv = headers.deep_view();
    let n = headers.len();
    let mut i: usize = 0;
    while i < n
        invariant
            i <= n,
            n == headers@.len(),
            headers@ == old(headers)@,
            hv == headers.deep_view(),
            forall|j: int| 0 <= j < i ==> hv[j].0 != name@,
        decreases n - i,
    {
        proof {
            assert(hv[i as int] == headers@[i as int].deep_view());
        }
        if headers[i].0 == name {
            let _ = headers.remove(i);
            headers.insert(i, (name, value));
            proof {
                lemma_header_pos_unique(hv, name@, i as int);
                assert(headers.deep_view() =~= spec_set_header(hv, name@, value@));
            }
            return ;
        }
        i += 1;
    }
    headers.push((name, value));
    proof {
        lemma_header_pos_unique(hv, name@, n as int);
        assert(headers.deep_view() =~= spec_set_header(hv, name@, value@));
    }
}

/// A response body: a byte buffer or UTF-8 text.  Either is written to
/// completion, as bytes, when the response goes out.
pub enum Body {
    Bytes(Vec<u8>),
    Text(String),
}

impl Body {
    /// The bytes this body stands for.
    pub open spec fn bytes_view(&self) -> Seq<u8> {
        match self {
            Body::Bytes(v) => v@,
            Body::Text(s) => encode_utf8(s@),
        }
    }
}

/// Something that can write itself, completely, onto a byte sink.
pub trait WriteBody {
    /// The bytes this value writes.
    spec fn body_view(&self) -> Seq<u8>;

    /// Appends exactly `body_view` to `out`, leaving the value unchanged.
    fn write_body(&mut self, out: &mut Vec<u8>)
        ensures
            final (out)@ == old(out)@ + old(self).body_view(),
            final (self).body_view() == old(self).body_view(),
    ;
}

impl WriteBody for Vec<u8> {
    open spec fn body_view(&self) -> Seq<u8> {
        self@
    }

    fn write_body(&mut self, out: &mut Vec<u8>) {
        out.extend_from_slice(self.as_slice());
    }
}

impl<'a> WriteBody for &'a [u8] {
    open spec fn body_view(&self) -> Seq<u8> {
        (*self)@
    }

    fn write_body(&mut self, out: &mut Vec<u8>) {
        out.extend_from_slice(*self);
    }
}

impl<'a> WriteBody for &'a str {
    open spec fn body_view(&self) -> Seq<u8> {
        encode_utf8((*self)@)
    }

    fn write_body(&mut self, out: &mut Vec<u8>) {
        out.extend_from_slice(self.as_bytes());
    }
}

impl WriteBody for String {
    open spec fn body_view(&self) -> Seq<u8> {
        encode_utf8(self@)
    }

    fn write_body(&mut self, out: &mut Vec<u8>) {
        out.extend_from_slice(self.as_str().as_bytes());
    }
}

impl WriteBody for Body {
    open spec fn body_view(&self) -> Seq<u8> {
        self.bytes_view()
    }

    fn write_body(&mut self, out: &mut Vec<u8>) {
        match self {
            Body::Bytes(v) => v.write_body(out),
            Body::Text(s) => s.write_body(out),
        }
    }
}

/// A response under construction: optional status (200 on write when
/// unset), a header list, and an optional deferred body.
pub struct Response {
    pub status: Option<u16>,
    pub headers: Vec<(String, String)>,
    pub body: Option<Body>,
}

/// The wire-level image of a response: what the transport writes out.
pub struct WireResponse {
    pub status: u16,
    pub headers: Vec<(String, String)>,
    pub body: Vec<u8>,
}

impl Response {
    /// An empty response: no status, no headers, no body.
    pub fn new() -> (r: Response)
        ensures
            r.status is None,
            r.headers.deep_view() == Seq::<(Seq<char>, Seq<char>)>::empty(),
            r.body is None,
    {
        let r = Response { status: None, headers: Vec::new(), body: None };
        proof {
            assert(r.headers.deep_view() =~= Seq::<(Seq<char>, Seq<char>)>::empty());
        }
        r
    }

    /// Sets the status code.
    pub fn set_status(&mut self, s: u16)
        ensures
            final (self).status == Some(s),
            final (self).headers == old(self).headers,
            final (self).body == old(self).body,
    {
        self.status = Some(s);
    }

    /// Sets the status code, chaining.
    pub fn with_status(self, s: u16) -> (r: Response)
        ensures
            r.status == Some(s),
            r.headers == self.headers,
            r.body == self.body,
    {
        let mut out = self;
        out.set_status(s);
        out
    }

    /// Sets the header named `name` to `value`, replacing the first entry
    /// with that name or appending a new one.
    pub fn set_header(&mut self, name: String, value: String)
        ensures
            final (self).status == old(self).status,
            final (self).headers.deep_view() == spec_set_header(
                old(self).headers.deep_view(),
                name@,
                value@,
            ),
            final (self).body == old(self).body,
    {
        headers_set(&mut self.headers, name, value);
    }

    /// Sets a header, chaining.
    pub fn with_header(self, name: String, value: String) -> (r: Response)
        ensures
            r.status == self.status,
            r.headers.deep_view() == spec_set_header(self.headers.deep_view(), name@, value@),
            r.body == self.body,
    {
        let mut out = self;
        out.set_header(name, value);
        out
    }

    /// Sets the body to the given bytes and the `Content-Length` header to
    /// their count.
    pub fn set_body(&mut self, body: Vec<u8>)
        ensures
            final (self).status == old(self).status,
            final (self).headers.deep_view() == spec_set_header(
                old(self).headers.deep_view(),
                "Content-Length"@,
                spec_dec(body@.len() as int),
            ),
            final (self).body == Some(Body::Bytes(body)),
    {
        let len_str = dec_string(body.len() as u64);
        self.set_header("Content-Length".to_owned(), len_str);
        self.body = Some(Body::Bytes(body));
    }

    /// Sets the body (and `Content-Length`), chaining.
    pub fn with_body(self, body: Vec<u8>) -> (r: Response)
        ensures
            r.status == self.status,
            r.headers.deep_view() == spec_set_header(
                self.headers.deep_view(),
                "Content-Length"@,
                spec_dec(body@.len() as int),
            ),
            r.body == Some(Body::Bytes(body)),
    {
        let mut out = self;
        out.set_body(body);
        out
    }

    /// Produces the wire-level image: the status (200 when unset), the
    /// headers, and the body written to completion — or, with no body set,
    /// a zero-length body under a `Content-Length: 0` header.
    pub fn write_back(self) -> (w: WireResponse)
        ensures
            w.status == match self.status {
                Some(s) => s,
                None => 200u16,
            },
            match self.body {
                Some(b) => w.headers.deep_view() == self.headers.deep_view() && w.body@
                    == b.bytes_view(),
                None => w.headers.deep_view() == spec_set_header(
                    self.headers.deep_view(),
                    "Content-Length"@,
                    "0"@,
                ) && w.body@.len() == 0,
            },
    {
        let Response { status, mut headers, body } = self;
        let st = match status {
            Some(s) => s,
            None => 200,
        };
        match body {
            Some(mut b) => {
                let mut out: Vec<u8> = Vec::new();
                b.write_body(&mut out);
                proof {
                    assert(out@ =~= b.bytes_view());
                }
                WireResponse { status: st, headers, body: out }
            },
            None => {
                headers_set(&mut headers, "Content-Length".to_owned(), "0".to_owned());
                WireResponse { status: st, headers, body: Vec::new() }
            },
        }
    }
}

} // verus!
