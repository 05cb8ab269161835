//! Custom scheme handling: requests, responses and the executor that settles
//! a request exactly once.
//!
//! The engine hands request headers over as one flat block of
//! NUL-terminated `name:value` entries; `parse_header_block` recovers the
//! pairs from it.

use vstd::prelude::*;

use crate::stash::Stash;

verus! {

/// Error kinds a scheme request can be rejected with.
#[derive(Debug, Clone, Copy, PartialEq, Eq, Structural)]
pub enum SchemeError {
    NotFound,
    Invalid,
    Aborted,
    Denied,
    Failed,
}

/// A response to a scheme request: body, MIME type, status and headers.  A
/// fresh response carries status 200 and no extra headers.
pub struct Response {
    /// The response body.
    pub data: Vec<u8>,
    /// The MIME type of the body.
    pub mime: String,
    /// The HTTP status code.
    pub status: i32,
    /// Extra headers, in the order they were added.
    pub headers: Vec<(String, String)>,
}

impl Response {
    /// Creates a new response from the given stash and MIME type; the stash
    /// is copied and may be dropped right after.
    pub fn new(data: &Stash, mime: String) -> (r: Response)
        ensures
            r.data@ == data.bytes@,
            r.mime == mime,
            r.status == 200,
            r.headers@ == Seq::<(String, String)>::empty(),
    {
        Response {
            data: vstd::slice::slice_to_vec(data.data()),
            mime,
            status: 200,
            headers: Vec::new(),
        }
    }

    /// Sets the response status code.
    pub fn set_status(&mut self, status: i32)
        ensures
            final(self).status == status,
            final(self).data == old(self).data,
            final(self).mime == old(self).mime,
            final(self).headers == old(self).headers,
    {
        self.status = status;
    }

    /// Adds a header to the response.
    pub fn set_header(&mut self, name: String, value: String)
        ensures
            final(self).headers@ == old(self).headers@.push((name, value)),
            final(self).data == old(self).data,
            final(self).mime == old(self).mime,
            final(self).status == old(self).status,
    {
        self.headers.push((name, value));
    }
}

/// How a scheme request was settled.
pub enum SchemeOutcome {
    /// Resolved with a response.
    Resolved(Response),
    /// Rejected with an error.
    Rejected(SchemeError),
}

/// The executor used to settle one scheme request.  Consuming it yields the
/// outcome the engine receives; because settling takes the executor by
/// value, a request is resolved or rejected at most once.
pub struct Executor {
    /// The request this executor settles, by the id the embedding gave it.
    pub request_id: u64,
}

impl Executor {
    /// Wraps the executor of the request with the given id.
    pub fn new(request_id: u64) -> (e: Executor)
        ensures
            e.request_id == request_id,
    {
        Executor { request_id }
    }

    /// Resolves the request with the given response.
    pub fn resolve(self, res: Response) -> (out: (u64, SchemeOutcome))
        ensures
            out.0 == self.request_id,
            out.1 == SchemeOutcome::Resolved(res),
    {
        (self.request_id, SchemeOutcome::Resolved(res))
    }

    /// Rejects the request with the given error.
    pub fn reject(self, ex: SchemeError) -> (out: (u64, SchemeOutcome))
        ensures
            out.0 == self.request_id,
            out.1 == SchemeOutcome::Rejected(ex),
    {
        (self.request_id, SchemeOutcome::Rejected(ex))
    }
}

/// The schemes registered with the engine.  Registration must happen before
/// the application is created for it to take effect.
pub struct SchemeList {
    /// The registered scheme names, in registration order.
    pub names: Vec<String>,
}

impl SchemeList {
    /// No schemes registered yet.
    pub fn new() -> (r: SchemeList)
        ensures
            r.names@ == Seq::<String>::empty(),
    {
        SchemeList { names: Vec::new() }
    }
}

/// Registers a custom scheme.
pub fn register_scheme(schemes: &mut SchemeList, name: String)
    ensures
        final(schemes).names@ == old(schemes).names@.push(name),
{
    schemes.names.push(name);
}

/// The index of the first occurrence of `b` in `s`, or `s.len()` when `b`
/// does not occur.
pub open spec fn find_byte(s: Seq<u8>, b: u8) -> int
    decreases s.len(),
{
    if s.len() == 0 {
        0
    } else if s[0] == b {
        0
    } else {
        1 + find_byte(s.subrange(1, s.len() as int), b)
    }
}

/// `find_byte` points at the first occurrence: everything before it differs
/// from `b`, and it lies within the sequence exactly when `b` occurs.
pub proof fn lemma_find_byte(s: Seq<u8>, b: u8)
    ensures
        0 <= find_byte(s, b) <= s.len(),
        forall|k: int| 0 <= k < find_byte(s, b) ==> s[k] != b,
        find_byte(s, b) < s.len() ==> s[find_byte(s, b)] == b,
    decreases s.len(),
{
    if s.len() > 0 && s[0] != b {
        let s1 = s.subrange(1, s.len() as int);
        lemma_find_byte(s1, b);
        assert forall|k: int| 0 <= k < find_byte(s, b) implies s[k] != b by {
            if k > 0 {
                assert(s1[k - 1] == s[k]);
            }
        }
    }
}

/// `find_byte` returns the position one has checked by hand: everything
/// before `k` differs from `b`, and either `k` is the end or `s[k] == b`.
pub proof fn lemma_find_byte_is(s: Seq<u8>, b: u8, k: int)
    requires
        0 <= k <= s.len(),
        forall|m: int| 0 <= m < k ==> s[m] != b,
        k < s.len() ==> s[k] == b,
    ensures
        find_byte(s, b) == k,
    decreases s.len(),
{
    if s.len() > 0 && s[0] != b {
        let s1 = s.subrange(1, s.len() as int);
        assert forall|m: int| 0 <= m < k - 1 implies s1[m] != b by {
            assert(s1[m] == s[m + 1]);
        }
        lemma_find_byte_is(s1, b, k - 1);
    }
}

/// One header entry split at its first colon; entries without a colon carry
/// no pair.
pub open spec fn split_pair(piece: Seq<u8>) -> Option<(Seq<u8>, Seq<u8>)> {
    let c = find_byte(piece, 58);
    if c == piece.len() {
        None
    } else {
        Some((piece.subrange(0, c), piece.subrange(c + 1, piece.len() as int)))
    }
}

/// The header pairs encoded in a flat block of NUL-separated entries: each
/// entry containing a colon contributes the pair of what stands before and
/// after its first colon, in entry order; entries without a colon are
/// skipped.
pub open spec fn header_pairs(s: Seq<u8>) -> Seq<(Seq<u8>, Seq<u8>)>
    decreases s.len(),
{
    let k = find_byte(s, 0);
    if !(0 <= k <= s.len()) {
        Seq::empty()
    } else {
        let head = match split_pair(s.subrange(0, k)) {
            Some(p) => seq![p],
            None => Seq::<(Seq<u8>, Seq<u8>)>::empty(),
        };
        if k == s.len() {
            head
        } else {
            head + header_pairs(s.subrange(k + 1, s.len() as int))
        }
    }
}

/// Recovers the header pairs from a flat block of NUL-separated
/// `name:value` entries, exactly as `header_pairs` describes them.
pub fn parse_header_block(buf: &Vec<u8>) -> (r: Vec<(Vec<u8>, Vec<u8>)>)
    ensures
        r@.len() == header_pairs(buf@).len(),
        forall|k: int|
            0 <= k < r@.len() ==> ((#[trigger] r@[k]).0@, r@[k].1@) == header_pairs(buf@)[k],
{
    proof {
        assert(buf@.subrange(0, buf@.len() as int) =~= buf@);
    }
    parse_headers_from(buf, 0)
}

/// Parses the entries of `buf` from position `from` on.
#[verifier::loop_isolation(false)]
fn parse_headers_from(buf: &Vec<u8>, from: usize) -> (r: Vec<(Vec<u8>, Vec<u8>)>)
    requires
        from <= buf@.len(),
    ensures
        r@.len() == header_pairs(buf@.subrange(from as int, buf@.len() as int)).len(),
        forall|k: int|
            0 <= k < r@.len() ==> ((#[trigger] r@[k]).0@, r@[k].1@) == header_pairs(
                buf@.subrange(from as int, buf@.len() as int),
            )[k],
    decreases buf@.len() - from,
{
    let ghost s = buf@.subrange(from as int, buf@.len() as int);
    let n = buf.len();

    // Find the end of the current entry: the first NUL at or after `from`.
    let mut j = from;
    while j < n && buf[j] != 0u8
        invariant
            from <= j <= n,
            forall|m: int| from <= m < j ==> buf@[m] != 0u8,
        decreases n - j,
    {
        j = j + 1;
    }
    proof {
        assert forall|m: int| 0 <= m < j - from implies s[m] != 0u8 by {
            assert(s[m] == buf@[from + m]);
        }
        if j < n {
            assert(s[j - from] == buf@[j as int]);
        }
        lemma_find_byte_is(s, 0u8, j - from);
    }

    // Find the first colon inside the entry.
    let mut c = from;
    while c < j && buf[c] != 58u8
        invariant
            from <= c <= j,
            forall|m: int| from <= m < c ==> buf@[m] != 58u8,
        decreases j - c,
    {
        c = c + 1;
    }
    let ghost piece = s.subrange(0, j - from);
    proof {
        assert forall|m: int| 0 <= m < c - from implies piece[m] != 58u8 by {
            assert(piece[m] == buf@[from + m]);
        }
        if c < j {
            assert(piece[c - from] == buf@[c as int]);
        }
        lemma_find_byte_is(piece, 58u8, c - from);
    }

    let mut r: Vec<(Vec<u8>, Vec<u8>)> = Vec::new();
    if c < j {
        let name = vstd::slice::slice_to_vec(vstd::slice::slice_subrange(buf.as_slice(), from, c));
        let value = vstd::slice::slice_to_vec(
            vstd::slice::slice_subrange(buf.as_slice(), c + 1, j),
        );
        proof {
            assert(name@ =~= piece.subrange(0, c - from));
            assert(value@ =~= piece.subrange(c - from + 1, piece.len() as int));
        }
        r.push((name, value));
    }

    if j < n {
        let mut rest = parse_headers_from(buf, j + 1);
        let ghost s_rest = buf@.subrange(j + 1, buf@.len() as int);
        proof {
            assert(s.subrange(j - from + 1, s.len() as int) =~= s_rest);
        }
        r.append(&mut rest);
    }
    r
}

/// A request to a custom scheme, with its payload held as plain values.
pub struct Request {
    /// The request URL.
    pub url: String,
    /// The request method.
    pub method: String,
    /// The request headers.
    pub headers: Vec<(String, String)>,
    /// The request body.
    pub content: Vec<u8>,
}

impl Request {
    /// Wraps one scheme request as the engine reported it.
    pub fn new(url: String, method: String, headers: Vec<(String, String)>, content: Vec<u8>) -> (r:
        Request)
        ensures
            r.url == url,
            r.method == method,
            r.headers == headers,
            r.content == content,
    {
        Request { url, method, headers, content }
    }

    /// Gets the request URL.
    pub fn url(&self) -> (u: &String)
        ensures
            u == &self.url,
    {
        &self.url
    }

    /// Gets the request method.
    pub fn method(&self) -> (m: &String)
        ensures
            m == &self.method,
    {
        &self.method
    }

    /// Gets the request headers.
    pub fn headers(&self) -> (h: &Vec<(String, String)>)
        ensures
            h == &self.headers,
    {
        &self.headers
    }

    /// Gets a copy of the request content.
    pub fn content(&self) -> (s: Stash)
        ensures
            s.bytes@ == self.content@,
    {
        Stash::copy(self.content.as_slice())
    }
}

} // verus!
