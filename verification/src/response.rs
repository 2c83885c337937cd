//! The response: immutable metadata captured at receipt time, paired with
//! the body state machine.
//!
//! Metadata accessors never touch the body and stay available whatever its
//! state. Body accessors follow the lifecycle contracts of [`crate::body`]:
//! buffering reads cache and replay, streaming consumes, closing is
//! idempotent, and a decode failure leaves the buffered body readable.

use vstd::prelude::*;
use vstd::utf8::{decode_utf8, valid_utf8};

use crate::body::{fetched_view, read_result_view, spec_close, spec_read, spec_stream, Body};
use crate::cookies::Cookie;
use crate::error::Error;
use crate::http::{SocketAddr, StatusCode, Version};
use crate::outside::{charset_of, decoded_of, json_wf};
use crate::config::RedirectPolicy;
use crate::headers::entries_model;
use crate::redirect::{follow_redirects, lemma_first_final_bound, spec_first_final, RedirectHop};

verus! {

/// One entry of the redirect history: a redirect response that was
/// followed on the way to the final response.
#[derive(Debug)]
pub struct History {
    /// The status code of the redirect response.
    pub status: StatusCode,
    /// The URL that produced the redirect response.
    pub url: String,
    /// The URL visited before this one.
    pub previous: String,
    /// The headers of the redirect response.
    pub headers: Vec<(String, Vec<u8>)>,
}

impl History {
    /// The status code of the redirect response.
    pub fn status(&self) -> (r: StatusCode)
        ensures
            r == self.status,
    {
        self.status
    }

    /// The URL that produced the redirect response.
    pub fn url(&self) -> (r: &String)
        ensures
            r@ == self.url@,
    {
        &self.url
    }

    /// The URL visited before this one.
    pub fn previous(&self) -> (r: &String)
        ensures
            r@ == self.previous@,
    {
        &self.previous
    }
}

/// Walks a fetched redirect chain under a policy and records the redirect
/// history: one entry per followed hop, in the order followed.
///
/// The recorded history never exceeds the effective cap — with a cap of
/// `n` at most `n` entries are ever recorded, and with redirects disabled
/// none. Entry `j` describes hop `j`: its status, its URL, the URL visited
/// before it (`origin` for the first entry), and its headers. The walk
/// outcome itself follows [`follow_redirects`]: the index of the response
/// to hand back, or the redirect-limit error when the chain outruns the
/// cap. A response's `history` field is meant to be filled from here, so
/// that what a caller sees is exactly what the policy allowed.
pub fn walk_and_record(
    policy: RedirectPolicy,
    origin: &String,
    hops: &Vec<RedirectHop>,
) -> (r: (Result<usize, Error>, Vec<History>))
    requires
        hops@.len() > 0,
        spec_first_final(hops@) < hops@.len() || (policy matches RedirectPolicy::Limited(n)
            && (n as int) < hops@.len()) || policy is NoFollow,
    ensures
        ({
            let k = spec_first_final(hops@);
            match policy {
                RedirectPolicy::NoFollow => r.0 == Ok::<usize, Error>(0usize) && r.1@.len() == 0,
                RedirectPolicy::Limited(n) => (if k <= n {
                    r.0 == Ok::<usize, Error>(k as usize) && r.1@.len() == k
                } else {
                    r.0 == Err::<usize, Error>(Error::RedirectLimit) && r.1@.len() == n
                }),
                RedirectPolicy::Unlimited => r.0 == Ok::<usize, Error>(k as usize) && r.1@.len()
                    == k,
            }
        }),
        (policy matches RedirectPolicy::Limited(n) ==> r.1@.len() <= n),
        policy is NoFollow ==> r.1@.len() == 0,
        spec_history_wf(r.1@, policy),
        forall|j: int|
            0 <= j < r.1@.len() ==> {
                &&& (#[trigger] r.1@[j]).status == hops@[j].status
                &&& r.1@[j].url@ == hops@[j].url@
                &&& r.1@[j].previous@ == (if j == 0 {
                    origin@
                } else {
                    hops@[j - 1].url@
                })
                &&& entries_model(r.1@[j].headers@) == entries_model(hops@[j].headers@)
            },
{
    let (res, followed) = follow_redirects(policy, hops);
    proof {
        lemma_first_final_bound(hops@);
    }
    let m = followed.len();
    let mut history: Vec<History> = Vec::new();
    let mut j: usize = 0;
    while j < m
        invariant
            j <= m,
            m == followed@.len(),
            m <= hops@.len(),
            forall|t: int| 0 <= t < m ==> #[trigger] followed@[t] == t,
            history@.len() == j,
            forall|t: int|
                0 <= t < j ==> {
                    &&& (#[trigger] history@[t]).status == hops@[t].status
                    &&& history@[t].url@ == hops@[t].url@
                    &&& history@[t].previous@ == (if t == 0 {
                        origin@
                    } else {
                        hops@[t - 1].url@
                    })
                    &&& entries_model(history@[t].headers@) == entries_model(hops@[t].headers@)
                },
        decreases m - j,
    {
        let previous: String = if j == 0 {
            origin.clone()
        } else {
            hops[j - 1].url.clone()
        };
        let entry = History {
            status: hops[j].status,
            url: hops[j].url.clone(),
            previous,
            headers: crate::util::copy_header_list(&hops[j].headers),
        };
        history.push(entry);
        j = j + 1;
    }
    (res, history)
}

/// The value of the first header with this name, scanning in order.
pub open spec fn spec_header_first(h: Seq<(String, Vec<u8>)>, name: Seq<char>) -> Option<Seq<u8>>
    decreases h.len(),
{
    if h.len() == 0 {
        None
    } else if h[0].0@ == name {
        Some(h[0].1@)
    } else {
        spec_header_first(h.drop_first(), name)
    }
}

/// The text encoding a response announces: the charset parameter of its
/// `content-type` header when one is present, well-formed and carries one;
/// UTF-8 otherwise.
pub open spec fn spec_encoding(h: Seq<(String, Vec<u8>)>) -> Seq<char> {
    match spec_header_first(h, "content-type"@) {
        Some(v) => if valid_utf8(v) {
            match charset_of(decode_utf8(v)) {
                Some(c) => c,
                None => "utf-8"@,
            }
        } else {
            "utf-8"@
        },
        None => "utf-8"@,
    }
}

/// Whether a recorded redirect history is well-formed under the policy
/// the exchange ran under: empty with redirects disabled, never longer
/// than a cap, and chained — each entry's previous URL is the URL of the
/// entry before it. [`walk_and_record`] produces exactly such histories.
pub open spec fn spec_history_wf(history: Seq<History>, policy: RedirectPolicy) -> bool {
    &&& match policy {
        RedirectPolicy::NoFollow => history.len() == 0,
        RedirectPolicy::Limited(n) => history.len() <= n,
        RedirectPolicy::Unlimited => true,
    }
    &&& forall|j: int|
        1 <= j < history.len() ==> (#[trigger] history[j]).previous@ == history[j - 1].url@
}

/// A response: metadata and a body.
#[derive(Debug)]
pub struct Response {
    /// The status code.
    pub status: StatusCode,
    /// The HTTP version the exchange used.
    pub version: Version,
    /// The response headers, names in canonical lowercase form.
    pub headers: Vec<(String, Vec<u8>)>,
    /// The announced content length, `None` when none was announced.
    pub content_length: Option<u64>,
    /// The final URL of the response.
    pub url: String,
    /// The remote socket address.
    pub remote_addr: Option<SocketAddr>,
    /// The local socket address.
    pub local_addr: Option<SocketAddr>,
    /// The TLS peer certificate in DER form, when the configuration asked
    /// for TLS info and the exchange ran over TLS.
    pub peer_certificate: Option<Vec<u8>>,
    /// The redirect policy the exchange ran under.
    pub redirect: RedirectPolicy,
    /// The redirect hops followed on the way here, in order, as recorded
    /// by [`walk_and_record`] — well-formed under `redirect` by
    /// construction ([`Response::new`] requires it).
    pub history: Vec<History>,
    /// The body state machine.
    pub body: Body,
}

/// The metadata fields of a response, everything but the body. Body
/// accessors leave them untouched.
pub open spec fn spec_same_metadata(a: Response, b: Response) -> bool {
    &&& a.status == b.status
    &&& a.version == b.version
    &&& a.headers == b.headers
    &&& a.content_length == b.content_length
    &&& a.url == b.url
    &&& a.remote_addr == b.remote_addr
    &&& a.local_addr == b.local_addr
    &&& a.peer_certificate == b.peer_certificate
    &&& a.redirect == b.redirect
    &&& a.history == b.history
}

impl Response {
    /// Whether the recorded history is well-formed under the policy the
    /// exchange ran under; established by [`Response::new`] and preserved
    /// by every accessor, which leave the metadata untouched.
    pub open spec fn history_wf(&self) -> bool {
        spec_history_wf(self.history@, self.redirect)
    }

    /// A fresh response over an untouched body. The history must be
    /// well-formed under the policy the exchange ran under, as
    /// [`walk_and_record`] records it.
    pub fn new(
        status: StatusCode,
        version: Version,
        headers: Vec<(String, Vec<u8>)>,
        content_length: Option<u64>,
        url: String,
        remote_addr: Option<SocketAddr>,
        local_addr: Option<SocketAddr>,
        peer_certificate: Option<Vec<u8>>,
        redirect: RedirectPolicy,
        history: Vec<History>,
    ) -> (r: Response)
        requires
            spec_history_wf(history@, redirect),
        ensures
            r.status == status,
            r.version == version,
            r.headers == headers,
            r.content_length == content_length,
            r.url == url,
            r.remote_addr == remote_addr,
            r.local_addr == local_addr,
            r.peer_certificate == peer_certificate,
            r.redirect == redirect,
            r.history == history,
            r.history_wf(),
            r.body@ is Streamable,
    {
        Response {
            status,
            version,
            headers,
            content_length,
            url,
            remote_addr,
            local_addr,
            peer_certificate,
            redirect,
            history,
            body: Body::new_streamable(),
        }
    }

    /// The TLS peer certificate, when one was captured.
    pub fn peer_certificate(&self) -> (r: Option<&Vec<u8>>)
        ensures
            match (r, self.peer_certificate) {
                (Some(a), Some(b)) => a@ == b@,
                (None, None) => true,
                _ => false,
            },
    {
        self.peer_certificate.as_ref()
    }

    /// The final URL of the response.
    pub fn url(&self) -> (r: &String)
        ensures
            r@ == self.url@,
    {
        &self.url
    }

    /// The redirect hops followed on the way here, in order.
    pub fn history(&self) -> (r: &Vec<History>)
        ensures
            r == &self.history,
    {
        &self.history
    }

    /// Whether a buffering read of this response must first collect the
    /// raw source.
    pub fn needs_collect(&self) -> (r: bool)
        ensures
            r == (self.body@ is Streamable),
    {
        self.body.needs_collect()
    }

    /// The buffered body bytes. `fetched` is the outcome of collecting the
    /// raw source, handed in by the transport edge exactly when the body
    /// is still streamable; see [`Body::read_buffered`]. Reading twice
    /// returns the same bytes.
    pub fn bytes(&mut self, fetched: Option<Result<Vec<u8>, Error>>) -> (r: Result<Vec<u8>, Error>)
        requires
            (old(self).body@ is Streamable) <==> (fetched is Some),
        ensures
            spec_same_metadata(*final(self), *old(self)),
            final(self).body@ == spec_read(old(self).body@, fetched_view(fetched)).0,
            read_result_view(r) == spec_read(old(self).body@, fetched_view(fetched)).1,
    {
        self.body.read_buffered(fetched)
    }

    /// The body decoded as text, under the encoding the response
    /// announces: the charset of the `content-type` header, UTF-8 when
    /// none is given. UTF-8 is decoded strictly against the UTF-8
    /// specification; any other charset decodes through the WHATWG
    /// machinery. The buffering read follows [`Body::read_buffered`]; a
    /// decode failure surfaces as the decode error — never replacement
    /// characters — and leaves the buffered body readable, so raw bytes
    /// may still be served afterwards.
    pub fn text(&mut self, fetched: Option<Result<Vec<u8>, Error>>) -> (r: Result<String, Error>)
        requires
            (old(self).body@ is Streamable) <==> (fetched is Some),
        ensures
            spec_same_metadata(*final(self), *old(self)),
            final(self).body@ == spec_read(old(self).body@, fetched_view(fetched)).0,
            match spec_read(old(self).body@, fetched_view(fetched)).1 {
                Ok(b) => (if spec_encoding(old(self).headers@) == "utf-8"@ {
                    if valid_utf8(b) {
                        (r matches Ok(s) && s@ == decode_utf8(b))
                    } else {
                        r == Result::<String, Error>::Err(Error::Decode)
                    }
                } else {
                    match decoded_of(spec_encoding(old(self).headers@), b) {
                        Some(t) => (r matches Ok(s) && s@ == t),
                        None => r == Result::<String, Error>::Err(Error::Decode),
                    }
                }),
                Err(e) => r == Result::<String, Error>::Err(e),
            },
    {
        let enc = self.encoding();
        let b = match self.body.read_buffered(fetched) {
            Ok(b) => b,
            Err(e) => {
                return Err(e);
            },
        };
        if crate::util::str_eq(enc.as_str(), "utf-8") {
            match crate::outside::utf8_to_str(b.as_slice()) {
                Some(s) => Ok(s.to_owned()),
                None => Err(Error::Decode),
            }
        } else {
            match crate::outside::decode_with_charset(enc.as_str(), b.as_slice()) {
                Some(s) => Ok(s),
                None => Err(Error::Decode),
            }
        }
    }

    /// The body decoded as text under an explicitly given charset,
    /// overriding the announced one; the decode follows the WHATWG
    /// machinery for that label. An unknown label or malformed bytes
    /// surface as the decode error and leave the buffered body readable.
    pub fn text_with_charset(
        &mut self,
        fetched: Option<Result<Vec<u8>, Error>>,
        encoding: &str,
    ) -> (r: Result<String, Error>)
        requires
            (old(self).body@ is Streamable) <==> (fetched is Some),
        ensures
            spec_same_metadata(*final(self), *old(self)),
            final(self).body@ == spec_read(old(self).body@, fetched_view(fetched)).0,
            match spec_read(old(self).body@, fetched_view(fetched)).1 {
                Ok(b) => match decoded_of(encoding@, b) {
                    Some(t) => (r matches Ok(s) && s@ == t),
                    None => r == Result::<String, Error>::Err(Error::Decode),
                },
                Err(e) => r == Result::<String, Error>::Err(e),
            },
    {
        let b = match self.body.read_buffered(fetched) {
            Ok(b) => b,
            Err(e) => {
                return Err(e);
            },
        };
        match crate::outside::decode_with_charset(encoding, b.as_slice()) {
            Some(s) => Ok(s),
            None => Err(Error::Decode),
        }
    }

    /// The body as a JSON document string: the buffered bytes, checked to
    /// be one well-formed JSON document and decoded as UTF-8. Bytes that
    /// are not well-formed JSON surface as the decode error and leave the
    /// buffered body readable.
    pub fn json_str(&mut self, fetched: Option<Result<Vec<u8>, Error>>) -> (r: Result<
        String,
        Error,
    >)
        requires
            (old(self).body@ is Streamable) <==> (fetched is Some),
        ensures
            spec_same_metadata(*final(self), *old(self)),
            final(self).body@ == spec_read(old(self).body@, fetched_view(fetched)).0,
            match spec_read(old(self).body@, fetched_view(fetched)).1 {
                Ok(b) => if json_wf(b) && valid_utf8(b) {
                    (r matches Ok(s) && s@ == decode_utf8(b) && json_wf(b))
                } else {
                    r == Result::<String, Error>::Err(Error::Decode)
                },
                Err(e) => r == Result::<String, Error>::Err(e),
            },
    {
        let b = match self.body.read_buffered(fetched) {
            Ok(b) => b,
            Err(e) => {
                return Err(e);
            },
        };
        if !crate::outside::json_check(b.as_slice()) {
            return Err(Error::Decode);
        }
        match crate::outside::utf8_to_str(b.as_slice()) {
            Some(s) => Ok(s.to_owned()),
            None => Err(Error::Decode),
        }
    }

    /// Takes the body for streaming: allowed exactly once, only before any
    /// buffering read, and leaves the body consumed; see [`Body::stream`].
    /// On success the transport edge binds the raw source to a chunk
    /// queue.
    pub fn stream(&mut self) -> (r: Result<(), Error>)
        ensures
            spec_same_metadata(*final(self), *old(self)),
            final(self).body@ == spec_stream(old(self).body@).0,
            r == spec_stream(old(self).body@).1,
    {
        self.body.stream()
    }

    /// Closes the body, discarding anything raw or buffered. Never errors,
    /// however often it is called.
    pub fn close(&mut self)
        ensures
            spec_same_metadata(*final(self), *old(self)),
            final(self).body@ == spec_close(old(self).body@),
    {
        self.body.close()
    }

    /// The cookies announced by the `Set-Cookie` headers, in order.
    pub fn cookies(&self) -> (r: Vec<Cookie>)
        ensures
            r@.map_values(|c: Cookie| (c.name@, c.value@)) == crate::cookies::spec_extracted_cookies(
                self.headers@,
            ),
    {
        crate::cookies::extract_cookies(&self.headers)
    }

    /// The text encoding of the body: the charset of the `content-type`
    /// header, or UTF-8 when none is announced.
    pub fn encoding(&self) -> (r: String)
        ensures
            r@ == spec_encoding(self.headers@),
    {
        let mut i: usize = 0;
        while i < self.headers.len()
            invariant
                i <= self.headers@.len(),
                forall|j: int|
                    0 <= j < i ==> (#[trigger] self.headers@[j]).0@ != "content-type"@,
            decreases self.headers@.len() - i,
        {
            if crate::util::str_eq(self.headers[i].0.as_str(), "content-type") {
                proof {
                    lemma_header_first_at(self.headers@, "content-type"@, i as int);
                }
                let v = &self.headers[i].1;
                match crate::outside::utf8_to_str(v.as_slice()) {
                    Some(ct) => {
                        match crate::outside::content_type_charset(ct) {
                            Some(c) => {
                                return c;
                            },
                            None => {
                                return "utf-8".to_owned();
                            },
                        }
                    },
                    None => {
                        return "utf-8".to_owned();
                    },
                }
            }
            i = i + 1;
        }
        proof {
            lemma_header_first_none(self.headers@, "content-type"@);
        }
        "utf-8".to_owned()
    }
}

/// When no header before `i` carries the name and `h[i]` does, the first
/// match is `h[i]`.
proof fn lemma_header_first_at(h: Seq<(String, Vec<u8>)>, name: Seq<char>, i: int)
    requires
        0 <= i < h.len(),
        forall|j: int| 0 <= j < i ==> (#[trigger] h[j]).0@ != name,
        h[i].0@ == name,
    ensures
        spec_header_first(h, name) == Some(h[i].1@),
    decreases i,
{
    if i == 0 {
    } else {
        assert forall|j: int| 0 <= j < i - 1 implies (#[trigger] h.drop_first()[j]).0@ != name by {
            assert(h.drop_first()[j] == h[j + 1]);
        }
        assert(h.drop_first()[i - 1] == h[i]);
        lemma_header_first_at(h.drop_first(), name, i - 1);
    }
}

/// When no header carries the name, there is no first match.
proof fn lemma_header_first_none(h: Seq<(String, Vec<u8>)>, name: Seq<char>)
    requires
        forall|j: int| 0 <= j < h.len() ==> (#[trigger] h[j]).0@ != name,
    ensures
        spec_header_first(h, name) is None,
    decreases h.len(),
{
    if h.len() > 0 {
        assert forall|j: int|
            0 <= j < h.drop_first().len() implies (#[trigger] h.drop_first()[j]).0@ != name by {
            assert(h.drop_first()[j] == h[j + 1]);
        }
        lemma_header_first_none(h.drop_first(), name);
    }
}

} // verus!
