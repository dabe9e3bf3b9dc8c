//! The request description and its one-shot builder.
//!
//! A request is a URL, a verb, a header map and a body. The headers are held
//! as a vector of pairs with pairwise-distinct names; their meaning is the
//! map from name to value, and setting a header is exactly an insertion into
//! that map — later writes to the same name win, insertion order carries no
//! meaning.
//!
//! The builder binds a request to the client that will run it and is
//! consumed by its single send: the send hands back the client and the
//! finished request for scheduling, and every later setter or send on the
//! same builder fails with `UseAfterSendError` instead of quietly operating
//! on an empty request.

use vstd::prelude::*;
use vstd::map::*;
use vstd::pervasive::VecAdditionalExecFns;
use crate::errors::HttpError;
use crate::verb::{Verb, parse_verb, parse_verb_spec};

verus! {

/// Header names are pairwise distinct.
pub open spec fn headers_wf(h: Seq<(String, String)>) -> bool {
    forall|i: int, j: int| 0 <= i < j < h.len() ==> h[i].0@ != h[j].0@
}

/// Some entry carries the name `k`.
pub open spec fn headers_contain(h: Seq<(String, String)>, k: Seq<char>) -> bool {
    exists|i: int| 0 <= i < h.len() && h[i].0@ == k
}

/// What the header entries mean: the map from name to value.
pub open spec fn headers_map(h: Seq<(String, String)>) -> Map<Seq<char>, Seq<char>> {
    Map::new(
        |k: Seq<char>| headers_contain(h, k),
        |k: Seq<char>| h[choose|i: int| 0 <= i < h.len() && h[i].0@ == k].1@,
    )
}

/// With distinct names, the entry at `i` decides what the map says of its
/// name.
pub proof fn lemma_headers_map_at(h: Seq<(String, String)>, i: int)
    requires
        headers_wf(h),
        0 <= i < h.len(),
    ensures
        headers_map(h).dom().contains(h[i].0@),
        headers_map(h)[h[i].0@] == h[i].1@,
{
    let k = h[i].0@;
    assert(headers_contain(h, k));
    let j = choose|j: int| 0 <= j < h.len() && h[j].0@ == k;
    if j < i {
        assert(h[j].0@ != h[i].0@);
    } else if i < j {
        assert(h[i].0@ != h[j].0@);
    }
}

/// A full request description: everything the worker needs for one call.
pub struct RequestSpec {
    pub url: String,
    pub verb: Verb,
    pub headers: Vec<(String, String)>,
    pub body: Vec<u8>,
}

impl RequestSpec {
    /// The header entries carry pairwise-distinct names.
    pub open spec fn wf(&self) -> bool {
        headers_wf(self.headers@)
    }

    /// The request's headers as the map they mean.
    pub open spec fn hmap(&self) -> Map<Seq<char>, Seq<char>> {
        headers_map(self.headers@)
    }

    /// A fresh request on a URL: verb `Get`, no headers, empty body.
    pub fn new(url: String) -> (s: Self)
        ensures
            s.wf(),
            s.url@ == url@,
            s.verb == Verb::Get,
            s.hmap() == Map::<Seq<char>, Seq<char>>::empty(),
            s.body@ == Seq::<u8>::empty(),
    {
        let s = RequestSpec { url, verb: Verb::Get, headers: Vec::new(), body: Vec::new() };
        proof {
            assert_maps_equal!(headers_map(s.headers@), Map::<Seq<char>, Seq<char>>::empty(),
                k => {
                    assert(!headers_contain(s.headers@, k));
                }
            );
        }
        s
    }

    /// Upserts a header: afterwards the headers mean exactly the old map
    /// with `name` bound to `value` — a later write to the same name wins.
    pub fn upsert_header(&mut self, name: String, value: String)
        requires
            old(self).wf(),
        ensures
            final(self).wf(),
            final(self).hmap() == old(self).hmap().insert(name@, value@),
            final(self).url == old(self).url,
            final(self).verb == old(self).verb,
            final(self).body == old(self).body,
    {
        let ghost old_h = old(self).headers@;
        let mut i: usize = 0;
        while i < self.headers.len()
            invariant
                *self == *old(self),
                old_h == old(self).headers@,
                headers_wf(old_h),
                i <= self.headers.len(),
                forall|j: int| 0 <= j < i ==> self.headers@[j].0@ != name@,
            decreases self.headers.len() - i,
        {
            if self.headers[i].0 == name {
                self.headers.set(i, (name, value));
                proof {
                    let new_h = self.headers@;
                    let i0 = i as int;
                    assert forall|x: int, y: int| 0 <= x < y < new_h.len() implies new_h[x].0@
                        != new_h[y].0@ by {
                        assert(old_h[x].0@ != old_h[y].0@);
                    }
                    assert_maps_equal!(headers_map(new_h), headers_map(old_h).insert(name@, value@),
                        k => {
                            if k == name@ {
                                lemma_headers_map_at(new_h, i0);
                            } else {
                                if headers_contain(old_h, k) {
                                    let w = choose|w: int| 0 <= w < old_h.len() && old_h[w].0@ == k;
                                    assert(new_h[w].0@ == k);
                                    assert(headers_contain(new_h, k));
                                    lemma_headers_map_at(new_h, w);
                                    lemma_headers_map_at(old_h, w);
                                }
                                if headers_contain(new_h, k) {
                                    let w = choose|w: int| 0 <= w < new_h.len() && new_h[w].0@ == k;
                                    assert(old_h[w].0@ == k);
                                    assert(headers_contain(old_h, k));
                                    lemma_headers_map_at(new_h, w);
                                    lemma_headers_map_at(old_h, w);
                                }
                            }
                        }
                    );
                }
                return ;
            }
            i = i + 1;
        }
        self.headers.push((name, value));
        proof {
            let new_h = self.headers@;
            let i0 = old_h.len() as int;
            assert forall|x: int, y: int| 0 <= x < y < new_h.len() implies new_h[x].0@
                != new_h[y].0@ by {
                if y < i0 {
                    assert(old_h[x].0@ != old_h[y].0@);
                } else {
                    assert(new_h[y].0@ == name@);
                    assert(old_h[x].0@ != name@);
                }
            }
            assert_maps_equal!(headers_map(new_h), headers_map(old_h).insert(name@, value@),
                k => {
                    if k == name@ {
                        lemma_headers_map_at(new_h, i0);
                    } else {
                        if headers_contain(old_h, k) {
                            let w = choose|w: int| 0 <= w < old_h.len() && old_h[w].0@ == k;
                            assert(new_h[w].0@ == k);
                            assert(headers_contain(new_h, k));
                            lemma_headers_map_at(new_h, w);
                            lemma_headers_map_at(old_h, w);
                        }
                        if headers_contain(new_h, k) {
                            let w = choose|w: int| 0 <= w < new_h.len() && new_h[w].0@ == k;
                            assert(w < i0);
                            assert(old_h[w].0@ == k);
                            assert(headers_contain(old_h, k));
                            lemma_headers_map_at(new_h, w);
                            lemma_headers_map_at(old_h, w);
                        }
                    }
                }
            );
        }
    }
}

/// A builder is either still usable — bound to its client, carrying the
/// request built so far — or consumed by its send.
pub enum BuilderState<C> {
    Fresh(C, RequestSpec),
    Consumed,
}

/// The one-shot request builder, bound to the client that will run the
/// request.
pub struct RequestBuilder<C> {
    state: BuilderState<C>,
}

impl<C> Default for RequestBuilder<C> {
    /// The used/empty sentinel: a builder that was never bound to a client
    /// behaves like one already consumed.
    fn default() -> (r: Self)
        ensures
            r.consumed(),
    {
        RequestBuilder { state: BuilderState::Consumed }
    }
}

impl<C> RequestBuilder<C> {
    /// The builder was consumed by a send (or never bound to a client).
    pub closed spec fn consumed(&self) -> bool {
        !(self.state is Fresh)
    }

    /// The client the request is bound to.
    pub closed spec fn client(&self) -> C
        recommends
            !self.consumed(),
    {
        self.state->Fresh_0
    }

    /// The request built so far.
    pub closed spec fn req(&self) -> RequestSpec
        recommends
            !self.consumed(),
    {
        self.state->Fresh_1
    }

    /// A usable builder carries a well-formed request.
    pub open spec fn wf(&self) -> bool {
        !self.consumed() ==> self.req().wf()
    }

    /// A fresh builder bound to `client` and `url`: verb `Get`, no headers,
    /// empty body.
    pub fn from_client(client: C, url: String) -> (b: Self)
        ensures
            b.wf(),
            !b.consumed(),
            b.client() == client,
            b.req().url@ == url@,
            b.req().verb == Verb::Get,
            b.req().hmap() == Map::<Seq<char>, Seq<char>>::empty(),
            b.req().body@ == Seq::<u8>::empty(),
    {
        RequestBuilder { state: BuilderState::Fresh(client, RequestSpec::new(url)) }
    }

    /// Sets the verb from its name, ignoring ASCII case. A name outside the
    /// supported set fails synchronously with `UnsupportedVerbError` and
    /// leaves the builder exactly as it was — nothing is scheduled. On a
    /// consumed builder it fails with `UseAfterSendError`.
    pub fn set_method(&mut self, name: &str) -> (r: Result<(), HttpError>)
        requires
            old(self).wf(),
        ensures
            final(self).wf(),
            old(self).consumed() ==> r == Err::<(), HttpError>(HttpError::UseAfterSendError)
                && *final(self) == *old(self),
            !old(self).consumed() && parse_verb_spec(name@) is None ==> r == Err::<(), HttpError>(
                HttpError::UnsupportedVerbError,
            ) && *final(self) == *old(self),
            !old(self).consumed() && parse_verb_spec(name@) is Some ==> {
                &&& r == Ok::<(), HttpError>(())
                &&& !final(self).consumed()
                &&& final(self).client() == old(self).client()
                &&& final(self).req().verb == parse_verb_spec(name@)->0
                &&& final(self).req().url == old(self).req().url
                &&& final(self).req().hmap() == old(self).req().hmap()
                &&& final(self).req().body == old(self).req().body
            },
    {
        match &mut self.state {
            BuilderState::Fresh(_, spec) => {
                let verb = parse_verb(name)?;
                spec.verb = verb;
                Ok(())
            },
            BuilderState::Consumed => Err(HttpError::UseAfterSendError),
        }
    }

    /// Upserts a header: afterwards the request's headers mean exactly the
    /// old map with `name` bound to `value`. On a consumed builder it fails
    /// with `UseAfterSendError` and changes nothing.
    pub fn set_header(&mut self, name: String, value: String) -> (r: Result<(), HttpError>)
        requires
            old(self).wf(),
        ensures
            final(self).wf(),
            old(self).consumed() ==> r == Err::<(), HttpError>(HttpError::UseAfterSendError)
                && *final(self) == *old(self),
            !old(self).consumed() ==> {
                &&& r == Ok::<(), HttpError>(())
                &&& !final(self).consumed()
                &&& final(self).client() == old(self).client()
                &&& final(self).req().hmap() == old(self).req().hmap().insert(name@, value@)
                &&& final(self).req().url == old(self).req().url
                &&& final(self).req().verb == old(self).req().verb
                &&& final(self).req().body == old(self).req().body
            },
    {
        match &mut self.state {
            BuilderState::Fresh(_, spec) => {
                spec.upsert_header(name, value);
                Ok(())
            },
            BuilderState::Consumed => Err(HttpError::UseAfterSendError),
        }
    }

    /// Replaces the whole body. On a consumed builder it fails with
    /// `UseAfterSendError` and changes nothing.
    pub fn set_body_raw(&mut self, body: Vec<u8>) -> (r: Result<(), HttpError>)
        requires
            old(self).wf(),
        ensures
            final(self).wf(),
            old(self).consumed() ==> r == Err::<(), HttpError>(HttpError::UseAfterSendError)
                && *final(self) == *old(self),
            !old(self).consumed() ==> {
                &&& r == Ok::<(), HttpError>(())
                &&& !final(self).consumed()
                &&& final(self).client() == old(self).client()
                &&& final(self).req().body@ == body@
                &&& final(self).req().url == old(self).req().url
                &&& final(self).req().verb == old(self).req().verb
                &&& final(self).req().hmap() == old(self).req().hmap()
            },
    {
        match &mut self.state {
            BuilderState::Fresh(_, spec) => {
                spec.body = body;
                Ok(())
            },
            BuilderState::Consumed => Err(HttpError::UseAfterSendError),
        }
    }

    /// The single send: consumes the builder and hands back the bound
    /// client and the finished request, for the caller to schedule. Every
    /// later call on this builder — this one included — fails with
    /// `UseAfterSendError`.
    pub fn send_request(&mut self) -> (r: Result<(C, RequestSpec), HttpError>)
        requires
            old(self).wf(),
        ensures
            final(self).wf(),
            final(self).consumed(),
            old(self).consumed() ==> r is Err && r->Err_0 == HttpError::UseAfterSendError,
            !old(self).consumed() ==> {
                &&& r is Ok
                &&& r->Ok_0.0 == old(self).client()
                &&& r->Ok_0.1 == old(self).req()
            },
    {
        let mut state = BuilderState::Consumed;
        core::mem::swap(&mut self.state, &mut state);
        match state {
            BuilderState::Fresh(client, spec) => Ok((client, spec)),
            BuilderState::Consumed => Err(HttpError::UseAfterSendError),
        }
    }
}

} // verus!
