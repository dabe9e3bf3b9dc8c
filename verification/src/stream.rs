//! The body stream: a response body drained in the background, observed by
//! polling.
//!
//! A stream is created in one of two modes and stays in it for its whole
//! life. In buffered mode a background worker appends chunks, in reader
//! order, to a growable buffer, and the caller drains that buffer: each
//! drain hands back the bytes accumulated since the last one, so the chunks
//! handed out, concatenated in call order, are exactly the bytes the reader
//! produced. In file-redirect mode the body goes straight to a file and
//! there is no buffer to drain; draining operations are rejected with
//! `ModeMismatchError`.
//!
//! The state here is the machine itself; the sharing (a lock around it, one
//! short hold per call) and the reading, which are I/O, are the unverified
//! caller's business. The two ghost sequences `produced` and `drained`
//! record what the worker appended and what the caller drained; the
//! well-formedness invariant ties them to the buffer, and the completion
//! flag only ever rises.

use vstd::prelude::*;
use crate::codec::{bytes_to_string, parse_json, json_decode, utf8_decode};
use crate::errors::HttpError;

verus! {

/// A body stream's shared state.
pub struct BodyStream {
    /// The growable buffer, present exactly in buffered mode.
    buffer: Option<Vec<u8>>,
    /// Whether the background worker has finished (end of body, or error).
    done: bool,
    /// Whether the worker finished because of an error.
    failed: bool,
    /// Every byte the worker has appended, in order.
    produced: Ghost<Seq<u8>>,
    /// Every byte the caller has drained, in order.
    drained: Ghost<Seq<u8>>,
}

impl BodyStream {
    /// The stream drains into a buffer the caller polls.
    pub closed spec fn is_buffered(&self) -> bool {
        self.buffer is Some
    }

    /// The background worker has finished.
    pub closed spec fn done(&self) -> bool {
        self.done
    }

    /// The background worker finished because of an error.
    pub closed spec fn failed(&self) -> bool {
        self.failed
    }

    /// Every byte appended so far, in order.
    pub closed spec fn produced(&self) -> Seq<u8> {
        self.produced@
    }

    /// Every byte drained so far, in order.
    pub closed spec fn drained(&self) -> Seq<u8> {
        self.drained@
    }

    /// The bytes appended but not yet drained.
    pub closed spec fn pending(&self) -> Seq<u8>
        recommends
            self.is_buffered(),
    {
        self.buffer->0@
    }

    /// Well-formedness: in buffered mode the drained bytes followed by the
    /// buffered ones are exactly the produced ones, and a failure implies
    /// completion.
    pub open spec fn wf(&self) -> bool {
        &&& (self.is_buffered() ==> self.drained() + self.pending() == self.produced())
        &&& (self.failed() ==> self.done())
    }

    /// A fresh buffered stream: empty buffer, nothing produced or drained,
    /// not done.
    pub fn new_buffered() -> (s: Self)
        ensures
            s.wf(),
            s.is_buffered(),
            !s.done(),
            !s.failed(),
            s.produced() == Seq::<u8>::empty(),
            s.drained() == Seq::<u8>::empty(),
            s.pending() == Seq::<u8>::empty(),
    {
        let s = BodyStream {
            buffer: Some(Vec::new()),
            done: false,
            failed: false,
            produced: Ghost(Seq::empty()),
            drained: Ghost(Seq::empty()),
        };
        proof {
            assert(s.drained() + s.pending() =~= s.produced());
        }
        s
    }

    /// A fresh file-redirect stream: no buffer, not done.
    pub fn new_file_redirect() -> (s: Self)
        ensures
            s.wf(),
            !s.is_buffered(),
            !s.done(),
            !s.failed(),
    {
        BodyStream {
            buffer: None,
            done: false,
            failed: false,
            produced: Ghost(Seq::empty()),
            drained: Ghost(Seq::empty()),
        }
    }

    /// The worker's append of one chunk, in reader order. Accepted only in
    /// buffered mode while the stream is not done; otherwise the stream is
    /// left untouched.
    pub fn append_chunk(&mut self, chunk: &[u8]) -> (accepted: bool)
        requires
            old(self).wf(),
        ensures
            final(self).wf(),
            accepted == (old(self).is_buffered() && !old(self).done()),
            accepted ==> {
                &&& final(self).produced() == old(self).produced() + chunk@
                &&& final(self).pending() == old(self).pending() + chunk@
                &&& final(self).drained() == old(self).drained()
                &&& final(self).is_buffered()
                &&& final(self).done() == old(self).done()
                &&& final(self).failed() == old(self).failed()
            },
            !accepted ==> *final(self) == *old(self),
    {
        if self.done {
            return false;
        }
        let appended: bool;
        match &mut self.buffer {
            Some(buf) => {
                buf.extend_from_slice(chunk);
                appended = true;
            },
            None => {
                appended = false;
            },
        }
        if appended {
            proof {
                self.produced@ = self.produced@ + chunk@;
                assert(self.drained() + self.pending() =~= self.produced());
            }
        }
        appended
    }

    /// The worker's completion mark: end of body, or an error it ran into.
    /// The completion flag only rises, and a recorded failure is never
    /// cleared.
    pub fn finish(&mut self, had_error: bool)
        requires
            old(self).wf(),
        ensures
            final(self).wf(),
            final(self).done(),
            final(self).failed() == (old(self).failed() || had_error),
            final(self).is_buffered() == old(self).is_buffered(),
            final(self).produced() == old(self).produced(),
            final(self).drained() == old(self).drained(),
            old(self).is_buffered() ==> final(self).pending() == old(self).pending(),
    {
        self.done = true;
        if had_error {
            self.failed = true;
        }
    }

    /// Non-blocking read of the completion flag.
    pub fn is_done(&self) -> (r: bool)
        ensures
            r == self.done(),
    {
        self.done
    }

    /// Non-blocking read of the failure flag.
    pub fn is_failed(&self) -> (r: bool)
        ensures
            r == self.failed(),
    {
        self.failed
    }

    /// Drains the buffer: hands back everything appended since the last
    /// drain and leaves the buffer empty. In file-redirect mode it fails
    /// with `ModeMismatchError` and changes nothing.
    pub fn poll(&mut self) -> (r: Result<Vec<u8>, HttpError>)
        requires
            old(self).wf(),
        ensures
            final(self).wf(),
            !old(self).is_buffered() ==> r is Err && r->Err_0 == HttpError::ModeMismatchError
                && *final(self) == *old(self),
            old(self).is_buffered() ==> {
                &&& r is Ok
                &&& r->Ok_0@ == old(self).pending()
                &&& final(self).is_buffered()
                &&& final(self).pending() == Seq::<u8>::empty()
                &&& final(self).drained() == old(self).drained() + old(self).pending()
                &&& final(self).produced() == old(self).produced()
                &&& final(self).done() == old(self).done()
                &&& final(self).failed() == old(self).failed()
            },
    {
        match &mut self.buffer {
            Some(buf) => {
                let mut out: Vec<u8> = Vec::new();
                core::mem::swap(buf, &mut out);
                proof {
                    self.drained@ = self.drained@ + out@;
                }
                Ok(out)
            },
            None => Err(HttpError::ModeMismatchError),
        }
    }

    /// Drains the buffer and decodes the drained bytes as UTF-8 text. The
    /// buffer is emptied even when the decode fails with `DecodeError`; in
    /// file-redirect mode it fails with `ModeMismatchError` and changes
    /// nothing.
    pub fn collect_string(&mut self) -> (r: Result<String, HttpError>)
        requires
            old(self).wf(),
        ensures
            final(self).wf(),
            !old(self).is_buffered() ==> r is Err && r->Err_0 == HttpError::ModeMismatchError
                && *final(self) == *old(self),
            old(self).is_buffered() ==> {
                &&& final(self).is_buffered()
                &&& final(self).pending() == Seq::<u8>::empty()
                &&& final(self).drained() == old(self).drained() + old(self).pending()
                &&& final(self).produced() == old(self).produced()
                &&& final(self).done() == old(self).done()
                &&& final(self).failed() == old(self).failed()
                &&& (utf8_decode(old(self).pending()) is Some ==> r is Ok && r->Ok_0@
                    == utf8_decode(old(self).pending())->0)
                &&& (utf8_decode(old(self).pending()) is None ==> r is Err && r->Err_0
                    == HttpError::DecodeError)
            },
    {
        let drained = self.poll();
        match drained {
            Ok(bytes) => match bytes_to_string(bytes) {
                Some(text) => Ok(text),
                None => Err(HttpError::DecodeError),
            },
            Err(e) => Err(e),
        }
    }

    /// Drains the buffer and parses the drained bytes as a JSON document.
    /// The buffer is emptied even when the parse fails with `DecodeError`;
    /// in file-redirect mode it fails with `ModeMismatchError` and changes
    /// nothing.
    pub fn collect_json(&mut self) -> (r: Result<serde_json::Value, HttpError>)
        requires
            old(self).wf(),
        ensures
            final(self).wf(),
            !old(self).is_buffered() ==> r is Err && r->Err_0 == HttpError::ModeMismatchError
                && *final(self) == *old(self),
            old(self).is_buffered() ==> {
                &&& final(self).is_buffered()
                &&& final(self).pending() == Seq::<u8>::empty()
                &&& final(self).drained() == old(self).drained() + old(self).pending()
                &&& final(self).produced() == old(self).produced()
                &&& final(self).done() == old(self).done()
                &&& final(self).failed() == old(self).failed()
                &&& (r is Ok <==> json_decode(old(self).pending()) is Some)
                &&& (r is Ok ==> r->Ok_0 == json_decode(old(self).pending())->0)
                &&& (json_decode(old(self).pending()) is None ==> r is Err && r->Err_0
                    == HttpError::DecodeError)
            },
    {
        let drained = self.poll();
        match drained {
            Ok(bytes) => match parse_json(bytes.as_slice()) {
                Some(value) => Ok(value),
                None => Err(HttpError::DecodeError),
            },
            Err(e) => Err(e),
        }
    }
}

/// Law: once a buffered stream is done and its buffer has been drained, the
/// chunks handed out so far, concatenated in the order they were returned,
/// are exactly the bytes the background reader produced — no loss, no
/// duplication, no reordering.
pub proof fn lemma_drained_chunks_reassemble_body(s: BodyStream)
    requires
        s.wf(),
        s.is_buffered(),
        s.done(),
        s.pending() == Seq::<u8>::empty(),
    ensures
        s.drained() == s.produced(),
{
    assert(s.drained() + s.pending() =~= s.drained());
}

} // verus!
