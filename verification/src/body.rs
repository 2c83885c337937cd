//! The response-body lifecycle.
//!
//! A body is in one of three states: `Streamable` (the raw chunk source has
//! not been touched), `Reusable` (the bytes are fully buffered and may be
//! served any number of times) or `Consumed` (the body was taken for
//! streaming, closed, or lost to a failed buffering read). All transitions
//! are expressed by the spec functions below and pinned by the contracts of
//! the exec methods; exclusive access is enforced by `&mut`, the engine's
//! single serialization point for body ownership.

use vstd::prelude::*;

use crate::error::Error;

verus! {

/// The state of a response body.
///
/// `Streamable` carries no payload here: the raw chunk source itself lives
/// at the transport edge and is only ever touched after [`Body::stream`] or
/// a buffering read has moved the state machine, so the engine's bookkeeping
/// and the transport's handle can never disagree about who owns the bytes.
#[derive(Debug)]
pub enum Body {
    /// Raw source untouched; may be streamed once or buffered once.
    Streamable,
    /// Fully buffered; serves any number of reads from the same bytes.
    Reusable(Vec<u8>),
    /// Taken for streaming, closed, or invalidated by a failed read.
    Consumed,
}

/// The mathematical model of a body state.
pub enum BodyModel {
    Streamable,
    Reusable(Seq<u8>),
    Consumed,
}

impl View for Body {
    type V = BodyModel;

    open spec fn view(&self) -> BodyModel {
        match self {
            Body::Streamable => BodyModel::Streamable,
            Body::Reusable(b) => BodyModel::Reusable(b@),
            Body::Consumed => BodyModel::Consumed,
        }
    }
}

/// The model of the outcome a buffering read was handed: `None` when no
/// collect was performed (the body was not `Streamable`), otherwise the
/// collected bytes or the transport fault.
pub open spec fn fetched_view(f: Option<Result<Vec<u8>, Error>>) -> Option<Result<Seq<u8>, Error>> {
    match f {
        Some(Ok(b)) => Some(Ok(b@)),
        Some(Err(e)) => Some(Err(e)),
        None => None,
    }
}

/// The model of a read result.
pub open spec fn read_result_view(r: Result<Vec<u8>, Error>) -> Result<Seq<u8>, Error> {
    match r {
        Ok(b) => Ok(b@),
        Err(e) => Err(e),
    }
}

/// The transition taken by a buffering (non-streaming) read: from
/// `Streamable` the collected bytes are cached and served, and a failed
/// collect permanently invalidates the body; from `Reusable` the cache is
/// served unchanged; from `Consumed` the read fails.
pub open spec fn spec_read(s: BodyModel, f: Option<Result<Seq<u8>, Error>>) -> (BodyModel, Result<
    Seq<u8>,
    Error,
>) {
    match s {
        BodyModel::Streamable => match f {
            Some(Ok(b)) => (BodyModel::Reusable(b), Ok(b)),
            Some(Err(e)) => (BodyModel::Consumed, Err(e)),
            None => (BodyModel::Streamable, Err(Error::BodyConsumed)),
        },
        BodyModel::Reusable(b) => (BodyModel::Reusable(b), Ok(b)),
        BodyModel::Consumed => (BodyModel::Consumed, Err(Error::BodyConsumed)),
    }
}

/// The transition taken by a streaming read: only a `Streamable` body may be
/// taken, and the body is left `Consumed` in every case — a buffered body
/// touched by `stream` discards its cache.
pub open spec fn spec_stream(s: BodyModel) -> (BodyModel, Result<(), Error>) {
    match s {
        BodyModel::Streamable => (BodyModel::Consumed, Ok(())),
        _ => (BodyModel::Consumed, Err(Error::BodyConsumed)),
    }
}

/// The transition taken by `close`: any state moves to `Consumed`, never
/// with an error.
pub open spec fn spec_close(s: BodyModel) -> BodyModel {
    BodyModel::Consumed
}

impl Body {
    /// A fresh body over an untouched raw source.
    pub fn new_streamable() -> (r: Body)
        ensures
            r@ is Streamable,
    {
        Body::Streamable
    }

    /// Whether a buffering read of this body must first collect the raw
    /// source; metadata accessors stay available whatever this returns.
    pub fn needs_collect(&self) -> (r: bool)
        ensures
            r == (self@ is Streamable),
    {
        match self {
            Body::Streamable => true,
            _ => false,
        }
    }

    /// A buffering read. `fetched` is the outcome of collecting the raw
    /// source, handed in by the transport edge exactly when the body is
    /// `Streamable`; for the cached and consumed states no collect happens
    /// and the cached bytes (or the body-consumed error) are served.
    pub fn read_buffered(&mut self, fetched: Option<Result<Vec<u8>, Error>>) -> (r: Result<
        Vec<u8>,
        Error,
    >)
        requires
            (old(self)@ is Streamable) <==> (fetched is Some),
        ensures
            final(self)@ == spec_read(old(self)@, fetched_view(fetched)).0,
            read_result_view(r) == spec_read(old(self)@, fetched_view(fetched)).1,
    {
        match self {
            Body::Streamable => match fetched {
                Some(Ok(b)) => {
                    let out = crate::util::copy_bytes(&b);
                    *self = Body::Reusable(b);
                    Ok(out)
                },
                Some(Err(e)) => {
                    *self = Body::Consumed;
                    Err(e)
                },
                None => Err(Error::BodyConsumed),
            },
            Body::Reusable(b) => {
                let out = crate::util::copy_bytes(b);
                Ok(out)
            },
            Body::Consumed => Err(Error::BodyConsumed),
        }
    }

    /// Takes the body for streaming. Succeeds exactly from `Streamable`;
    /// the body is `Consumed` afterwards in every case.
    pub fn stream(&mut self) -> (r: Result<(), Error>)
        ensures
            final(self)@ == spec_stream(old(self)@).0,
            r == spec_stream(old(self)@).1,
    {
        match self {
            Body::Streamable => {
                *self = Body::Consumed;
                Ok(())
            },
            _ => {
                *self = Body::Consumed;
                Err(Error::BodyConsumed)
            },
        }
    }

    /// Closes the body, discarding any raw or buffered bytes. Never errors,
    /// from any state.
    pub fn close(&mut self)
        ensures
            final(self)@ == spec_close(old(self)@),
    {
        *self = Body::Consumed;
    }
}

/// Buffered reads are idempotent: once a read has succeeded, every further
/// read (with no new collect) yields the very same bytes and leaves the body
/// `Reusable`.
pub proof fn lemma_read_idempotent(s: BodyModel, f: Option<Result<Seq<u8>, Error>>)
    requires
        spec_read(s, f).1 is Ok,
    ensures
        spec_read(spec_read(s, f).0, None).1 == spec_read(s, f).1,
        spec_read(spec_read(s, f).0, None).0 == spec_read(s, f).0,
{
}

/// Taking the body for streaming after any successful buffering read fails
/// with the body-consumed error.
pub proof fn lemma_stream_after_read_fails(s: BodyModel, f: Option<Result<Seq<u8>, Error>>)
    requires
        spec_read(s, f).1 is Ok,
    ensures
        spec_stream(spec_read(s, f).0).1 == Result::<(), Error>::Err(Error::BodyConsumed),
{
}

/// Closing is idempotent: a second close finds the body already `Consumed`
/// and leaves it so, and neither close reports an error.
pub proof fn lemma_close_idempotent(s: BodyModel)
    ensures
        spec_close(spec_close(s)) == spec_close(s),
        spec_close(s) is Consumed,
{
}

} // verus!
