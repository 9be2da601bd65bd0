//! The decoder's send/receive state machine.
//!
//! The native engine decodes; the decisions around each of its calls are made
//! here. A decoder is `Ready` when it holds no pending data, and backpressured
//! when it holds the remainder of a submission that the engine did not take.
use vstd::prelude::*;

use std::sync::Arc;

use crate::allocator::{DefaultAllocator, PictureAllocator};
use crate::error::{Error, ErrorCodes};
use crate::picture::{DataProps, FrameInfo, Picture};

verus! {

/// A chunk of encoded data submitted to the engine: its length in bytes, the
/// number of its bytes the engine has not taken yet, and its metadata.
#[derive(Debug, Copy, Clone, PartialEq, Eq, Structural)]
pub struct Data {
    pub len: usize,
    pub sz: usize,
    pub m: DataProps,
}

impl Data {
    /// The engine never has more bytes left than were submitted.
    pub open spec fn wf(self) -> bool {
        self.sz <= self.len
    }

    /// Bytes the engine has taken.
    pub open spec fn consumed(self) -> int {
        self.len - self.sz
    }

    /// `len` bytes wrapped for submission, none of them taken yet.
    pub fn wrap(len: usize, m: DataProps) -> (r: Data)
        ensures
            r == (Data { len, sz: len, m }),
            r.wf(),
    {
        Data { len, sz: len, m }
    }

    /// Records that the engine has `sz` bytes left.
    pub fn set_remaining(&mut self, sz: usize)
        requires
            old(self).wf(),
            sz <= old(self).sz,
        ensures
            *final(self) == (Data { sz, ..*old(self) }),
            final(self).wf(),
            final(self).consumed() >= old(self).consumed(),
    {
        self.sz = sz;
    }
}

/// The pending slot and the result after the engine answered `ret` to the
/// submission `d`: the transient code, or success with bytes left, keeps `d`
/// pending and asks to try again; another error drops `d`; success with
/// nothing left completes it.
pub open spec fn after_send(d: Data, ret: i32, codes: ErrorCodes) -> (Option<Data>, Result<(), Error>) {
    if ret < 0 {
        let e = Error::spec_from_code(ret as int, codes);
        if e == Error::Again {
            (Some(d), Err(Error::Again))
        } else {
            (None, Err(e))
        }
    } else if d.sz > 0 {
        (Some(d), Err(Error::Again))
    } else {
        (None, Ok(()))
    }
}

/// A decoder: the native codes of its engine, the data it holds pending, and
/// the allocator it was opened with.
pub struct Decoder<A: PictureAllocator = DefaultAllocator> {
    codes: ErrorCodes,
    pending_data: Option<Data>,
    allocator: Option<Arc<A>>,
}

impl<A: PictureAllocator> Decoder<A> {
    /// The native error codes of the engine.
    pub closed spec fn codes(&self) -> ErrorCodes {
        self.codes
    }

    /// The data held pending, if the decoder is backpressured.
    pub closed spec fn pending(&self) -> Option<Data> {
        self.pending_data
    }

    /// Whether the decoder was opened with an allocator.
    pub closed spec fn has_allocator(&self) -> bool {
        self.allocator is Some
    }

    /// The decoder's invariant: its codes are well formed and pending data
    /// never claims more bytes left than it has.
    pub open spec fn wf(&self) -> bool {
        &&& self.codes().wf()
        &&& self.pending() matches Some(d) ==> d.wf()
    }

    /// The decoder after the engine answered `ret` to the open call, with the
    /// allocator `allocator` installed: it fails with the error of that code
    /// where `ret` is negative, and is ready otherwise.
    pub fn open(codes: ErrorCodes, ret: i32, allocator: Option<Arc<A>>) -> (r: Result<Decoder<A>, Error>)
        requires
            codes.wf(),
        ensures
            r is Ok <==> ret >= 0,
            r matches Err(e) ==> e == Error::spec_from_code(ret as int, codes),
            r matches Ok(d) ==> d.wf() && d.codes() == codes && d.pending() is None
                && d.has_allocator() == (allocator is Some),
    {
        if ret < 0 {
            Err(Error::from_code(ret, &codes))
        } else {
            Ok(Decoder { codes, pending_data: None, allocator })
        }
    }

    /// The native error codes of the engine.
    pub fn error_codes(&self) -> (r: ErrorCodes)
        ensures
            r == self.codes(),
    {
        self.codes
    }

    /// The allocator the decoder was opened with.
    pub fn allocator(&self) -> (r: Option<&Arc<A>>)
        ensures
            r is Some <==> self.has_allocator(),
    {
        self.allocator.as_ref()
    }

    /// Whether the decoder holds pending data.
    pub fn is_backpressured(&self) -> (r: bool)
        ensures
            r <==> self.pending() is Some,
    {
        self.pending_data.is_some()
    }

    /// The pending data, if any.
    pub fn pending_data(&self) -> (r: Option<Data>)
        ensures
            r == self.pending(),
    {
        self.pending_data
    }

    /// Wraps `len` bytes for submission with the given metadata; absent values
    /// take the native defaults. Only a ready decoder may be sent new data.
    pub fn send_data(
        &self,
        len: usize,
        offset: Option<i64>,
        timestamp: Option<i64>,
        duration: Option<i64>,
    ) -> (r: Data)
        requires
            self.pending() is None,
        ensures
            r == (Data { len, sz: len, m: DataProps::spec_new(offset, timestamp, duration) }),
            r.wf(),
    {
        Data::wrap(len, DataProps::new(offset, timestamp, duration))
    }

    /// Records the engine's answer `ret` to the submission of `data`, whose
    /// remaining size the engine has updated, and returns the result of the
    /// submission (see `after_send`).
    pub fn data_sent(&mut self, data: Data, ret: i32) -> (r: Result<(), Error>)
        requires
            old(self).wf(),
            old(self).pending() is None,
            data.wf(),
        ensures
            final(self).wf(),
            final(self).codes() == old(self).codes(),
            final(self).has_allocator() == old(self).has_allocator(),
            (final(self).pending(), r) == after_send(data, ret, old(self).codes()),
    {
        if ret < 0 {
            let e = Error::from_code(ret, &self.codes);
            if e.is_again() {
                self.pending_data = Some(data);
            }
            Err(e)
        } else if data.sz > 0 {
            self.pending_data = Some(data);
            Err(Error::Again)
        } else {
            Ok(())
        }
    }

    /// Takes the pending data for resubmission. `None` means the decoder was
    /// ready, and sending pending data succeeds at once.
    pub fn send_pending_data(&mut self) -> (r: Option<Data>)
        requires
            old(self).wf(),
        ensures
            final(self).wf(),
            r == old(self).pending(),
            final(self).pending() is None,
            final(self).codes() == old(self).codes(),
            final(self).has_allocator() == old(self).has_allocator(),
            r matches Some(d) ==> d.wf(),
    {
        self.pending_data.take()
    }

    /// Discards the pending data, which the caller releases, and leaves the
    /// decoder ready.
    pub fn flush(&mut self) -> (r: Option<Data>)
        requires
            old(self).wf(),
        ensures
            final(self).wf(),
            r == old(self).pending(),
            final(self).pending() is None,
            final(self).codes() == old(self).codes(),
            final(self).has_allocator() == old(self).has_allocator(),
    {
        self.pending_data.take()
    }

    /// The picture after the engine answered `ret` to a request for a decoded
    /// frame and, on success, filled in `frame`, whose buffers the decoder's
    /// allocator gave with `allocator_data`. A decoder with an allocator has
    /// data for every frame, one without has none. A negative `ret` gives the
    /// error of that code. The decoder itself is unchanged.
    pub fn get_picture(
        &self,
        ret: i32,
        frame: FrameInfo,
        allocator_data: Option<Arc<A::AllocatorData>>,
    ) -> (r: Result<Picture<A>, Error>)
        requires
            self.wf(),
            ret >= 0 ==> (allocator_data is Some <==> self.has_allocator()),
        ensures
            r is Ok <==> ret >= 0,
            r matches Err(e) ==> e == Error::spec_from_code(ret as int, self.codes()),
            r matches Ok(p) ==> {
                &&& p@ == frame
                &&& p.holds_allocator() == self.has_allocator()
                &&& p.has_allocator_data() == self.has_allocator()
                &&& p.spec_allocator_data() == allocator_data
            },
    {
        if ret < 0 {
            Err(Error::from_code(ret, &self.codes))
        } else {
            Ok(Picture::new(frame, self.allocator.clone(), allocator_data))
        }
    }

    /// Closes the decoder, handing back the pending data for release.
    pub fn close(self) -> (r: Option<Data>)
        ensures
            r == self.pending(),
    {
        self.pending_data
    }
}

/// The engine's answers to successive submissions of one chunk: each gives
/// the return code and the bytes left afterwards, and never more bytes left
/// than before.
pub open spec fn valid_reports(d: Data, reports: Seq<(i32, usize)>) -> bool {
    &&& reports.len() >= 1
    &&& reports[0].1 <= d.sz
    &&& forall|i: int| 0 < i < reports.len() ==> #[trigger] reports[i].1 <= reports[i - 1].1
}

/// The data and the result after submitting `d` and, while it stays pending,
/// resubmitting what is left, with the engine answering `reports` in turn.
/// The run ends at the first answer that leaves nothing pending, or when the
/// answers run out.
pub open spec fn submit_run(d: Data, reports: Seq<(i32, usize)>, codes: ErrorCodes) -> (
    Data,
    Result<(), Error>,
)
    decreases reports.len(),
{
    if reports.len() == 0 {
        (d, Err(Error::Again))
    } else {
        let next = Data { sz: reports[0].1, ..d };
        let (pending, r) = after_send(next, reports[0].0, codes);
        if pending is Some && reports.len() > 1 {
            submit_run(next, reports.drop_first(), codes)
        } else {
            (next, r)
        }
    }
}

/// Backpressure loses no data: however many cycles of submission, "try
/// again" and resubmission a chunk goes through, the data held is the same
/// chunk, with its full length and metadata; while it is pending it keeps
/// exactly the bytes the engine left; and a run that succeeds has had every
/// byte of the chunk consumed.
pub proof fn lemma_backpressure_lossless(d: Data, reports: Seq<(i32, usize)>, codes: ErrorCodes)
    requires
        d.wf(),
        codes.wf(),
        valid_reports(d, reports),
    ensures
        submit_run(d, reports, codes).0.len == d.len,
        submit_run(d, reports, codes).0.m == d.m,
        submit_run(d, reports, codes).0.wf(),
        submit_run(d, reports, codes).0.sz == reports.last().1 || submit_run(
            d,
            reports,
            codes,
        ).1 != Err::<(), Error>(Error::Again),
        submit_run(d, reports, codes).1 is Ok ==> submit_run(d, reports, codes).0.consumed()
            == d.len,
    decreases reports.len(),
{
    let next = Data { sz: reports[0].1, ..d };
    let (pending, r) = after_send(next, reports[0].0, codes);
    if pending is Some && reports.len() > 1 {
        let rest = reports.drop_first();
        assert(valid_reports(next, rest)) by {
            assert forall|i: int| 0 < i < rest.len() implies #[trigger] rest[i].1 <= rest[i
                - 1].1 by {
                assert(rest[i] == reports[i + 1]);
                assert(rest[i - 1] == reports[i]);
            }
        }
        lemma_backpressure_lossless(next, rest, codes);
        assert(rest.last() == reports.last());
    } else {
        if r == Err::<(), Error>(Error::Again) && reports.len() > 1 {
            assert(pending is Some);
        }
    }
}

} // verus!
