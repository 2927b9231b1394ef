//! The pipe buffers of `pipebuf`, as this library sees them.
//!
//! A pipe is modelled by the bytes that its consumer has not read yet, its
//! end-of-stream state and, for a pipe of fixed capacity, that capacity.
//! Every function of this file that carries `external_body` is a thin call
//! into `pipebuf`; its contract is taken from that crate's source and is
//! believed, not proved.

use vstd::prelude::*;

verus! {

/// `pipebuf::PBufRd`, the consumer's reference to a pipe. Opaque here.
#[verifier::external_type_specification]
#[verifier::external_body]
#[verifier::reject_recursive_types(T)]
pub struct ExPBufRd<'a, T: 'static>(pipebuf::PBufRd<'a, T>);

/// `pipebuf::PBufWr`, the producer's reference to a pipe. Opaque here.
#[verifier::external_type_specification]
#[verifier::external_body]
#[verifier::reject_recursive_types(T)]
pub struct ExPBufWr<'a, T: 'static>(pipebuf::PBufWr<'a, T>);

/// `pipebuf::PBufRdWr`: the two public fields `rd` and `wr`.
#[verifier::external_type_specification]
#[verifier::reject_recursive_types(T)]
pub struct ExPBufRdWr<'a, T: 'static>(pipebuf::PBufRdWr<'a, T>);

/// End-of-stream and flush state of a pipe, as `pipebuf::PBufState` has it.
pub enum PipeState {
    Open,
    Push,
    Closing,
    Closed,
    Aborting,
    Aborted,
}

impl PipeState {
    /// The producer has ended the stream: no more bytes may be committed.
    pub open spec fn is_eof(self) -> bool {
        !(self is Open || self is Push)
    }

    /// The state after the producer marks a flush boundary.
    pub open spec fn pushed(self) -> PipeState {
        if self is Open {
            PipeState::Push
        } else {
            self
        }
    }

    /// The state after the producer half-closes the pipe.
    pub open spec fn closed(self) -> PipeState {
        if self.is_eof() {
            self
        } else {
            PipeState::Closing
        }
    }
}

/// What a pipe holds.
pub struct PipeView {
    /// The committed bytes that the consumer has not consumed, oldest first.
    pub data: Seq<u8>,
    /// End-of-stream and flush state.
    pub state: PipeState,
    /// `Some(capacity)` for a pipe that was made with a fixed capacity.
    pub limit: Option<nat>,
}

impl PipeView {
    /// `n` more bytes can be reserved without outgrowing a fixed capacity.
    pub open spec fn has_room(self, n: int) -> bool {
        match self.limit {
            None => true,
            Some(capacity) => self.data.len() + n <= capacity,
        }
    }

    /// The pipe after `bytes` were committed to it.
    pub open spec fn appended(self, bytes: Seq<u8>) -> PipeView {
        PipeView { data: self.data + bytes, ..self }
    }

    /// The last bytes committed to the pipe are `bytes`.
    pub open spec fn ends_with(self, bytes: Seq<u8>) -> bool {
        self.data.len() >= bytes.len() && self.data.skip(self.data.len() - bytes.len()) == bytes
    }

    /// The pipe with its state replaced.
    pub open spec fn with_state(self, state: PipeState) -> PipeView {
        PipeView { state, ..self }
    }
}

/// The unread bytes of the pipe behind a consumer reference.
pub uninterp spec fn rd_data(rd: pipebuf::PBufRd<'_, u8>) -> Seq<u8>;

/// The pipe behind a producer reference.
pub uninterp spec fn wr_view(wr: pipebuf::PBufWr<'_, u8>) -> PipeView;

/// The bytes that stand in the space most recently reserved with
/// `PBufWr::space`, as its caller left them.
pub uninterp spec fn wr_reserved(wr: pipebuf::PBufWr<'_, u8>) -> Seq<u8>;

/// `PBufRd::data`: the unread bytes. A slice never spans more than
/// `isize::MAX` bytes.
#[verifier::external_body]
pub(crate) fn rd_bytes<'b>(rd: &'b pipebuf::PBufRd<'_, u8>) -> (bytes: &'b [u8])
    ensures
        bytes@ == rd_data(*rd),
        bytes@.len() <= isize::MAX,
{
    rd.data()
}

/// `PBufRd::consume`: drops the first `n` unread bytes. The outside function
/// panics when fewer than `n` are there.
#[verifier::external_body]
pub(crate) fn rd_consume(rd: &mut pipebuf::PBufRd<'_, u8>, n: usize)
    requires
        n <= rd_data(*old(rd)).len(),
    ensures
        rd_data(*final(rd)) == rd_data(*old(rd)).skip(n as int),
{
    rd.consume(n)
}

/// `PBufWr::is_eof`: whether the producer has closed or aborted the pipe.
#[verifier::external_body]
pub(crate) fn wr_is_eof(wr: &pipebuf::PBufWr<'_, u8>) -> (eof: bool)
    ensures
        eof == wr_view(*wr).state.is_eof(),
{
    wr.is_eof()
}

/// `PBufWr::exceeds_limit`: whether more than `limit` unread bytes are held.
#[verifier::external_body]
pub(crate) fn wr_exceeds_limit(wr: &pipebuf::PBufWr<'_, u8>, limit: usize) -> (over: bool)
    ensures
        over == (wr_view(*wr).data.len() > limit),
{
    wr.exceeds_limit(limit)
}

/// `PBufWr::free_space`: `None` for a pipe that grows; for a pipe of fixed
/// capacity, the capacity less the unread bytes.
#[verifier::external_body]
pub(crate) fn wr_free_space(wr: &pipebuf::PBufWr<'_, u8>) -> (free: Option<usize>)
    ensures
        free is None <==> wr_view(*wr).limit is None,
        free matches Some(n) ==> n + wr_view(*wr).data.len() == wr_view(*wr).limit->0,
{
    wr.free_space()
}

/// `PBufWr::space`: a slice of exactly `reserve` bytes of free space behind
/// the committed bytes. The pipe itself is unchanged; what the caller leaves
/// in the slice is what a following `commit` takes from. The outside
/// function panics when a pipe of fixed capacity has no room for `reserve`
/// more bytes.
#[verifier::external_body]
pub(crate) fn wr_space<'b>(wr: &'b mut pipebuf::PBufWr<'_, u8>, reserve: usize) -> (room: &'b mut [u8])
    requires
        wr_view(*old(wr)).has_room(reserve as int),
        reserve <= isize::MAX,
    ensures
        room@.len() == reserve,
        wr_view(*final(wr)) == wr_view(*old(wr)),
        wr_reserved(*final(wr)) == final(room)@,
{
    wr.space(reserve)
}

/// `PBufWr::commit`: the first `n` bytes of the reserved space join the
/// unread bytes. The outside function panics on a pipe at end-of-stream and
/// when `n` is more than was reserved.
#[verifier::external_body]
pub(crate) fn wr_commit(wr: &mut pipebuf::PBufWr<'_, u8>, n: usize)
    requires
        !wr_view(*old(wr)).state.is_eof(),
        n <= wr_reserved(*old(wr)).len(),
    ensures
        wr_view(*final(wr)) == wr_view(*old(wr)).appended(wr_reserved(*old(wr)).take(n as int)),
{
    wr.commit(n)
}

/// `PBufWr::push`: marks a flush boundary; `Open` becomes `Push`, any other
/// state stays.
#[verifier::external_body]
pub(crate) fn wr_push(wr: &mut pipebuf::PBufWr<'_, u8>)
    ensures
        wr_view(*final(wr)) == wr_view(*old(wr)).with_state(wr_view(*old(wr)).state.pushed()),
{
    wr.push()
}

/// `PBufWr::close`: half-closes the pipe; a pipe that is not yet at
/// end-of-stream becomes `Closing`, any other stays as it is.
#[verifier::external_body]
pub(crate) fn wr_close(wr: &mut pipebuf::PBufWr<'_, u8>)
    ensures
        wr_view(*final(wr)) == wr_view(*old(wr)).with_state(wr_view(*old(wr)).state.closed()),
{
    wr.close()
}

/// Whether `n` more bytes can be reserved in the pipe.
pub fn has_room(wr: &pipebuf::PBufWr<'_, u8>, n: usize) -> (ok: bool)
    ensures
        ok == wr_view(*wr).has_room(n as int),
{
    match wr_free_space(wr) {
        None => true,
        Some(free) => n <= free,
    }
}

} // verus!
