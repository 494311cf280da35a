//! An in-process byte pipe: one shared FIFO buffer behind a verified lock,
//! drained by read endpoints and fed by write endpoints, each duplicable and
//! independently destructible. Endpoint liveness is counted by shared tag
//! handles: while a side holds at least one, the other side keeps waiting on
//! it; once the last is dropped, reads see the end of the stream and writes
//! fail fast.
//!
//! Each operation is one locked step with an exact contract over the buffer
//! (`write_step`, `read_step` and their kin). A step that cannot proceed —
//! a read on an empty buffer whose writers still live, a whole-buffer write
//! that does not fit — reports that the caller must wait, which the
//! endpoints surface as `WouldBlock`: verified code does not suspend a
//! thread. A driver loop outside the verified core turns `WouldBlock` into
//! blocking by retrying after the peer makes progress.

use vstd::prelude::*;
use vstd::string::StringExecFns;

use crate::stream::ByteSink;
use crate::stream::ByteSource;
use crate::stream::StreamError;
use crate::stream::append_prefix;
use crate::stream::copy_range;
use crate::stream::drop_front;
use crate::stream::find_byte;
use crate::stream::index_of;
use crate::stream::lemma_find_byte;
use crate::stream::utf8_text;

verus! {

/// Outcome of one locked step on the shared buffer: finished with a value,
/// or unable to proceed until the peer side changes the buffer or goes away.
pub enum Step<T> {
    Done(T),
    Wait,
}

/// One locked write step. With no live reader the bytes could never be
/// drained, so the write fails at once. Otherwise it appends as much of
/// `data` as the buffer can still represent — a short count when the
/// representable ceiling cuts the write off — and reports how much that was;
/// only when nothing at all fits does the caller wait for space.
pub fn write_step(buffer: &mut Vec<u8>, data: &[u8], readers_alive: bool) -> (r: Step<
    Result<usize, StreamError>,
>)
    ensures
        old(buffer)@.len() <= usize::MAX,
        !readers_alive ==> r == Step::Done(Err::<usize, StreamError>(StreamError::BrokenPipe))
            && final(buffer)@ == old(buffer)@,
        readers_alive && (old(buffer)@.len() < usize::MAX || data@.len() == 0) ==> ({
            let k = vstd::math::min(data@.len() as int, usize::MAX - old(buffer)@.len());
            &&& r == Step::Done(Ok::<usize, StreamError>(k as usize))
            &&& final(buffer)@ == old(buffer)@ + data@.take(k)
        }),
        readers_alive && old(buffer)@.len() == usize::MAX && data@.len() > 0 ==> r is Wait
            && final(buffer)@ == old(buffer)@,
{
    let buffered = buffer.len();
    if !readers_alive {
        return Step::Done(Err(StreamError::BrokenPipe));
    }
    let avail = usize::MAX - buffered;
    if avail == 0 && data.len() > 0 {
        return Step::Wait;
    }
    let k = if data.len() < avail {
        data.len()
    } else {
        avail
    };
    append_prefix(buffer, data, k);
    Step::Done(Ok(k))
}

/// One locked write step that accepts nothing short of the whole of `data`:
/// it fails at once with no live reader, appends all of `data` when the
/// buffer can hold it, and otherwise asks the caller to wait for space.
pub fn write_all_step(buffer: &mut Vec<u8>, data: &[u8], readers_alive: bool) -> (r: Step<
    Result<(), StreamError>,
>)
    ensures
        !readers_alive ==> r == Step::Done(Err::<(), StreamError>(StreamError::BrokenPipe))
            && final(buffer)@ == old(buffer)@,
        readers_alive && old(buffer)@.len() + data@.len() <= usize::MAX ==> r == Step::Done(
            Ok::<(), StreamError>(()),
        ) && final(buffer)@ == old(buffer)@ + data@,
        readers_alive && old(buffer)@.len() + data@.len() > usize::MAX ==> r is Wait
            && final(buffer)@ == old(buffer)@,
{
    if !readers_alive {
        return Step::Done(Err(StreamError::BrokenPipe));
    }
    if data.len() <= usize::MAX - buffer.len() {
        append_prefix(buffer, data, data.len());
        proof {
            assert(data@.take(data@.len() as int) =~= data@);
        }
        Step::Done(Ok(()))
    } else {
        Step::Wait
    }
}

/// One locked read step. A non-empty buffer yields its first
/// `min(max_len, len)` bytes. An empty buffer yields nothing when no writer
/// is left (the stream has ended), and asks the caller to wait otherwise, so
/// that a transient empty buffer is never mistaken for the end.
pub fn read_step(buffer: &mut Vec<u8>, max_len: usize, writers_alive: bool) -> (r: Step<Vec<u8>>)
    ensures
        old(buffer)@.len() == 0 && writers_alive ==> r is Wait && final(buffer)@ == old(buffer)@,
        old(buffer)@.len() == 0 && !writers_alive ==> (r matches Step::Done(v) && v@
            == Seq::<u8>::empty()) && final(buffer)@ == old(buffer)@,
        old(buffer)@.len() > 0 ==> ({
            let k = vstd::math::min(max_len as int, old(buffer)@.len() as int);
            &&& r matches Step::Done(v) && v@ == old(buffer)@.take(k)
            &&& final(buffer)@ == old(buffer)@.skip(k)
        }),
{
    if buffer.len() == 0 {
        if writers_alive {
            return Step::Wait;
        }
        return Step::Done(Vec::new());
    }
    let k = if max_len < buffer.len() {
        max_len
    } else {
        buffer.len()
    };
    let v = copy_range(buffer.as_slice(), 0, k);
    drop_front(buffer, k);
    Step::Done(v)
}

/// One locked exact-length read step. With `n` bytes buffered they are
/// drained whole; with fewer and no writer left the read can never finish,
/// so it fails at once; with fewer but a writer still alive the caller waits.
pub fn read_exact_step(buffer: &mut Vec<u8>, n: usize, writers_alive: bool) -> (r: Step<
    Result<Vec<u8>, StreamError>,
>)
    ensures
        old(buffer)@.len() >= n ==> ({
            &&& r matches Step::Done(q) && q matches Ok(v) && v@ == old(buffer)@.take(n as int)
            &&& final(buffer)@ == old(buffer)@.skip(n as int)
        }),
        old(buffer)@.len() < n && !writers_alive ==> r == Step::Done(
            Err::<Vec<u8>, StreamError>(StreamError::UnexpectedEof),
        ) && final(buffer)@ == old(buffer)@,
        old(buffer)@.len() < n && writers_alive ==> r is Wait && final(buffer)@ == old(buffer)@,
{
    if buffer.len() >= n {
        let v = copy_range(buffer.as_slice(), 0, n);
        drop_front(buffer, n);
        Step::Done(Ok(v))
    } else if !writers_alive {
        Step::Done(Err(StreamError::UnexpectedEof))
    } else {
        Step::Wait
    }
}

/// One locked delimiter-scan step. When `delim` occurs, the bytes through
/// its first occurrence are drained and `true` is reported. When it does not
/// and no writer is left, everything left is drained and `false` is
/// reported. Otherwise the caller waits for more bytes.
pub fn read_until_step(buffer: &mut Vec<u8>, delim: u8, writers_alive: bool) -> (r: Step<
    (Vec<u8>, bool),
>)
    ensures
        (match find_byte(old(buffer)@, delim) {
            Some(i) => {
                &&& r matches Step::Done(p) && p.0@ == old(buffer)@.take(i + 1) && p.1 == true
                &&& final(buffer)@ == old(buffer)@.skip(i + 1)
            },
            None => {
                if writers_alive {
                    r is Wait && final(buffer)@ == old(buffer)@
                } else {
                    &&& r matches Step::Done(p) && p.0@ == old(buffer)@ && p.1 == false
                    &&& final(buffer)@ == Seq::<u8>::empty()
                }
            },
        }),
{
    proof {
        lemma_find_byte(buffer@, delim);
    }
    let blen = buffer.len();
    match index_of(delim, buffer.as_slice()) {
        Some(i) => {
            proof {
                assert(i < blen);
            }
            let v = copy_range(buffer.as_slice(), 0, i + 1);
            drop_front(buffer, i + 1);
            Step::Done((v, true))
        },
        None => {
            if writers_alive {
                Step::Wait
            } else {
                let n = buffer.len();
                let v = copy_range(buffer.as_slice(), 0, n);
                drop_front(buffer, n);
                proof {
                    assert(v@ =~= old(buffer)@);
                    assert(buffer@ =~= Seq::<u8>::empty());
                }
                Step::Done((v, false))
            }
        },
    }
}

/// One locked drain-everything step: once no writer is left, the whole
/// remaining buffer is drained in one piece; until then the caller waits.
pub fn read_to_end_step(buffer: &mut Vec<u8>, writers_alive: bool) -> (r: Step<Vec<u8>>)
    ensures
        writers_alive ==> r is Wait && final(buffer)@ == old(buffer)@,
        !writers_alive ==> (r matches Step::Done(v) && v@ == old(buffer)@) && final(buffer)@
            == Seq::<u8>::empty(),
{
    if writers_alive {
        return Step::Wait;
    }
    let n = buffer.len();
    let v = copy_range(buffer.as_slice(), 0, n);
    drop_front(buffer, n);
    proof {
        assert(v@ =~= old(buffer)@);
        assert(buffer@ =~= Seq::<u8>::empty());
    }
    Step::Done(v)
}

/// Marker whose shared allocations count live endpoints of one side of a
/// pipe: every live endpoint of that side holds one strong handle to its
/// side's tag, so the peer side can observe whether any are left.
pub(crate) struct EndTag {}

/// A weak handle watching one side's liveness tag. It holds a
/// `std::sync::Weak<EndTag>`, which Verus cannot take as a declared outside
/// type because its allocator parameter is unstable; the handle is therefore
/// opaque and everything known of it stands on the wrappers below.
#[verifier::external_body]
struct TagWatch {
    inner: std::sync::Weak<EndTag>,
}

/// Relies on `<Arc<T> as Clone>::clone`: the clone is a second handle to the
/// same allocation, so it holds the same value.
#[verifier::external_body]
fn arc_dup<T>(a: &std::sync::Arc<T>) -> (r: std::sync::Arc<T>)
    ensures
        r == *a,
{
    std::sync::Arc::clone(a)
}

/// Relies on `Arc::downgrade`: makes a weak handle that watches the
/// allocation behind `a` without keeping it alive.
#[verifier::external_body]
fn tag_watch(a: &std::sync::Arc<EndTag>) -> (r: TagWatch) {
    TagWatch { inner: std::sync::Arc::downgrade(a) }
}

/// Relies on `<Weak<T> as Clone>::clone`: the clone watches the same
/// allocation.
#[verifier::external_body]
fn watch_dup(w: &TagWatch) -> (r: TagWatch) {
    TagWatch { inner: w.inner.clone() }
}

/// Relies on `Weak::strong_count`: how many strong handles to the watched
/// allocation are alive at this moment. Another thread may change the answer
/// at any time, so nothing is promised of it; callers state what holds for
/// every answer.
#[verifier::external_body]
fn watch_count(w: &TagWatch) -> (r: usize) {
    w.inner.strong_count()
}

/// The lock on the shared buffer admits every byte sequence.
pub(crate) struct AnyBytes {}

impl vstd::rwlock::RwLockPredicate<Vec<u8>> for AnyBytes {
    open spec fn inv(self, v: Vec<u8>) -> bool {
        true
    }
}

/// The read end of a pipe: drains, in order, the bytes that the write ends
/// append to the shared buffer.
pub struct PipeRead {
    shared: std::sync::Arc<vstd::rwlock::RwLock<Vec<u8>, AnyBytes>>,
    mine: std::sync::Arc<EndTag>,
    peer: TagWatch,
    history: Ghost<Seq<u8>>,
}

/// The write end of a pipe: appends bytes to the shared buffer for the read
/// ends to drain in order.
pub struct PipeWrite {
    shared: std::sync::Arc<vstd::rwlock::RwLock<Vec<u8>, AnyBytes>>,
    mine: std::sync::Arc<EndTag>,
    peer: TagWatch,
    history: Ghost<Seq<u8>>,
}

/// True when the read endpoint and the write endpoint act on one shared
/// buffer: what the writer appends is what the reader drains.
pub closed spec fn shares_pipe(r: PipeRead, w: PipeWrite) -> bool {
    r.shared == w.shared
}

/// True when two read endpoints drain one shared buffer.
pub closed spec fn shares_read_side(a: PipeRead, b: PipeRead) -> bool {
    a.shared == b.shared
}

/// True when two write endpoints feed one shared buffer.
pub closed spec fn shares_write_side(a: PipeWrite, b: PipeWrite) -> bool {
    a.shared == b.shared
}

/// Sharing one buffer is preserved across duplication on either side.
pub proof fn lemma_shares_pipe_across_duplicates(
    a: PipeRead,
    b: PipeRead,
    v: PipeWrite,
    w: PipeWrite,
)
    requires
        shares_read_side(a, b),
        shares_write_side(v, w),
        shares_pipe(a, v),
    ensures
        shares_pipe(b, w),
{
}

/// Create a pipe: one shared, initially empty buffer, with one read endpoint
/// and one write endpoint bound to it.
pub fn mk_pipe() -> (r: (PipeRead, PipeWrite))
    ensures
        r.0.inv(),
        r.1.inv(),
        r.0.taken() == Seq::<u8>::empty(),
        r.1.sunk() == Seq::<u8>::empty(),
        shares_pipe(r.0, r.1),
{
    let lock = vstd::rwlock::RwLock::<Vec<u8>, AnyBytes>::new(Vec::new(), Ghost(AnyBytes {}));
    let shared = std::sync::Arc::new(lock);
    let shared2 = arc_dup(&shared);
    let read_tag = std::sync::Arc::new(EndTag {});
    let write_tag = std::sync::Arc::new(EndTag {});
    let watch_writers = tag_watch(&write_tag);
    let watch_readers = tag_watch(&read_tag);
    let r = PipeRead {
        shared,
        mine: read_tag,
        peer: watch_writers,
        history: Ghost(Seq::empty()),
    };
    let w = PipeWrite {
        shared: shared2,
        mine: write_tag,
        peer: watch_readers,
        history: Ghost(Seq::empty()),
    };
    (r, w)
}

impl PipeRead {
    /// A second read endpoint on the same pipe. Its own delivery history
    /// starts empty; while it lives, writes keep finding a live reader.
    pub fn duplicate(&self) -> (r: PipeRead)
        ensures
            r.inv(),
            r.taken() == Seq::<u8>::empty(),
            shares_read_side(*self, r),
    {
        PipeRead {
            shared: arc_dup(&self.shared),
            mine: arc_dup(&self.mine),
            peer: watch_dup(&self.peer),
            history: Ghost(Seq::empty()),
        }
    }

    /// Once no writer is left, drain everything still buffered into `out` in
    /// one piece and return the count — zero once the pipe is fully drained.
    /// While a writer lives, more bytes may still arrive, so the caller is
    /// asked to wait instead.
    pub fn read_to_end(&mut self, out: &mut Vec<u8>) -> (r: Result<usize, StreamError>)
        ensures
            (r matches Ok(k) ==> {
                let got = final(self).taken().skip(old(self).taken().len() as int);
                &&& got.len() == k
                &&& old(self).taken() + got == final(self).taken()
                &&& final(out)@ == old(out)@ + got
            }),
            (r matches Err(e) ==> e == StreamError::WouldBlock && final(self).taken() == old(
                self,
            ).taken() && final(out)@ == old(out)@),
    {
        let writers_alive = watch_count(&self.peer) > 0;
        let (mut buffer, handle) = self.shared.acquire_write();
        let step = read_to_end_step(&mut buffer, writers_alive);
        handle.release_write(buffer);
        match step {
            Step::Done(mut v) => {
                let ghost got = v@;
                self.history = Ghost(self.history@ + got);
                let count = v.len();
                out.append(&mut v);
                proof {
                    assert(self.taken().skip(old(self).taken().len() as int) =~= got);
                }
                Ok(count)
            },
            Step::Wait => Err(StreamError::WouldBlock),
        }
    }

    /// Like [`PipeRead::read_to_end`], but the drained bytes must be UTF-8
    /// text, which is appended to `out`. When they are not, nothing is
    /// consumed: the bytes stay buffered and `InvalidData` is reported.
    pub fn read_to_string(&mut self, out: &mut String) -> (r: Result<usize, StreamError>)
        ensures
            (r matches Ok(k) ==> {
                let got = final(self).taken().skip(old(self).taken().len() as int);
                &&& got.len() == k
                &&& old(self).taken() + got == final(self).taken()
                &&& (utf8_text(got) matches Some(t) && final(out)@ == old(out)@ + t)
            }),
            (r matches Err(e) ==> (e == StreamError::WouldBlock || e == StreamError::InvalidData)
                && final(self).taken() == old(self).taken() && final(out)@ == old(out)@),
    {
        let writers_alive = watch_count(&self.peer) > 0;
        let (mut buffer, handle) = self.shared.acquire_write();
        let step = read_to_end_step(&mut buffer, writers_alive);
        match step {
            Step::Done(v) => {
                let ghost got = v@;
                let count = v.len();
                match crate::stream::decode_utf8(v) {
                    Ok(s) => {
                        handle.release_write(buffer);
                        self.history = Ghost(self.history@ + got);
                        let mut joined = String::new();
                        core::mem::swap(out, &mut joined);
                        *out = joined.concat(s.as_str());
                        proof {
                            assert(self.taken().skip(old(self).taken().len() as int) =~= got);
                        }
                        Ok(count)
                    },
                    Err(b) => {
                        // The bytes are not text: put them back, untouched.
                        buffer = b;
                        handle.release_write(buffer);
                        Err(StreamError::InvalidData)
                    },
                }
            },
            Step::Wait => {
                handle.release_write(buffer);
                Err(StreamError::WouldBlock)
            },
        }
    }

    /// Read through the first newline and append what was read to `out` as
    /// text, returning the count of bytes read. The bytes must be UTF-8;
    /// they are consumed even when they are not, and `out` then stays
    /// unchanged.
    pub fn read_line(&mut self, out: &mut String) -> (r: Result<usize, StreamError>)
        ensures
            (r matches Ok(k) ==> {
                let got = final(self).taken().skip(old(self).taken().len() as int);
                &&& got.len() == k
                &&& old(self).taken() + got == final(self).taken()
                &&& (forall|i: int| 0 <= i < got.len() - 1 ==> got[i] != 10u8)
                &&& (utf8_text(got) matches Some(t) && final(out)@ == old(out)@ + t)
            }),
            (r matches Err(e) ==> final(out)@ == old(out)@),
            (r == Err::<usize, StreamError>(StreamError::InvalidData) ==> utf8_text(
                final(self).taken().skip(old(self).taken().len() as int),
            ) is None),
            (r matches Err(e) ==> e != StreamError::InvalidData ==> e == StreamError::WouldBlock
                && final(self).taken() == old(self).taken()),
    {
        let mut bytes: Vec<u8> = Vec::new();
        let count = match self.read_until(10u8, &mut bytes) {
            Ok(k) => k,
            Err(e) => {
                return Err(e);
            },
        };
        match crate::stream::decode_utf8(bytes) {
            Ok(s) => {
                let mut joined = String::new();
                core::mem::swap(out, &mut joined);
                *out = joined.concat(s.as_str());
                Ok(count)
            },
            Err(_) => Err(StreamError::InvalidData),
        }
    }
}

impl PipeWrite {
    /// A second write endpoint on the same pipe. Its own acceptance history
    /// starts empty; while it lives, reads keep waiting for more bytes
    /// rather than treating an empty buffer as the end of the stream.
    pub fn duplicate(&self) -> (r: PipeWrite)
        ensures
            r.inv(),
            r.sunk() == Seq::<u8>::empty(),
            shares_write_side(*self, r),
    {
        PipeWrite {
            shared: arc_dup(&self.shared),
            mine: arc_dup(&self.mine),
            peer: watch_dup(&self.peer),
            history: Ghost(Seq::empty()),
        }
    }

    /// Append as much of `data` as the buffer can still represent, returning
    /// how much that was, or fail at once when no read endpoint is left.
    /// Only when the buffer sits at its representable ceiling, so that
    /// nothing at all fits, is the caller asked to wait for space.
    pub fn write(&mut self, data: &[u8]) -> (r: Result<usize, StreamError>)
        ensures
            (r matches Ok(k) ==> k <= data@.len() && final(self).sunk() == old(self).sunk()
                + data@.take(k as int)),
            (r matches Err(e) ==> (e == StreamError::BrokenPipe || e == StreamError::WouldBlock)
                && final(self).sunk() == old(self).sunk()),
    {
        let readers_alive = watch_count(&self.peer) > 0;
        let (mut buffer, handle) = self.shared.acquire_write();
        let step = write_step(&mut buffer, data, readers_alive);
        handle.release_write(buffer);
        match step {
            Step::Done(Ok(k)) => {
                self.history = Ghost(self.history@ + data@.take(k as int));
                Ok(k)
            },
            Step::Done(Err(e)) => Err(e),
            Step::Wait => Err(StreamError::WouldBlock),
        }
    }
}

impl ByteSink for PipeWrite {
    open spec fn inv(&self) -> bool {
        true
    }

    closed spec fn sunk(&self) -> Seq<u8> {
        self.history@
    }

    fn write_all(&mut self, vals: &[u8]) -> (r: Result<(), StreamError>)
        ensures
            (r matches Err(e) ==> e == StreamError::BrokenPipe || e == StreamError::WouldBlock),
    {
        let readers_alive = watch_count(&self.peer) > 0;
        let (mut buffer, handle) = self.shared.acquire_write();
        let step = write_all_step(&mut buffer, vals, readers_alive);
        handle.release_write(buffer);
        match step {
            Step::Done(Ok(())) => {
                self.history = Ghost(self.history@ + vals@);
                Ok(())
            },
            Step::Done(Err(e)) => Err(e),
            Step::Wait => Err(StreamError::WouldBlock),
        }
    }

    fn flush(&mut self) -> (r: Result<(), StreamError>) {
        Ok(())
    }
}

impl ByteSource for PipeRead {
    open spec fn inv(&self) -> bool {
        true
    }

    closed spec fn taken(&self) -> Seq<u8> {
        self.history@
    }

    fn read(&mut self, max_len: usize) -> (r: Result<Vec<u8>, StreamError>)
        ensures
            (r matches Err(e) ==> e == StreamError::WouldBlock),
    {
        let writers_alive = watch_count(&self.peer) > 0;
        let (mut buffer, handle) = self.shared.acquire_write();
        let step = read_step(&mut buffer, max_len, writers_alive);
        handle.release_write(buffer);
        match step {
            Step::Done(v) => {
                self.history = Ghost(self.history@ + v@);
                Ok(v)
            },
            Step::Wait => Err(StreamError::WouldBlock),
        }
    }

    fn read_exact(&mut self, n: usize) -> (r: Result<Vec<u8>, StreamError>)
        ensures
            (r matches Err(e) ==> e == StreamError::UnexpectedEof || e
                == StreamError::WouldBlock),
    {
        let writers_alive = watch_count(&self.peer) > 0;
        let (mut buffer, handle) = self.shared.acquire_write();
        let step = read_exact_step(&mut buffer, n, writers_alive);
        handle.release_write(buffer);
        match step {
            Step::Done(Ok(v)) => {
                self.history = Ghost(self.history@ + v@);
                Ok(v)
            },
            Step::Done(Err(e)) => Err(e),
            Step::Wait => Err(StreamError::WouldBlock),
        }
    }

    fn read_until(&mut self, delim: u8, out: &mut Vec<u8>) -> (r: Result<usize, StreamError>)
        ensures
            (r matches Err(e) ==> e == StreamError::WouldBlock),
    {
        let writers_alive = watch_count(&self.peer) > 0;
        let (mut buffer, handle) = self.shared.acquire_write();
        let ghost before = buffer@;
        let step = read_until_step(&mut buffer, delim, writers_alive);
        handle.release_write(buffer);
        match step {
            Step::Done((mut v, _found)) => {
                let ghost got = v@;
                self.history = Ghost(self.history@ + got);
                let count = v.len();
                out.append(&mut v);
                proof {
                    lemma_find_byte(before, delim);
                    assert(self.taken().skip(old(self).taken().len() as int) =~= got);
                    assert(forall|i: int| 0 <= i < got.len() - 1 ==> got[i] != delim);
                }
                Ok(count)
            },
            Step::Wait => Err(StreamError::WouldBlock),
        }
    }
}

/// One operation on the shared buffer, as the locked steps perform it: a
/// write appends bytes at the back ([`write_step`], [`write_all_step`]), and
/// a read drains a count from the front — every read step's contract takes
/// and skips a front prefix of the buffer in exactly this shape.
pub enum PipeOp {
    Append(Seq<u8>),
    Drain(nat),
}

/// How many bytes `Drain(k)` takes from a buffer of length `len`.
pub open spec fn drain_count(len: nat, k: nat) -> int {
    if k <= len {
        k as int
    } else {
        len as int
    }
}

/// The buffer after one operation.
pub open spec fn op_buffer(buffer: Seq<u8>, op: PipeOp) -> Seq<u8> {
    match op {
        PipeOp::Append(data) => buffer + data,
        PipeOp::Drain(k) => buffer.skip(drain_count(buffer.len(), k)),
    }
}

/// What one operation delivers to its reader.
pub open spec fn op_output(buffer: Seq<u8>, op: PipeOp) -> Seq<u8> {
    match op {
        PipeOp::Append(data) => Seq::empty(),
        PipeOp::Drain(k) => buffer.take(drain_count(buffer.len(), k)),
    }
}

/// The buffer after a whole run of operations.
pub open spec fn run_buffer(buffer: Seq<u8>, ops: Seq<PipeOp>) -> Seq<u8>
    decreases ops.len(),
{
    if ops.len() == 0 {
        buffer
    } else {
        run_buffer(op_buffer(buffer, ops[0]), ops.skip(1))
    }
}

/// Everything a run of operations delivers, in delivery order.
pub open spec fn run_output(buffer: Seq<u8>, ops: Seq<PipeOp>) -> Seq<u8>
    decreases ops.len(),
{
    if ops.len() == 0 {
        Seq::empty()
    } else {
        op_output(buffer, ops[0]) + run_output(op_buffer(buffer, ops[0]), ops.skip(1))
    }
}

/// Everything a run of operations writes, in write order.
pub open spec fn appended(ops: Seq<PipeOp>) -> Seq<u8>
    decreases ops.len(),
{
    if ops.len() == 0 {
        Seq::empty()
    } else {
        (match ops[0] {
            PipeOp::Append(data) => data,
            PipeOp::Drain(_) => Seq::empty(),
        }) + appended(ops.skip(1))
    }
}

/// Order preservation: however appends and drains interleave, what the run
/// delivers, followed by what stays buffered, is exactly what was buffered
/// at the start followed by every appended byte, in append order. Reads only
/// rechunk the stream; they never reorder, drop or duplicate a byte.
pub proof fn lemma_order_preservation(buffer: Seq<u8>, ops: Seq<PipeOp>)
    ensures
        run_output(buffer, ops) + run_buffer(buffer, ops) == buffer + appended(ops),
    decreases ops.len(),
{
    if ops.len() == 0 {
        assert(run_output(buffer, ops) + run_buffer(buffer, ops) =~= buffer + appended(ops));
    } else {
        let b1 = op_buffer(buffer, ops[0]);
        lemma_order_preservation(b1, ops.skip(1));
        match ops[0] {
            PipeOp::Append(data) => {
                assert(op_output(buffer, ops[0]) + run_output(b1, ops.skip(1)) =~= run_output(
                    b1,
                    ops.skip(1),
                ));
                assert((buffer + data) + appended(ops.skip(1)) =~= buffer + (data + appended(
                    ops.skip(1),
                )));
            },
            PipeOp::Drain(k) => {
                let c = drain_count(buffer.len(), k);
                assert(buffer.take(c) + buffer.skip(c) =~= buffer);
                assert((buffer.take(c) + (run_output(b1, ops.skip(1)) + run_buffer(
                    b1,
                    ops.skip(1),
                ))) =~= (buffer.take(c) + run_output(b1, ops.skip(1))) + run_buffer(
                    b1,
                    ops.skip(1),
                ));
                assert(buffer.take(c) + (buffer.skip(c) + appended(ops.skip(1))) =~= buffer
                    + appended(ops.skip(1)));
            },
        }
    }
}

/// A reader that has drained the pipe received exactly the bytes written, in
/// write order, however its reads were chunked.
pub proof fn lemma_fifo_delivery(ops: Seq<PipeOp>)
    requires
        run_buffer(Seq::empty(), ops) == Seq::<u8>::empty(),
    ensures
        run_output(Seq::empty(), ops) == appended(ops),
{
    lemma_order_preservation(Seq::empty(), ops);
    assert(run_output(Seq::empty(), ops) + run_buffer(Seq::empty(), ops) =~= run_output(
        Seq::empty(),
        ops,
    ));
    assert(Seq::empty() + appended(ops) =~= appended(ops));
}

/// Idempotent drain: one drain of the whole buffer empties it, and every
/// further drain of an emptied buffer delivers nothing.
pub proof fn lemma_drain_idempotent(buffer: Seq<u8>, k: nat)
    ensures
        op_buffer(buffer, PipeOp::Drain(buffer.len())) == Seq::<u8>::empty(),
        op_output(op_buffer(buffer, PipeOp::Drain(buffer.len())), PipeOp::Drain(k))
            == Seq::<u8>::empty(),
{
    assert(op_buffer(buffer, PipeOp::Drain(buffer.len())) =~= Seq::<u8>::empty());
    assert(op_output(op_buffer(buffer, PipeOp::Drain(buffer.len())), PipeOp::Drain(k))
        =~= Seq::<u8>::empty());
}

} // verus!
