//! Byte sources and sinks: the capability interfaces that the codecs read
//! from and write to, an in-memory implementation of each, and the scan and
//! copy helpers shared with the pipe. A source is modelled by `taken()`, the
//! bytes it has handed out so far; a sink by `sunk()`, the bytes it has
//! accepted. Every contract relates those histories to what a call returns.

use vstd::prelude::*;
use vstd::string::StringExecFns;

verus! {

/// Why a stream operation could not deliver what was asked of it.
#[derive(Clone, Copy, Debug, PartialEq, Eq, Structural)]
pub enum StreamError {
    /// A write found no live read endpoint, so its bytes could never be read.
    BrokenPipe,
    /// An exact-length read asked for more bytes than can ever arrive.
    UnexpectedEof,
    /// Bytes that were supposed to be text did not decode.
    InvalidData,
    /// The operation cannot make progress yet; it may once the peer endpoint
    /// acts. Callers that want to block retry after the peer makes progress.
    WouldBlock,
}

/// First position of `value` in `s`, if any.
pub open spec fn find_byte(s: Seq<u8>, value: u8) -> Option<int>
    decreases s.len(),
{
    if s.len() == 0 {
        None
    } else if s[0] == value {
        Some(0)
    } else {
        match find_byte(s.skip(1), value) {
            Some(i) => Some(i + 1),
            None => None,
        }
    }
}

/// `find_byte` returns the first position of `value`, or `None` when `value`
/// does not occur.
pub proof fn lemma_find_byte(s: Seq<u8>, value: u8)
    ensures
        match find_byte(s, value) {
            Some(i) => 0 <= i < s.len() && s[i] == value && (forall|j: int|
                0 <= j < i ==> s[j] != value),
            None => forall|j: int| 0 <= j < s.len() ==> s[j] != value,
        },
    decreases s.len(),
{
    if s.len() > 0 && s[0] != value {
        let t = s.skip(1);
        lemma_find_byte(t, value);
        assert(forall|j: int| 0 <= j < t.len() ==> t[j] == s[j + 1]);
        match find_byte(t, value) {
            Some(i) => {
                assert(s[i + 1] == t[i]);
                assert forall|j: int| 0 <= j < i + 1 implies s[j] != value by {
                    if j > 0 {
                        assert(s[j] == t[j - 1]);
                    }
                }
            },
            None => {
                assert forall|j: int| 0 <= j < s.len() implies s[j] != value by {
                    if j > 0 {
                        assert(s[j] == t[j - 1]);
                    }
                }
            },
        }
    }
}

/// Position of `value` in `buf`, scanning from the front.
pub fn index_of(value: u8, buf: &[u8]) -> (r: Option<usize>)
    ensures
        match r {
            Some(i) => find_byte(buf@, value) == Some(i as int),
            None => find_byte(buf@, value) is None,
        },
{
    proof {
        lemma_find_byte(buf@, value);
    }
    let n = buf.len();
    let mut i: usize = 0;
    while i < n
        invariant
            n == buf@.len(),
            0 <= i <= n,
            forall|j: int| 0 <= j < i ==> buf@[j] != value,
        decreases n - i,
    {
        if buf[i] == value {
            proof {
                lemma_find_byte(buf@, value);
            }
            return Some(i);
        }
        i = i + 1;
    }
    None
}

/// Copy of `v[from..to]` as a fresh vector.
pub fn copy_range(v: &[u8], from: usize, to: usize) -> (r: Vec<u8>)
    requires
        from <= to <= v@.len(),
    ensures
        r@ == v@.subrange(from as int, to as int),
{
    let mut r: Vec<u8> = Vec::new();
    let mut i: usize = from;
    while i < to
        invariant
            from <= i <= to <= v@.len(),
            r@ == v@.subrange(from as int, i as int),
        decreases to - i,
    {
        r.push(v[i]);
        i = i + 1;
        proof {
            assert(r@ =~= v@.subrange(from as int, i as int));
        }
    }
    r
}

/// Append the first `k` bytes of `s` to `v`.
pub fn append_prefix(v: &mut Vec<u8>, s: &[u8], k: usize)
    requires
        k <= s@.len(),
    ensures
        final(v)@ == old(v)@ + s@.take(k as int),
{
    let mut i: usize = 0;
    while i < k
        invariant
            0 <= i <= k <= s@.len(),
            v@.len() == old(v)@.len() + i,
            v@ == old(v)@ + s@.take(i as int),
        decreases k - i,
    {
        v.push(s[i]);
        i = i + 1;
        proof {
            assert(v@ =~= old(v)@ + s@.take(i as int));
        }
    }
}

/// Remove the first `k` bytes of `v`, keeping the rest in order.
pub fn drop_front(v: &mut Vec<u8>, k: usize)
    requires
        k <= old(v)@.len(),
    ensures
        final(v)@ == old(v)@.skip(k as int),
{
    let mut tail = v.split_off(k);
    core::mem::swap(v, &mut tail);
}

/// A supplier of bytes in a fixed order.
///
/// `taken()` is the model: every byte the source has handed out so far, in
/// the order it was handed out. Each successful read extends it by exactly
/// the bytes returned, and a failed read leaves it unchanged.
pub trait ByteSource: Sized {
    /// Well-formedness, preserved by every operation.
    spec fn inv(&self) -> bool;

    /// All bytes this source has delivered so far, oldest first.
    spec fn taken(&self) -> Seq<u8>;

    /// Deliver at most `max_len` bytes. An empty result means the stream has
    /// ended; sources that may still receive bytes report `WouldBlock`
    /// instead of returning an empty result early.
    fn read(&mut self, max_len: usize) -> (r: Result<Vec<u8>, StreamError>)
        requires
            old(self).inv(),
        ensures
            final(self).inv(),
            (r matches Ok(v) ==> v@.len() <= max_len && final(self).taken() == old(self).taken()
                + v@),
            r is Err ==> final(self).taken() == old(self).taken(),
    ;

    /// Deliver exactly `n` bytes, or fail without consuming anything.
    fn read_exact(&mut self, n: usize) -> (r: Result<Vec<u8>, StreamError>)
        requires
            old(self).inv(),
        ensures
            final(self).inv(),
            (r matches Ok(v) ==> v@.len() == n && final(self).taken() == old(self).taken() + v@),
            r is Err ==> final(self).taken() == old(self).taken(),
    ;

    /// Deliver bytes through the first `delim`, appending them to `out` and
    /// returning how many were appended. When the stream ends before any
    /// `delim` appears, whatever remains is appended instead, so only the
    /// last appended byte can be `delim`.
    fn read_until(&mut self, delim: u8, out: &mut Vec<u8>) -> (r: Result<usize, StreamError>)
        requires
            old(self).inv(),
        ensures
            final(self).inv(),
            (r matches Ok(k) ==> {
                let got = final(self).taken().skip(old(self).taken().len() as int);
                &&& got.len() == k
                &&& old(self).taken() + got == final(self).taken()
                &&& final(out)@ == old(out)@ + got
                &&& forall|i: int| 0 <= i < got.len() - 1 ==> got[i] != delim
            }),
            r is Err ==> final(self).taken() == old(self).taken() && final(out)@ == old(out)@,
            (r matches Err(e) ==> e != StreamError::InvalidData),
    ;
}

/// A consumer of bytes in a fixed order.
///
/// `sunk()` is the model: every byte accepted so far, in the order it was
/// accepted. A successful write appends exactly its bytes; a failed write
/// accepts nothing.
pub trait ByteSink: Sized {
    /// Well-formedness, preserved by every operation.
    spec fn inv(&self) -> bool;

    /// All bytes this sink has accepted so far, oldest first.
    spec fn sunk(&self) -> Seq<u8>;

    /// Accept all of `vals`, or fail without accepting anything.
    fn write_all(&mut self, vals: &[u8]) -> (r: Result<(), StreamError>)
        requires
            old(self).inv(),
        ensures
            final(self).inv(),
            r is Ok ==> final(self).sunk() == old(self).sunk() + vals@,
            r is Err ==> final(self).sunk() == old(self).sunk(),
    ;

    /// Push buffered bytes onward. The sinks of this crate buffer nothing,
    /// so this accepts no bytes and never fails.
    fn flush(&mut self) -> (r: Result<(), StreamError>)
        requires
            old(self).inv(),
        ensures
            final(self).inv(),
            final(self).sunk() == old(self).sunk(),
            r is Ok,
    ;
}

/// The text that `bytes` decode to as UTF-8, when they are valid UTF-8.
pub uninterp spec fn utf8_text(bytes: Seq<u8>) -> Option<Seq<char>>;

/// Relies on `String::from_utf8`: decodes the bytes as UTF-8 text. The
/// outcome is a function of the bytes alone; it fails exactly when they are
/// not UTF-8, and then the bytes come back unchanged.
#[verifier::external_body]
pub(crate) fn decode_utf8(bytes: Vec<u8>) -> (r: Result<String, Vec<u8>>)
    ensures
        (r matches Ok(s) ==> utf8_text(bytes@) == Some(s@)),
        (r matches Err(b) ==> b@ == bytes@ && utf8_text(bytes@) is None),
{
    match String::from_utf8(bytes) {
        Ok(s) => Ok(s),
        Err(e) => Err(e.into_bytes()),
    }
}

/// Read through the first newline and append what was read to `out` as text.
/// Fails with `InvalidData` when the bytes read are not UTF-8 — they are
/// consumed either way, as the count of a partial line would otherwise be
/// lost — and leaves `out` unchanged on every failure.
pub fn read_line_from<S: ByteSource>(src: &mut S, out: &mut String) -> (r: Result<
    usize,
    StreamError,
>)
    requires
        old(src).inv(),
    ensures
        final(src).inv(),
        old(src).taken().is_prefix_of(final(src).taken()),
        (r matches Ok(k) ==> {
            let got = final(src).taken().skip(old(src).taken().len() as int);
            &&& got.len() == k
            &&& old(src).taken() + got == final(src).taken()
            &&& (forall|i: int| 0 <= i < got.len() - 1 ==> got[i] != 10u8)
            &&& (utf8_text(got) matches Some(t) && final(out)@ == old(out)@ + t)
        }),
        (r matches Err(e) ==> final(out)@ == old(out)@),
        (r == Err::<usize, StreamError>(StreamError::InvalidData) ==> utf8_text(
            final(src).taken().skip(old(src).taken().len() as int),
        ) is None),
        (r matches Err(e) ==> e != StreamError::InvalidData ==> final(src).taken() == old(
            src,
        ).taken()),
{
    let mut bytes: Vec<u8> = Vec::new();
    let count = match src.read_until(10u8, &mut bytes) {
        Ok(k) => k,
        Err(e) => {
            return Err(e);
        },
    };
    match decode_utf8(bytes) {
        Ok(s) => {
            let mut joined = String::new();
            core::mem::swap(out, &mut joined);
            *out = joined.concat(s.as_str());
            Ok(count)
        },
        Err(_) => Err(StreamError::InvalidData),
    }
}
pub struct VecSource {
    data: Vec<u8>,
    pos: usize,
}

impl VecSource {
    /// Bytes not yet delivered.
    pub closed spec fn remaining(&self) -> Seq<u8> {
        self.data@.skip(self.pos as int)
    }

    /// A source that will deliver exactly the bytes of `data`.
    pub fn new(data: Vec<u8>) -> (r: Self)
        ensures
            r.inv(),
            r.taken() == Seq::<u8>::empty(),
            r.remaining() == data@,
    {
        let r = VecSource { data, pos: 0 };
        proof {
            assert(r.taken() =~= Seq::<u8>::empty());
            assert(r.remaining() =~= r.data@);
        }
        r
    }
}

impl ByteSource for VecSource {
    closed spec fn inv(&self) -> bool {
        self.pos <= self.data@.len()
    }

    closed spec fn taken(&self) -> Seq<u8> {
        self.data@.take(self.pos as int)
    }

    fn read(&mut self, max_len: usize) -> (r: Result<Vec<u8>, StreamError>)
        ensures
            (r matches Ok(v) ==> v@ == old(self).remaining().take(
                vstd::math::min(max_len as int, old(self).remaining().len() as int),
            )),
            r is Ok,
    {
        let avail = self.data.len() - self.pos;
        let k = if max_len < avail {
            max_len
        } else {
            avail
        };
        let v = copy_range(self.data.as_slice(), self.pos, self.pos + k);
        self.pos = self.pos + k;
        proof {
            assert(self.taken() =~= old(self).taken() + v@);
            assert(v@ =~= old(self).remaining().take(
                vstd::math::min(max_len as int, old(self).remaining().len() as int),
            ));
        }
        Ok(v)
    }

    fn read_exact(&mut self, n: usize) -> (r: Result<Vec<u8>, StreamError>)
        ensures
            r is Ok <==> n <= old(self).remaining().len(),
            (r matches Ok(v) ==> v@ == old(self).remaining().take(n as int)),
            (r matches Err(e) ==> e == StreamError::UnexpectedEof),
    {
        let avail = self.data.len() - self.pos;
        if n > avail {
            return Err(StreamError::UnexpectedEof);
        }
        let v = copy_range(self.data.as_slice(), self.pos, self.pos + n);
        self.pos = self.pos + n;
        proof {
            assert(self.taken() =~= old(self).taken() + v@);
            assert(v@ =~= old(self).remaining().take(n as int));
        }
        Ok(v)
    }

    fn read_until(&mut self, delim: u8, out: &mut Vec<u8>) -> (r: Result<usize, StreamError>)
        ensures
            r is Ok,
            (r matches Ok(k) ==> match find_byte(old(self).remaining(), delim) {
                Some(i) => k == i + 1,
                None => k == old(self).remaining().len(),
            }),
    {
        let n = self.data.len();
        let rest = &self.data.as_slice()[self.pos..n];
        proof {
            lemma_find_byte(rest@, delim);
        }
        let k = match index_of(delim, rest) {
            Some(i) => i + 1,
            None => rest.len(),
        };
        let mut got = copy_range(rest, 0, k);
        let ghost got_view = got@;
        self.pos = self.pos + k;
        let count = got.len();
        out.append(&mut got);
        proof {
            assert(self.taken() =~= old(self).taken() + got_view);
            assert(self.taken().skip(old(self).taken().len() as int) =~= got_view);
        }
        Ok(count)
    }
}

/// An in-memory byte sink: accepts bytes into a growing vector.
pub struct VecSink {
    data: Vec<u8>,
}

impl VecSink {
    /// An empty sink.
    pub fn new() -> (r: Self)
        ensures
            r.inv(),
            r.sunk() == Seq::<u8>::empty(),
    {
        VecSink { data: Vec::new() }
    }

    /// The bytes accepted so far.
    pub fn data(&self) -> (r: &Vec<u8>)
        ensures
            r@ == self.sunk(),
    {
        &self.data
    }

    /// The bytes accepted so far, surrendering the sink.
    pub fn into_inner(self) -> (r: Vec<u8>)
        ensures
            r@ == self.sunk(),
    {
        self.data
    }
}

impl ByteSink for VecSink {
    closed spec fn inv(&self) -> bool {
        true
    }

    closed spec fn sunk(&self) -> Seq<u8> {
        self.data@
    }

    fn write_all(&mut self, vals: &[u8]) -> (r: Result<(), StreamError>)
        ensures
            r is Ok,
    {
        append_prefix(&mut self.data, vals, vals.len());
        proof {
            assert(vals@.take(vals@.len() as int) =~= vals@);
        }
        Ok(())
    }

    fn flush(&mut self) -> (r: Result<(), StreamError>) {
        Ok(())
    }
}

} // verus!
