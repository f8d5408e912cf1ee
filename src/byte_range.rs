use vstd::prelude::*;

verus! {

/// `n` zero bytes.
pub open spec fn zeros(n: nat) -> Seq<u8> {
    Seq::new(n, |i: int| 0u8)
}

/// The buffer that results from writing `rep` into `buf` at `offset`.
///
/// Past the end the buffer first grows with zero bytes up to `offset`; a
/// replacement that runs past the end cuts the old tail; one that fits keeps
/// the bytes on both sides of it.
pub open spec fn spliced(buf: Seq<u8>, offset: nat, rep: Seq<u8>) -> Seq<u8> {
    if offset >= buf.len() {
        buf + zeros((offset - buf.len()) as nat) + rep
    } else if offset + rep.len() > buf.len() {
        buf.take(offset as int) + rep
    } else {
        buf.take(offset as int) + rep + buf.skip((offset + rep.len()) as int)
    }
}

/// The buffer with its first `offset` bytes kept, or zero bytes where it is shorter.
spec fn head_or_zeros(buf: Seq<u8>, offset: nat) -> Seq<u8> {
    Seq::new(offset, |k: int| if k < buf.len() { buf[k] } else { 0u8 })
}

proof fn lemma_head_or_zeros(buf: Seq<u8>, offset: nat)
    ensures
        offset >= buf.len() ==> head_or_zeros(buf, offset) == buf + zeros(
            (offset - buf.len()) as nat,
        ),
        offset < buf.len() ==> head_or_zeros(buf, offset) == buf.take(offset as int),
{
    if offset >= buf.len() {
        assert(head_or_zeros(buf, offset) =~= buf + zeros((offset - buf.len()) as nat));
    } else {
        assert(head_or_zeros(buf, offset) =~= buf.take(offset as int));
    }
}

/// Writes `rep` into `data` at `offset` and returns the number of bytes written,
/// which is always the whole of `rep`.
pub fn splice(data: &mut Vec<u8>, offset: usize, rep: &[u8]) -> (r: usize)
    ensures
        final(data)@ == spliced(old(data)@, offset as nat, rep@),
        r == rep@.len(),
{
    let n = data.len();
    let mut out: Vec<u8> = Vec::new();
    let mut i: usize = 0;
    while i < offset
        invariant
            n == data@.len(),
            i <= offset,
            out@ == head_or_zeros(data@, i as nat),
        decreases offset - i,
    {
        if i < n {
            out.push(data[i]);
        } else {
            out.push(0u8);
        }
        assert(out@ =~= head_or_zeros(data@, (i + 1) as nat));
        i = i + 1;
    }
    proof {
        lemma_head_or_zeros(data@, offset as nat);
    }
    let ghost head = out@;
    let mut j: usize = 0;
    while j < rep.len()
        invariant
            j <= rep@.len(),
            out@ == head + rep@.take(j as int),
        decreases rep@.len() - j,
    {
        out.push(rep[j]);
        assert(out@ =~= head + rep@.take(j + 1));
        j = j + 1;
    }
    assert(rep@.take(rep@.len() as int) =~= rep@);
    if offset <= n && rep.len() <= n - offset {
        let start = offset + rep.len();
        let ghost mid = out@;
        let mut k: usize = start;
        while k < n
            invariant
                n == data@.len(),
                start <= k <= n,
                out@ == mid + data@.subrange(start as int, k as int),
            decreases n - k,
        {
            out.push(data[k]);
            assert(out@ =~= mid + data@.subrange(start as int, k + 1));
            k = k + 1;
        }
        assert(data@.skip(start as int) =~= data@.subrange(start as int, n as int));
    }
    *data = out;
    rep.len()
}

/// Writing the bytes that already stand at `offset` leaves the buffer as it was.
pub proof fn lemma_splice_same_bytes(buf: Seq<u8>, offset: nat, rep: Seq<u8>)
    requires
        offset + rep.len() <= buf.len(),
        buf.subrange(offset as int, (offset + rep.len()) as int) == rep,
    ensures
        spliced(buf, offset, rep) == buf,
{
    if offset >= buf.len() {
        assert(spliced(buf, offset, rep) =~= buf);
    } else {
        assert(spliced(buf, offset, rep) =~= buf);
    }
}

/// The bytes that a read of `size` bytes at `offset` sees: a start past the end
/// (or before the start) gives nothing, and the end is clamped to the content.
pub open spec fn read_window(data: Seq<u8>, offset: int, size: nat) -> Seq<u8> {
    let start = if offset < 0 || offset > data.len() {
        data.len() as int
    } else {
        offset
    };
    let end = if start + size > data.len() {
        data.len() as int
    } else {
        start + size
    };
    data.subrange(start, end)
}

/// The part of `data` that a read of `size` bytes at `offset` returns.
pub fn read_range(data: &[u8], offset: i64, size: u32) -> (r: &[u8])
    ensures
        r@ == read_window(data@, offset as int, size as nat),
{
    let len = data.len();
    let start: usize = if offset < 0 || offset as u64 > len as u64 {
        len
    } else {
        offset as usize
    };
    let end: usize = if size as usize > len - start {
        len
    } else {
        start + size as usize
    };
    vstd::slice::slice_subrange(data, start, end)
}

/// `buf` cut or grown with zero bytes to `size` bytes.
pub open spec fn resized(buf: Seq<u8>, size: nat) -> Seq<u8> {
    if size <= buf.len() {
        buf.take(size as int)
    } else {
        buf + zeros((size - buf.len()) as nat)
    }
}

/// Cuts `data` or grows it with zero bytes so that it holds `size` bytes.
pub fn resize(data: &mut Vec<u8>, size: usize)
    ensures
        final(data)@ == resized(old(data)@, size as nat),
{
    if size <= data.len() {
        data.truncate(size);
    } else {
        let ghost start = data@;
        while data.len() < size
            invariant
                start.len() <= data@.len() <= size,
                data@ == start + zeros((data@.len() - start.len()) as nat),
            decreases size - data@.len(),
        {
            data.push(0u8);
            assert(data@ =~= start + zeros((data@.len() - start.len()) as nat));
        }
    }
}

} // verus!
