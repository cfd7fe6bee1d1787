//! Splitting a program binary into fixed-size write chunks. Chunk `i` always
//! covers the bytes from offset `i * chunk_size`; the last chunk may be
//! shorter. Chunks target disjoint byte ranges, so they may be submitted and
//! confirmed in any order.

use vstd::prelude::*;

verus! {

/// Maximum payload carried by one write transaction. A ledger transaction is
/// capped at 1232 bytes; after the header, signatures and instruction
/// overhead, 900 bytes of chunk data are safe.
pub const CHUNK_SIZE: usize = 900;

/// One write chunk: a byte offset into the buffer account and the bytes to
/// store there.
#[derive(Clone, Debug)]
pub struct Chunk {
    pub offset: u32,
    pub data: Vec<u8>,
}

/// How many chunks a `len`-byte binary yields at a given chunk size: the
/// quotient rounded up.
pub open spec fn spec_chunk_count(len: int, chunk_size: int) -> int {
    (len + chunk_size - 1) / chunk_size
}

/// Splits `data` into chunks of `chunk_size` bytes, the last one shorter if
/// the length is no multiple. Chunk `i` starts at offset `i * chunk_size` and
/// carries exactly the bytes of `data` from there; together the chunks cover
/// `data` completely and disjointly.
pub fn chunk_program(data: &Vec<u8>, chunk_size: usize) -> (r: Vec<Chunk>)
    requires
        chunk_size > 0,
        data@.len() <= u32::MAX,
    ensures
        r@.len() == spec_chunk_count(data@.len() as int, chunk_size as int),
        forall|i: int|
            0 <= i < r@.len() ==> (#[trigger] r@[i]).offset == i * (chunk_size as int),
        forall|i: int|
            0 <= i < r@.len() ==> (#[trigger] r@[i]).data@ =~= data@.subrange(
                i * (chunk_size as int),
                if (i + 1) * (chunk_size as int) <= data@.len() {
                    (i + 1) * (chunk_size as int)
                } else {
                    data@.len() as int
                },
            ),
{
    let len: usize = data.len();
    let mut chunks: Vec<Chunk> = Vec::new();
    let mut off: usize = 0;
    proof {
        assert(chunks@.len() == 0);
        assert(chunks@.len() * (chunk_size as int) == 0);
    }
    while off < len
        invariant
            chunk_size > 0,
            len == data@.len() <= u32::MAX,
            off == if chunks@.len() * (chunk_size as int) <= len {
                chunks@.len() * (chunk_size as int)
            } else {
                len as int
            },
            chunks@.len() > 0 ==> (chunks@.len() - 1) * (chunk_size as int) < len,
            forall|i: int|
                0 <= i < chunks@.len() ==> (#[trigger] chunks@[i]).offset == i * (chunk_size
                    as int),
            forall|i: int|
                0 <= i < chunks@.len() ==> (#[trigger] chunks@[i]).data@ =~= data@.subrange(
                    i * (chunk_size as int),
                    if (i + 1) * (chunk_size as int) <= len {
                        (i + 1) * (chunk_size as int)
                    } else {
                        len as int
                    },
                ),
        decreases len - off,
    {
        proof {
            let n = chunks@.len() as int;
            let cs = chunk_size as int;
            assert(n * cs <= len) by (nonlinear_arith)
                requires
                    cs > 0,
                    n >= 0,
                    off < len,
                    off == if n * cs <= len {
                        n * cs
                    } else {
                        len as int
                    },
            ;
        }
        let end: usize = if len - off > chunk_size {
            off + chunk_size
        } else {
            len
        };
        let ghost old_chunks = chunks@;
        let mut piece: Vec<u8> = Vec::new();
        let mut j: usize = off;
        while j < end
            invariant
                off <= j <= end <= len == data@.len(),
                piece@ =~= data@.subrange(off as int, j as int),
            decreases end - j,
        {
            piece.push(data[j]);
            proof {
                assert(piece@ =~= data@.subrange(off as int, j as int + 1));
            }
            j = j + 1;
        }
        chunks.push(Chunk { offset: off as u32, data: piece });
        off = end;
        proof {
            let n = old_chunks.len() as int;
            let cs = chunk_size as int;
            assert(chunks@ =~= old_chunks.push(chunks@[n]));
            assert((n + 1) * cs == n * cs + cs) by (nonlinear_arith);
            assert(chunks@[n].offset == n * cs);
            assert(chunks@[n].data@ =~= data@.subrange(
                n * cs,
                if (n + 1) * cs <= len {
                    (n + 1) * cs
                } else {
                    len as int
                },
            ));
        }
    }
    proof {
        let n = chunks@.len() as int;
        let cs = chunk_size as int;
        let l = data@.len() as int;
        if l == 0 {
            assert(n == 0);
            assert((0 + cs - 1) / cs == 0) by (nonlinear_arith)
                requires
                    cs > 0,
            ;
        } else {
            assert(n * cs >= l);
            assert(n > 0);
            assert((n - 1) * cs < l);
            assert((l + cs - 1) / cs == n) by (nonlinear_arith)
                requires
                    cs > 0,
                    l > 0,
                    n * cs >= l,
                    (n - 1) * cs < l,
            ;
        }
    }
    chunks
}

} // verus!
