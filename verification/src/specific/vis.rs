use vstd::prelude::*;

use crate::error::ReadError;

verus! {

/// Bit `i` (least-significant first) of `byte`.
pub open spec fn nth_bit(byte: u8, i: int) -> bool {
    (byte >> (i as u8)) & 1 != 0
}

/// `out` with positions `c` to `c + 7` replaced by the bits of `byte`,
/// least-significant bit first; positions past the end of `out` are dropped.
pub open spec fn set_bits(out: Seq<bool>, c: int, byte: u8) -> Seq<bool> {
    Seq::new(
        out.len(),
        |j: int|
            if c <= j < c + 8 {
                nth_bit(byte, j - c)
            } else {
                out[j]
            },
    )
}

/// One run of the run-length visibility decoder, reading `inp` from position
/// `v` with output cluster cursor `c`, cluster count `n` and output built so
/// far `out`.  A zero input byte means: take the next byte as a repeat count
/// `k` and skip `8 * k` invisible clusters.  A non-zero byte carries 8
/// literal bits, least-significant first.  Decoding stops as soon as `c`
/// reaches `n`; a literal byte whose bits would pass `n` is truncated and
/// flagged as an overrun (the second component) instead of failing.  `None`
/// means the input ran out before `c` reached `n`.
pub open spec fn vis_rec(inp: Seq<u8>, v: int, c: int, n: int, out: Seq<bool>) -> Option<
    (Seq<bool>, bool),
>
    decreases inp.len() - v,
{
    if c >= n {
        Some((out, false))
    } else if v < 0 || v >= inp.len() {
        None
    } else if inp[v] == 0 {
        if v + 1 >= inp.len() {
            None
        } else {
            vis_rec(inp, v + 2, c + 8 * (inp[v + 1] as int), n, out)
        }
    } else {
        let newout = set_bits(out, c, inp[v]);
        if c + 8 > n {
            Some((newout, true))
        } else {
            vis_rec(inp, v + 1, c + 8, n, newout)
        }
    }
}

/// The whole decompressed run starting at position `start`: for each of the
/// `n` clusters, whether it is marked, plus the overrun flag.
pub open spec fn spec_decompress_vis(inp: Seq<u8>, start: int, n: int) -> Option<
    (Seq<bool>, bool),
> {
    vis_rec(inp, start, 0, n, Seq::new(n as nat, |j: int| false))
}

/// Decompress one run-length-compressed cluster set from `bytes`, starting
/// at `start`, into one boolean per cluster.  Returns the decompressed set
/// and whether a literal byte overran the cluster count (a non-fatal,
/// recorded condition).  Fails exactly when the input runs out before the
/// cluster cursor reaches `num_clusters`.
pub fn decompress_vis(bytes: &Vec<u8>, start: usize, num_clusters: usize) -> (r: Result<
    (Vec<bool>, bool),
    ReadError,
>)
    ensures
        ({
            let res = spec_decompress_vis(bytes@, start as int, num_clusters as int);
            &&& (r is Ok <==> res is Some)
            &&& (r matches Ok(p) ==> p.0@ == res->Some_0.0 && p.1 == res->Some_0.1)
            &&& (r matches Err(e) ==> e is OutOfBounds)
        }),
{
    let ghost b = bytes@;
    let ghost n = num_clusters as int;
    let mut out: Vec<bool> = Vec::new();
    while out.len() < num_clusters
        invariant
            out@.len() <= num_clusters,
            out@ =~= Seq::new(out@.len(), |j: int| false),
        decreases num_clusters - out@.len(),
    {
        out.push(false);
    }
    assert(out@ =~= Seq::new(num_clusters as nat, |j: int| false));
    let len = bytes.len();
    let mut c: usize = 0;
    let mut v: usize = start;
    while c < num_clusters
        invariant
            bytes@ == b,
            n == num_clusters as int,
            len == b.len(),
            out@.len() == num_clusters,
            c <= num_clusters,
            spec_decompress_vis(b, start as int, n) == vis_rec(b, v as int, c as int, n, out@),
        decreases b.len() - v,
    {
        if v >= len {
            return Err(ReadError::OutOfBounds { position: v, wanted: 1 });
        }
        let byte = bytes[v];
        if byte == 0 {
            if v + 1 >= len {
                return Err(ReadError::OutOfBounds { position: v, wanted: 2 });
            }
            let run: usize = (bytes[v + 1] as usize) * 8;
            let ghost c_spec = c + 8 * (b[v as int + 1] as int);
            if run > num_clusters - c {
                proof {
                    assert(vis_rec(b, v as int + 2, c_spec, n, out@) == Some((out@, false)));
                }
                c = num_clusters;
            } else {
                c = c + run;
            }
            v = v + 2;
        } else {
            let ghost old_out = out@;
            let mut k: usize = 0;
            while k < 8 && c + k < num_clusters
                invariant
                    k <= 8,
                    c + k <= num_clusters,
                    c < num_clusters,
                    out@.len() == num_clusters,
                    out@ =~= Seq::new(
                        old_out.len(),
                        |j: int|
                            if c <= j < c + k {
                                nth_bit(byte, j - c)
                            } else {
                                old_out[j]
                            },
                    ),
                decreases 8 - k,
            {
                out.set(c + k, (byte >> (k as u8)) & 1 != 0);
                k = k + 1;
            }
            assert(out@ =~= set_bits(old_out, c as int, byte));
            if num_clusters - c < 8 {
                proof {
                    assert(vis_rec(b, v as int, c as int, n, old_out) == Some((out@, true)));
                }
                return Ok((out, true));
            }
            c = c + 8;
            v = v + 1;
        }
    }
    Ok((out, false))
}

} // verus!
