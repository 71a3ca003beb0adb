use vstd::prelude::*;

use crate::error::ReadError;
use vstd::utf8::{valid_utf8, decode_utf8};

verus! {

/// The unsigned 16-bit value stored little-endian at position `p` of `b`.
pub open spec fn le_u16(b: Seq<u8>, p: int) -> u16
    recommends
        0 <= p,
        p + 2 <= b.len(),
{
    (b[p] as u16) | ((b[p + 1] as u16) << 8)
}

/// The unsigned 32-bit value stored little-endian at position `p` of `b`.
pub open spec fn le_u32(b: Seq<u8>, p: int) -> u32
    recommends
        0 <= p,
        p + 4 <= b.len(),
{
    (b[p] as u32) | ((b[p + 1] as u32) << 8) | ((b[p + 2] as u32) << 16) | ((b[p + 3] as u32)
        << 24)
}

/// The signed 16-bit value stored little-endian at position `p` of `b`.
pub open spec fn le_i16(b: Seq<u8>, p: int) -> i16 {
    le_u16(b, p) as i16
}

/// The signed 32-bit value stored little-endian at position `p` of `b`.
pub open spec fn le_i32(b: Seq<u8>, p: int) -> i32 {
    le_u32(b, p) as i32
}

/// The position of the first zero byte of `b` at or after `p`, or `b.len()`
/// if every byte from `p` on is non-zero.
pub open spec fn find_null(b: Seq<u8>, p: int) -> int
    recommends
        0 <= p <= b.len(),
    decreases b.len() - p,
{
    if p < 0 || p >= b.len() {
        b.len() as int
    } else if b[p] == 0 {
        p
    } else {
        find_null(b, p + 1)
    }
}

pub proof fn lemma_find_null_bounds(b: Seq<u8>, p: int)
    requires
        0 <= p <= b.len(),
    ensures
        p <= find_null(b, p) <= b.len(),
        find_null(b, p) < b.len() ==> b[find_null(b, p)] == 0,
        forall|k: int| p <= k < find_null(b, p) ==> b[k] != 0,
    decreases b.len() - p,
{
    if p < b.len() && b[p] != 0 {
        lemma_find_null_bounds(b, p + 1);
    }
}

/// A positioned view over an in-memory byte buffer.  The buffer itself never
/// changes; reads advance `index` and fail without moving it when they would
/// pass the end of the buffer.
pub struct Reader {
    pub bytes: Vec<u8>,
    pub index: usize,
}

impl Reader {
    pub fn new(bytes: Vec<u8>) -> (r: Reader)
        ensures
            r.bytes == bytes,
            r.index == 0,
    {
        Reader { bytes, index: 0 }
    }

    /// Move to an absolute position.  The position may lie past the end of
    /// the buffer; every later read from there fails.
    pub fn seek(&mut self, position: usize)
        ensures
            final(self).bytes == old(self).bytes,
            final(self).index == position,
    {
        self.index = position;
    }

    /// Advance the position by `amount` without reading.
    pub fn skip(&mut self, amount: usize)
        requires
            old(self).index + amount <= usize::MAX,
        ensures
            final(self).bytes == old(self).bytes,
            final(self).index == old(self).index + amount,
    {
        self.index = self.index + amount;
    }

    /// Read `amount` raw bytes and advance by `amount`.
    pub fn read_bytes(&mut self, amount: usize) -> (r: Result<Vec<u8>, ReadError>)
        ensures
            final(self).bytes == old(self).bytes,
            r is Ok <==> old(self).index + amount <= old(self).bytes@.len(),
            r matches Ok(v) ==> {
                &&& v@ == old(self).bytes@.subrange(
                    old(self).index as int,
                    old(self).index + amount,
                )
                &&& final(self).index == old(self).index + amount
            },
            r matches Err(e) ==> {
                &&& final(self).index == old(self).index
                &&& e == (ReadError::OutOfBounds { position: old(self).index, wanted: amount })
            },
    {
        if self.index > self.bytes.len() || amount > self.bytes.len() - self.index {
            return Err(ReadError::OutOfBounds { position: self.index, wanted: amount });
        }
        let start = self.index;
        let mut v: Vec<u8> = Vec::new();
        let mut i: usize = 0;
        while i < amount
            invariant
                i <= amount,
                start + amount <= usize::MAX,
                start + amount <= self.bytes@.len(),
                self.index == start,
                self.bytes == old(self).bytes,
                v@ == self.bytes@.subrange(start as int, start + i),
            decreases amount - i,
        {
            v.push(self.bytes[start + i]);
            assert(self.bytes@.subrange(start as int, start + i + 1) =~= self.bytes@.subrange(
                start as int,
                start + i,
            ).push(self.bytes@[start + i]));
            i = i + 1;
        }
        self.index = start + amount;
        Ok(v)
    }

    /// Read one unsigned byte.
    pub fn read_byte(&mut self) -> (r: Result<u8, ReadError>)
        ensures
            final(self).bytes == old(self).bytes,
            r is Ok <==> old(self).index + 1 <= old(self).bytes@.len(),
            r matches Ok(v) ==> v == old(self).bytes@[old(self).index as int] && final(self).index
                == old(self).index + 1,
            r matches Err(e) ==> final(self).index == old(self).index && e
                == (ReadError::OutOfBounds { position: old(self).index, wanted: 1 }),
    {
        if self.index >= self.bytes.len() {
            return Err(ReadError::OutOfBounds { position: self.index, wanted: 1 });
        }
        let b = self.bytes[self.index];
        self.index = self.index + 1;
        Ok(b)
    }

    /// Read one signed byte.
    pub fn read_signed_byte(&mut self) -> (r: Result<i8, ReadError>)
        ensures
            final(self).bytes == old(self).bytes,
            r is Ok <==> old(self).index + 1 <= old(self).bytes@.len(),
            r matches Ok(v) ==> v == old(self).bytes@[old(self).index as int] as i8
                && final(self).index == old(self).index + 1,
            r matches Err(e) ==> final(self).index == old(self).index && e
                == (ReadError::OutOfBounds { position: old(self).index, wanted: 1 }),
    {
        if self.index >= self.bytes.len() {
            return Err(ReadError::OutOfBounds { position: self.index, wanted: 1 });
        }
        let b = self.bytes[self.index];
        self.index = self.index + 1;
        Ok(#[verifier::truncate] (b as i8))
    }

    /// Read a little-endian unsigned 16-bit integer.
    pub fn read_ushort(&mut self) -> (r: Result<u16, ReadError>)
        ensures
            final(self).bytes == old(self).bytes,
            r is Ok <==> old(self).index + 2 <= old(self).bytes@.len(),
            r matches Ok(v) ==> v == le_u16(old(self).bytes@, old(self).index as int) && final(self).index == old(self).index + 2,
            r matches Err(e) ==> final(self).index == old(self).index && e
                == (ReadError::OutOfBounds { position: old(self).index, wanted: 2 }),
    {
        if self.index > self.bytes.len() || 2 > self.bytes.len() - self.index {
            return Err(ReadError::OutOfBounds { position: self.index, wanted: 2 });
        }
        let b0 = self.bytes[self.index];
        let b1 = self.bytes[self.index + 1];
        self.index = self.index + 2;
        Ok((b0 as u16) | ((b1 as u16) << 8))
    }

    /// Read a little-endian signed 16-bit integer.
    pub fn read_short(&mut self) -> (r: Result<i16, ReadError>)
        ensures
            final(self).bytes == old(self).bytes,
            r is Ok <==> old(self).index + 2 <= old(self).bytes@.len(),
            r matches Ok(v) ==> v == le_i16(old(self).bytes@, old(self).index as int) && final(self).index == old(self).index + 2,
            r matches Err(e) ==> final(self).index == old(self).index && e
                == (ReadError::OutOfBounds { position: old(self).index, wanted: 2 }),
    {
        let u = self.read_ushort()?;
        Ok(#[verifier::truncate] (u as i16))
    }

    /// Read a little-endian unsigned 32-bit integer.
    pub fn read_uint(&mut self) -> (r: Result<u32, ReadError>)
        ensures
            final(self).bytes == old(self).bytes,
            r is Ok <==> old(self).index + 4 <= old(self).bytes@.len(),
            r matches Ok(v) ==> v == le_u32(old(self).bytes@, old(self).index as int) && final(self).index == old(self).index + 4,
            r matches Err(e) ==> final(self).index == old(self).index && e
                == (ReadError::OutOfBounds { position: old(self).index, wanted: 4 }),
    {
        if self.index > self.bytes.len() || 4 > self.bytes.len() - self.index {
            return Err(ReadError::OutOfBounds { position: self.index, wanted: 4 });
        }
        let b0 = self.bytes[self.index];
        let b1 = self.bytes[self.index + 1];
        let b2 = self.bytes[self.index + 2];
        let b3 = self.bytes[self.index + 3];
        self.index = self.index + 4;
        Ok((b0 as u32) | ((b1 as u32) << 8) | ((b2 as u32) << 16) | ((b3 as u32) << 24))
    }

    /// Read a little-endian signed 32-bit integer.
    pub fn read_int(&mut self) -> (r: Result<i32, ReadError>)
        ensures
            final(self).bytes == old(self).bytes,
            r is Ok <==> old(self).index + 4 <= old(self).bytes@.len(),
            r matches Ok(v) ==> v == le_i32(old(self).bytes@, old(self).index as int) && final(self).index == old(self).index + 4,
            r matches Err(e) ==> final(self).index == old(self).index && e
                == (ReadError::OutOfBounds { position: old(self).index, wanted: 4 }),
    {
        let u = self.read_uint()?;
        Ok(#[verifier::truncate] (u as i32))
    }

    /// Read a null-terminated text run: scan forward for the first zero byte
    /// and decode the bytes before it as UTF-8 text.  The position ends on
    /// the terminating zero byte, which is not consumed.  Fails with
    /// `OutOfBounds` (wanting one more byte) when no terminator exists, and
    /// with `MalformedText` when the run is not valid UTF-8.
    pub fn read_string(&mut self) -> (r: Result<String, ReadError>)
        ensures
            final(self).bytes == old(self).bytes,
            ({
                let b = old(self).bytes@;
                let i = old(self).index as int;
                let nn = find_null(b, i);
                &&& (r is Ok <==> nn < b.len() && valid_utf8(b.subrange(i, nn)))
                &&& (r matches Ok(s) ==> s@ == decode_utf8(b.subrange(i, nn)) && final(self).index
                    == nn)
                &&& (r is Err ==> final(self).index == old(self).index)
                &&& (nn == b.len() ==> r == Err::<String, ReadError>(
                    ReadError::OutOfBounds { position: old(self).index, wanted: 1 },
                ))
                &&& (nn < b.len() && !valid_utf8(b.subrange(i, nn)) ==> r == Err::<
                    String,
                    ReadError,
                >(ReadError::MalformedText { position: old(self).index }))
            }),
    {
        let ghost b = self.bytes@;
        let start = self.index;
        let len = self.bytes.len();
        if start > len {
            return Err(ReadError::OutOfBounds { position: start, wanted: 1 });
        }
        let mut j = start;
        while j < len && self.bytes[j] != 0
            invariant
                start <= j <= len,
                len == b.len(),
                self.bytes@ == b,
                self.index == start,
                find_null(b, start as int) == find_null(b, j as int),
            decreases len - j,
        {
            j = j + 1;
        }
        if j == len {
            return Err(ReadError::OutOfBounds { position: start, wanted: 1 });
        }
        let v = match self.read_bytes(j - start) {
            Ok(v) => v,
            Err(e) => {
                return Err(e);
            },
        };
        match crate::utils::bytes_to_string(v) {
            Some(s) => Ok(s),
            None => {
                self.index = start;
                Err(ReadError::MalformedText { position: start })
            },
        }
    }

    /// Read a 3-component float vector: three consecutive little-endian
    /// 32-bit floats, kept as bit patterns.
    pub fn read_vector3(&mut self) -> (r: Result<crate::utils::Vector3, ReadError>)
        ensures
            final(self).bytes == old(self).bytes,
            r is Ok <==> old(self).index + 12 <= old(self).bytes@.len(),
            r matches Ok(v) ==> v == crate::utils::vector3_at(
                old(self).bytes@,
                old(self).index as int,
            ) && final(self).index == old(self).index + 12,
            r matches Err(e) ==> final(self).index == old(self).index && e is OutOfBounds,
    {
        let start = self.index;
        let x = match self.read_uint() {
            Ok(v) => v,
            Err(e) => {
                return Err(e);
            },
        };
        let y = match self.read_uint() {
            Ok(v) => v,
            Err(e) => {
                self.index = start;
                return Err(e);
            },
        };
        let z = match self.read_uint() {
            Ok(v) => v,
            Err(e) => {
                self.index = start;
                return Err(e);
            },
        };
        Ok(crate::utils::Vector3 { x, y, z })
    }

    /// Read one 4-byte lighting sample.
    pub fn read_colorrgbexp32(&mut self) -> (r: Result<
        crate::lumps::vbsp::ColorRGBExp32,
        ReadError,
    >)
        ensures
            final(self).bytes == old(self).bytes,
            r is Ok <==> old(self).index + 4 <= old(self).bytes@.len(),
            r matches Ok(v) ==> v == crate::lumps::vbsp::colorrgbexp32_at(
                old(self).bytes@,
                old(self).index as int,
            ) && final(self).index == old(self).index + 4,
            r matches Err(e) ==> final(self).index == old(self).index && e is OutOfBounds,
    {
        if self.index > self.bytes.len() || 4 > self.bytes.len() - self.index {
            return Err(ReadError::OutOfBounds { position: self.index, wanted: 4 });
        }
        let cr = self.bytes[self.index];
        let cg = self.bytes[self.index + 1];
        let cb = self.bytes[self.index + 2];
        let ce = self.bytes[self.index + 3];
        self.index = self.index + 4;
        Ok(
            crate::lumps::vbsp::ColorRGBExp32 {
                r: cr,
                g: cg,
                b: cb,
                exponent: #[verifier::truncate] (ce as i8),
            },
        )
    }

    /// Read a 24-byte light cube: six lighting samples.
    pub fn read_compressed_light_cube(&mut self) -> (r: Result<
        crate::lumps::vbsp::CompressedLightCube,
        ReadError,
    >)
        ensures
            final(self).bytes == old(self).bytes,
            r is Ok <==> old(self).index + 24 <= old(self).bytes@.len(),
            r matches Ok(v) ==> crate::lumps::vbsp::compressed_light_cube_matches(
                old(self).bytes@,
                old(self).index as int,
                v,
            ) && final(self).index == old(self).index + 24,
            r matches Err(e) ==> final(self).index == old(self).index && e is OutOfBounds,
    {
        if self.index > self.bytes.len() || 24 > self.bytes.len() - self.index {
            return Err(ReadError::OutOfBounds { position: self.index, wanted: 24 });
        }
        let c0 = match self.read_colorrgbexp32() {
            Ok(v) => v,
            Err(e) => {
                return Err(e);
            },
        };
        let c1 = match self.read_colorrgbexp32() {
            Ok(v) => v,
            Err(e) => {
                return Err(e);
            },
        };
        let c2 = match self.read_colorrgbexp32() {
            Ok(v) => v,
            Err(e) => {
                return Err(e);
            },
        };
        let c3 = match self.read_colorrgbexp32() {
            Ok(v) => v,
            Err(e) => {
                return Err(e);
            },
        };
        let c4 = match self.read_colorrgbexp32() {
            Ok(v) => v,
            Err(e) => {
                return Err(e);
            },
        };
        let c5 = match self.read_colorrgbexp32() {
            Ok(v) => v,
            Err(e) => {
                return Err(e);
            },
        };
        Ok(crate::lumps::vbsp::CompressedLightCube { color: [c0, c1, c2, c3, c4, c5] })
    }

    /// Read one 6-byte displacement sub-neighbour record.
    pub fn read_cdispsubneighbor(&mut self) -> (r: Result<
        crate::specific::cdisp::CDispSubNeighbor,
        ReadError,
    >)
        ensures
            final(self).bytes == old(self).bytes,
            r is Ok <==> old(self).index + 6 <= old(self).bytes@.len(),
            r matches Ok(v) ==> v == crate::specific::cdisp::cdispsubneighbor_at(
                old(self).bytes@,
                old(self).index as int,
            ) && final(self).index == old(self).index + 6,
            r matches Err(e) ==> final(self).index == old(self).index && e is OutOfBounds,
    {
        if self.index > self.bytes.len() || 6 > self.bytes.len() - self.index {
            return Err(ReadError::OutOfBounds { position: self.index, wanted: 6 });
        }
        let b0 = self.bytes[self.index];
        let b1 = self.bytes[self.index + 1];
        let neighbor = (b0 as u16) | ((b1 as u16) << 8);
        let neighbor_orientation = self.bytes[self.index + 2];
        let span = self.bytes[self.index + 3];
        let neighbor_span = self.bytes[self.index + 4];
        let padding = self.bytes[self.index + 5];
        self.index = self.index + 6;
        Ok(
            crate::specific::cdisp::CDispSubNeighbor {
                neighbor,
                neighbor_orientation,
                span,
                neighbor_span,
                padding,
            },
        )
    }

    /// Read one 12-byte displacement edge-neighbour record.
    pub fn read_cdispneighbor(&mut self) -> (r: Result<
        crate::specific::cdisp::CDispNeighbor,
        ReadError,
    >)
        ensures
            final(self).bytes == old(self).bytes,
            r is Ok <==> old(self).index + 12 <= old(self).bytes@.len(),
            r matches Ok(v) ==> crate::specific::cdisp::cdispneighbor_matches(
                old(self).bytes@,
                old(self).index as int,
                v,
            ) && final(self).index == old(self).index + 12,
            r matches Err(e) ==> final(self).index == old(self).index && e is OutOfBounds,
    {
        let start = self.index;
        let s0 = match self.read_cdispsubneighbor() {
            Ok(v) => v,
            Err(e) => {
                return Err(e);
            },
        };
        let s1 = match self.read_cdispsubneighbor() {
            Ok(v) => v,
            Err(e) => {
                self.index = start;
                return Err(e);
            },
        };
        Ok(crate::specific::cdisp::CDispNeighbor { sub_neighbors: [s0, s1] })
    }

    /// Read one 10-byte displacement corner-neighbour record.
    pub fn read_cdispcornerneighbor(&mut self) -> (r: Result<
        crate::specific::cdisp::CDispCornerNeighbors,
        ReadError,
    >)
        ensures
            final(self).bytes == old(self).bytes,
            r is Ok <==> old(self).index + 10 <= old(self).bytes@.len(),
            r matches Ok(v) ==> crate::specific::cdisp::cdispcornerneighbors_matches(
                old(self).bytes@,
                old(self).index as int,
                v,
            ) && final(self).index == old(self).index + 10,
            r matches Err(e) ==> final(self).index == old(self).index && e is OutOfBounds,
    {
        if self.index > self.bytes.len() || 10 > self.bytes.len() - self.index {
            return Err(ReadError::OutOfBounds { position: self.index, wanted: 10 });
        }
        let n0 = match self.read_ushort() {
            Ok(v) => v,
            Err(e) => {
                return Err(e);
            },
        };
        let n1 = match self.read_ushort() {
            Ok(v) => v,
            Err(e) => {
                return Err(e);
            },
        };
        let n2 = match self.read_ushort() {
            Ok(v) => v,
            Err(e) => {
                return Err(e);
            },
        };
        let n3 = match self.read_ushort() {
            Ok(v) => v,
            Err(e) => {
                return Err(e);
            },
        };
        let num_neighbors = match self.read_byte() {
            Ok(v) => v,
            Err(e) => {
                return Err(e);
            },
        };
        let padding = match self.read_byte() {
            Ok(v) => v,
            Err(e) => {
                return Err(e);
            },
        };
        Ok(
            crate::specific::cdisp::CDispCornerNeighbors {
                neighbors: [n0, n1, n2, n3],
                num_neighbors,
                padding,
            },
        )
    }

    /// Read the raw bit pattern of a little-endian IEEE-754 32-bit float.
    /// Float fields are kept as bit patterns; interpreting them is left to
    /// unverified presentation code.
    pub fn read_float_bits(&mut self) -> (r: Result<u32, ReadError>)
        ensures
            final(self).bytes == old(self).bytes,
            r is Ok <==> old(self).index + 4 <= old(self).bytes@.len(),
            r matches Ok(v) ==> v == le_u32(old(self).bytes@, old(self).index as int) && final(self).index == old(self).index + 4,
            r matches Err(e) ==> final(self).index == old(self).index && e
                == (ReadError::OutOfBounds { position: old(self).index, wanted: 4 }),
    {
        self.read_uint()
    }
}

} // verus!
