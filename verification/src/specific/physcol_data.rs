use vstd::prelude::*;

use vstd::utf8::{valid_utf8, decode_utf8};

use crate::error::ReadError;
use crate::reader::{le_u16, le_i32};
use crate::utils::{
    Vector3, vector3_at, find_byte, lemma_find_byte_bounds, find3, lemma_find3_bounds, trim_q,
    copy_range, find_byte_from, find3_from, trim_quotes, bytes_to_string, pairs_match,
};

verus! {

/// The header shared by every collision-data section: 12 bytes.
#[derive(Debug, Clone, Copy, PartialEq, Eq, Structural)]
pub struct CollideHeader {
    pub size: i32,
    pub id: i32,
    pub version: u16,
    /// Discriminant that selects which sub-header follows.
    pub model_type: u16,
}

/// The collision header stored at position `p` of `b`.
pub open spec fn collide_header_at(b: Seq<u8>, p: int) -> CollideHeader {
    CollideHeader {
        size: le_i32(b, p),
        id: le_i32(b, p + 4),
        version: le_u16(b, p + 8),
        model_type: le_u16(b, p + 10),
    }
}

/// The minimal sub-header of every model type other than 0: 4 bytes.
#[derive(Debug, Clone, Copy, PartialEq, Eq, Structural)]
pub struct MoppSurfaceHeader {
    pub size: i32,
}

/// The sub-header of model type 0: 20 bytes.
#[derive(Debug, Clone, Copy, PartialEq, Eq, Structural)]
pub struct CompactSurfaceHeader {
    pub surface_size: i32,
    /// Drag-axis area data, as float bits.
    pub drag_axis_areas: Vector3,
    pub axis_map_size: i32,
}

/// The compact-surface sub-header stored at position `p` of `b`.
pub open spec fn compact_surface_header_at(b: Seq<u8>, p: int) -> CompactSurfaceHeader {
    CompactSurfaceHeader {
        surface_size: le_i32(b, p),
        drag_axis_areas: vector3_at(b, p + 4),
        axis_map_size: le_i32(b, p + 16),
    }
}

/// The sub-header of one collision-data section, selected by the shared
/// header's model type.
#[derive(Debug, Clone, Copy, PartialEq, Eq, Structural)]
pub enum ModelHeaders {
    Missing,
    /// Model type 0.
    CompactSurfaceHeader(CompactSurfaceHeader),
    /// Every other observed model type.
    MoppSurfaceHeader(MoppSurfaceHeader),
}

/// One collision-data section: the shared header, the selected sub-header
/// and an opaque byte payload of the declared size.
#[derive(Debug, Clone, PartialEq, Eq)]
pub struct CollisionData {
    pub collide_header: CollideHeader,
    pub second_header: ModelHeaders,
    pub data: Vec<u8>,
}

/// One line of a physics key-value block: the line splits at its first space
/// into a key token and a value token, each stripped of surrounding
/// double-quotes and decoded as UTF-8 text.  Unlike the entity grammar,
/// every line must parse: `None` when the line has no space or a token is
/// not valid text.
pub open spec fn kd_line(l: Seq<u8>) -> Option<(Seq<char>, Seq<char>)> {
    let sp = find_byte(l, 0, 0x20);
    if sp >= l.len() {
        None
    } else {
        let k = trim_q(l.subrange(0, sp));
        let v = trim_q(l.subrange(sp + 1, l.len() as int));
        if valid_utf8(k) && valid_utf8(v) {
            Some((decode_utf8(k), decode_utf8(v)))
        } else {
            None
        }
    }
}

/// The key-value pairs of an object body from position `p` on, split on
/// newlines; every piece, including a trailing empty one, must be a valid
/// line.
pub open spec fn kd_lines(s: Seq<u8>, p: int) -> Option<Seq<(Seq<char>, Seq<char>)>>
    decreases s.len() + 1 - p,
        via kd_lines_decreases
{
    if p > s.len() {
        Some(Seq::empty())
    } else {
        let e = find_byte(s, p, 0x0a);
        match kd_line(s.subrange(p, e)) {
            Option::None => None,
            Option::Some(pair) => if e >= s.len() {
                Some(seq![pair])
            } else {
                match kd_lines(s, e + 1) {
                    Option::None => None,
                    Option::Some(rest) => Some(seq![pair] + rest),
                }
            },
        }
    }
}

#[via_fn]
proof fn kd_lines_decreases(s: Seq<u8>, p: int) {
    if 0 <= p <= s.len() {
        lemma_find_byte_bounds(s, p, 0x0a);
    }
}

/// The objects of a physics key-value text block from position `p` on:
/// pieces split on the newline-brace-newline separator, where a piece that
/// is a single zero byte is the trailing marker block and is discarded.
/// Each other piece is `name`, a space-brace-newline opener, and a body of
/// key-value lines.  `None` when any piece is malformed.
pub open spec fn kd_parse(b: Seq<u8>, p: int) -> Option<
    Seq<(Seq<char>, Seq<(Seq<char>, Seq<char>)>)>,
>
    decreases b.len() + 1 - p,
        via kd_parse_decreases
{
    if p >= b.len() {
        Some(Seq::empty())
    } else {
        let e = find3(b, p, 0x0a, 0x7d, 0x0a);
        let piece = b.subrange(p, e);
        let np = if e >= b.len() {
            b.len() as int
        } else {
            e + 3
        };
        if piece.len() == 1 && piece[0] == 0 {
            kd_parse(b, np)
        } else {
            let m = find3(piece, 0, 0x20, 0x7b, 0x0a);
            if m >= piece.len() {
                None
            } else {
                let name = piece.subrange(0, m);
                let body = piece.subrange(m + 3, piece.len() as int);
                if !valid_utf8(name) {
                    None
                } else {
                    match kd_lines(body, 0) {
                        Option::None => None,
                        Option::Some(pairs) => match kd_parse(b, np) {
                            Option::None => None,
                            Option::Some(rest) => Some(
                                seq![(decode_utf8(name), pairs)] + rest,
                            ),
                        },
                    }
                }
            }
        }
    }
}

#[via_fn]
proof fn kd_parse_decreases(b: Seq<u8>, p: int) {
    if 0 <= p <= b.len() {
        lemma_find3_bounds(b, p, 0x0a, 0x7d, 0x0a);
    }
}

/// `v` holds the decoded objects of `s`: each a name and its ordered
/// key-value pairs.
pub open spec fn kd_match(
    s: Seq<(Seq<char>, Seq<(Seq<char>, Seq<char>)>)>,
    v: Seq<(String, Vec<(String, String)>)>,
) -> bool {
    &&& v.len() == s.len()
    &&& forall|i: int|
        0 <= i < s.len() ==> (#[trigger] v[i]).0@ == s[i].0 && pairs_match(s[i].1, v[i].1@)
}

/// Decode one line of an object body, spanning `[a, e)` of `body`.
fn kd_line_exec(body: &Vec<u8>, a: usize, e: usize) -> (r: Result<(String, String), ReadError>)
    requires
        a <= e <= body@.len(),
    ensures
        ({
            let spec = kd_line(body@.subrange(a as int, e as int));
            &&& (r is Ok <==> spec is Some)
            &&& (r matches Ok(p) ==> spec matches Some(sp) && p.0@ == sp.0 && p.1@ == sp.1)
            &&& (r matches Err(err) ==> err is MalformedText)
        }),
{
    let l = copy_range(body, a, e);
    let llen = l.len();
    let sp = find_byte_from(&l, 0, 0x20);
    proof {
        lemma_find_byte_bounds(l@, 0, 0x20);
    }
    if sp == llen {
        return Err(ReadError::MalformedText { position: a });
    }
    let kb = copy_range(&l, 0, sp);
    let vb = copy_range(&l, sp + 1, llen);
    let kt = trim_quotes(&kb);
    let vt = trim_quotes(&vb);
    let ks = match bytes_to_string(kt) {
        Some(s) => s,
        None => {
            return Err(ReadError::MalformedText { position: a });
        },
    };
    let vs = match bytes_to_string(vt) {
        Some(s) => s,
        None => {
            return Err(ReadError::MalformedText { position: a });
        },
    };
    Ok((ks, vs))
}

/// Decode the body of one object: newline-separated key-value lines, all of
/// which must parse.
fn kd_lines_exec(body: &Vec<u8>) -> (r: Result<Vec<(String, String)>, ReadError>)
    ensures
        r is Ok <==> kd_lines(body@, 0) is Some,
        r matches Ok(pairs) ==> pairs_match(kd_lines(body@, 0)->Some_0, pairs@),
        r matches Err(err) ==> err is MalformedText,
{
    let ghost s = body@;
    let blen = body.len();
    let mut pairs: Vec<(String, String)> = Vec::new();
    let ghost mut gacc: Seq<(Seq<char>, Seq<char>)> = Seq::empty();
    let mut q: usize = 0;
    let mut more = true;
    while more
        invariant
            q <= blen,
            blen == body@.len(),
            s == body@,
            more ==> (kd_lines(s, 0) is Some <==> kd_lines(s, q as int) is Some),
            more ==> (kd_lines(s, 0) matches Some(full) ==> kd_lines(s, q as int) matches Some(
                rest,
            ) && full == gacc + rest),
            !more ==> kd_lines(s, 0) == Some(gacc),
            pairs_match(gacc, pairs@),
        decreases blen - q, (if more { 1int } else { 0int }),
    {
        let e2 = find_byte_from(body, q, 0x0a);
        proof {
            lemma_find_byte_bounds(s, q as int, 0x0a);
        }
        let pair = match kd_line_exec(body, q, e2) {
            Err(err) => {
                return Err(err);
            },
            Ok(p) => p,
        };
        let ghost spair = kd_line(s.subrange(q as int, e2 as int))->Some_0;
        pairs.push(pair);
        proof {
            gacc = gacc.push(spair);
        }
        if e2 >= blen {
            more = false;
            proof {
                if kd_lines(s, 0) is Some {
                    assert(kd_lines(s, 0)->Some_0 =~= gacc);
                }
            }
        } else {
            q = e2 + 1;
            proof {
                if kd_lines(s, 0) is Some {
                    assert(kd_lines(s, 0)->Some_0 =~= gacc + kd_lines(s, q as int)->Some_0);
                }
            }
        }
    }
    Ok(pairs)
}

/// Decode a physics key-value text block: objects of the form `name`,
/// space-brace-newline, key-value lines, separated by a
/// newline-brace-newline separator; a piece that is a single zero byte is
/// the trailing marker and is discarded rather than parsed as data.  Fails
/// with `MalformedText` exactly when a piece has no opener, a line lacks its
/// key/value split, or a token is not valid UTF-8 text.
pub fn parse_keydata_string(keydata: &Vec<u8>) -> (r: Result<
    Vec<(String, Vec<(String, String)>)>,
    ReadError,
>)
    ensures
        r is Ok <==> kd_parse(keydata@, 0) is Some,
        r matches Ok(v) ==> kd_match(kd_parse(keydata@, 0)->Some_0, v@),
        r matches Err(e) ==> e is MalformedText,
{
    let ghost b = keydata@;
    let len = keydata.len();
    let mut res: Vec<(String, Vec<(String, String)>)> = Vec::new();
    let ghost mut gacc: Seq<(Seq<char>, Seq<(Seq<char>, Seq<char>)>)> = Seq::empty();
    let mut p: usize = 0;
    while p < len
        invariant
            p <= len,
            len == b.len(),
            b == keydata@,
            kd_parse(b, 0) is Some <==> kd_parse(b, p as int) is Some,
            kd_parse(b, 0) matches Some(full) ==> kd_parse(b, p as int) matches Some(rest)
                && full == gacc + rest,
            kd_match(gacc, res@),
        decreases len - p,
    {
        let e = find3_from(keydata, p, 0x0a, 0x7d, 0x0a);
        proof {
            lemma_find3_bounds(b, p as int, 0x0a, 0x7d, 0x0a);
        }
        let piece = copy_range(keydata, p, e);
        let plen = piece.len();
        if plen == 1 && piece[0] == 0 {
        } else {
            let m = find3_from(&piece, 0, 0x20, 0x7b, 0x0a);
            proof {
                lemma_find3_bounds(piece@, 0, 0x20, 0x7b, 0x0a);
            }
            if m == plen {
                return Err(ReadError::MalformedText { position: p });
            }
            let nb = copy_range(&piece, 0, m);
            let name = match bytes_to_string(nb) {
                Some(s) => s,
                None => {
                    return Err(ReadError::MalformedText { position: p });
                },
            };
            let body = copy_range(&piece, m + 3, plen);
            let pairs = match kd_lines_exec(&body) {
                Err(err) => {
                    return Err(ReadError::MalformedText { position: p });
                },
                Ok(pr) => pr,
            };
            let ghost sobj = (
                decode_utf8(piece@.subrange(0, m as int)),
                kd_lines(piece@.subrange(m as int + 3, plen as int), 0)->Some_0,
            );
            res.push((name, pairs));
            proof {
                gacc = gacc.push(sobj);
            }
        }
        proof {
            let np: int = if e as int >= b.len() {
                b.len() as int
            } else {
                e + 3
            };
            if kd_parse(b, 0) is Some {
                assert(kd_parse(b, 0)->Some_0 =~= gacc + kd_parse(b, np)->Some_0);
            }
        }
        if e >= len {
            p = len;
        } else {
            p = e + 3;
        }
    }
    Ok(res)
}

} // verus!
