use vstd::prelude::*;

use vstd::utf8::{valid_utf8, decode_utf8};

use crate::error::ReadError;

verus! {

/// Relies on String::from_utf8: it succeeds exactly on valid UTF-8 input and
/// returns the string whose characters are the decoded scalar values of that
/// input, as vstd's UTF-8 model states them.
#[verifier::external_body]
pub fn bytes_to_string(b: Vec<u8>) -> (r: Option<String>)
    ensures
        r is Some <==> valid_utf8(b@),
        r matches Some(s) ==> s@ == decode_utf8(b@),
{
    String::from_utf8(b).ok()
}

/// A 3-component float vector.  Each component holds the raw bit pattern of
/// a little-endian IEEE-754 32-bit float exactly as it stands in the file;
/// interpreting the bits is left to presentation code outside the decoder.
#[derive(Debug, Clone, Copy, PartialEq, Eq, Structural)]
pub struct Vector3 {
    pub x: u32,
    pub y: u32,
    pub z: u32,
}

/// The vector stored at position `p` of `b` as three consecutive
/// little-endian 32-bit floats.
pub open spec fn vector3_at(b: Seq<u8>, p: int) -> Vector3 {
    Vector3 { x: crate::reader::le_u32(b, p), y: crate::reader::le_u32(b, p + 4), z: crate::reader::le_u32(b, p + 8) }
}

impl Vector3 {
    pub fn new() -> (r: Vector3)
        ensures
            r == (Vector3 { x: 0, y: 0, z: 0 }),
    {
        Vector3 { x: 0, y: 0, z: 0 }
    }
}

/// The name of a legacy-dialect plane axis identifier.
pub fn int_to_gsrc_planetype(val: &i32) -> (r: &'static str)
    ensures
        *val == 0 ==> r@ == "PLANE_X"@,
        *val == 1 ==> r@ == "PLANE_Y"@,
        *val == 2 ==> r@ == "PLANE_Z"@,
        *val == 3 ==> r@ == "PLANE_ANYX"@,
        *val == 4 ==> r@ == "PLANE_ANYY"@,
        *val == 5 ==> r@ == "PLANE_ANYZ"@,
        !(0 <= *val <= 5) ==> r@ == "error / undefined type"@,
{
    match *val {
        0 => "PLANE_X",
        1 => "PLANE_Y",
        2 => "PLANE_Z",
        3 => "PLANE_ANYX",
        4 => "PLANE_ANYY",
        5 => "PLANE_ANYZ",
        _ => "error / undefined type",
    }
}

/// The name of a texture flag of the oldest supported record layouts.
pub fn int_to_quake_texflag(val: &i32) -> (r: &'static str)
    ensures
        *val == 0 ==> r@ == "None"@,
        *val == 1 ==> r@ == "TEX_SPECIAL"@,
        !(0 <= *val <= 1) ==> r@ == "error / undefined flag"@,
{
    match *val {
        0 => "None",
        1 => "TEX_SPECIAL",
        _ => "error / undefined flag",
    }
}

/// The position of the first byte equal to `c` at or after `p` in `b`, or
/// `b.len()` if there is none.
pub open spec fn find_byte(b: Seq<u8>, p: int, c: u8) -> int
    decreases b.len() - p,
{
    if p < 0 || p >= b.len() {
        b.len() as int
    } else if b[p] == c {
        p
    } else {
        find_byte(b, p + 1, c)
    }
}

pub proof fn lemma_find_byte_bounds(b: Seq<u8>, p: int, c: u8)
    requires
        0 <= p <= b.len(),
    ensures
        p <= find_byte(b, p, c) <= b.len(),
        find_byte(b, p, c) < b.len() ==> b[find_byte(b, p, c)] == c,
        forall|k: int| p <= k < find_byte(b, p, c) ==> b[k] != c,
    decreases b.len() - p,
{
    if p < b.len() && b[p] != c {
        lemma_find_byte_bounds(b, p + 1, c);
    }
}

/// The position of the first occurrence of the two-byte pattern `c0 c1` at
/// or after `p` in `b`, or `b.len()` if there is none.
pub open spec fn find2(b: Seq<u8>, p: int, c0: u8, c1: u8) -> int
    decreases b.len() - p,
{
    if p < 0 || p + 2 > b.len() {
        b.len() as int
    } else if b[p] == c0 && b[p + 1] == c1 {
        p
    } else {
        find2(b, p + 1, c0, c1)
    }
}

pub proof fn lemma_find2_bounds(b: Seq<u8>, p: int, c0: u8, c1: u8)
    requires
        0 <= p <= b.len(),
    ensures
        p <= find2(b, p, c0, c1) <= b.len(),
        find2(b, p, c0, c1) < b.len() ==> {
            &&& find2(b, p, c0, c1) + 2 <= b.len()
            &&& b[find2(b, p, c0, c1)] == c0
            &&& b[find2(b, p, c0, c1) + 1] == c1
        },
    decreases b.len() - p,
{
    if p + 2 <= b.len() && !(b[p] == c0 && b[p + 1] == c1) {
        lemma_find2_bounds(b, p + 1, c0, c1);
    }
}

/// The position of the first occurrence of the three-byte pattern `c0 c1 c2`
/// at or after `p` in `b`, or `b.len()` if there is none.
pub open spec fn find3(b: Seq<u8>, p: int, c0: u8, c1: u8, c2: u8) -> int
    decreases b.len() - p,
{
    if p < 0 || p + 3 > b.len() {
        b.len() as int
    } else if b[p] == c0 && b[p + 1] == c1 && b[p + 2] == c2 {
        p
    } else {
        find3(b, p + 1, c0, c1, c2)
    }
}

pub proof fn lemma_find3_bounds(b: Seq<u8>, p: int, c0: u8, c1: u8, c2: u8)
    requires
        0 <= p <= b.len(),
    ensures
        p <= find3(b, p, c0, c1, c2) <= b.len(),
        find3(b, p, c0, c1, c2) < b.len() ==> {
            &&& find3(b, p, c0, c1, c2) + 3 <= b.len()
            &&& b[find3(b, p, c0, c1, c2)] == c0
            &&& b[find3(b, p, c0, c1, c2) + 1] == c1
            &&& b[find3(b, p, c0, c1, c2) + 2] == c2
        },
    decreases b.len() - p,
{
    if p + 3 <= b.len() && !(b[p] == c0 && b[p + 1] == c1 && b[p + 2] == c2) {
        lemma_find3_bounds(b, p + 1, c0, c1, c2);
    }
}

/// Find the first byte equal to `c` at or after `start`.
pub fn find_byte_from(v: &Vec<u8>, start: usize, c: u8) -> (r: usize)
    requires
        start <= v@.len(),
    ensures
        r == find_byte(v@, start as int, c),
{
    let len = v.len();
    let mut j = start;
    while j < len && v[j] != c
        invariant
            start <= j <= len,
            len == v@.len(),
            find_byte(v@, start as int, c) == find_byte(v@, j as int, c),
        decreases len - j,
    {
        j = j + 1;
    }
    j
}

/// Find the first occurrence of the two-byte pattern `c0 c1` at or after
/// `start`.
pub fn find2_from(v: &Vec<u8>, start: usize, c0: u8, c1: u8) -> (r: usize)
    requires
        start <= v@.len(),
    ensures
        r == find2(v@, start as int, c0, c1),
{
    let len = v.len();
    let mut j = start;
    while j < len && j + 1 < len && !(v[j] == c0 && v[j + 1] == c1)
        invariant
            start <= j <= len,
            len == v@.len(),
            find2(v@, start as int, c0, c1) == find2(v@, j as int, c0, c1),
        decreases len - j,
    {
        j = j + 1;
    }
    if j < len && j + 1 < len {
        j
    } else {
        len
    }
}

/// Find the first occurrence of the three-byte pattern `c0 c1 c2` at or
/// after `start`.
pub fn find3_from(v: &Vec<u8>, start: usize, c0: u8, c1: u8, c2: u8) -> (r: usize)
    requires
        start <= v@.len(),
    ensures
        r == find3(v@, start as int, c0, c1, c2),
{
    let len = v.len();
    let mut j = start;
    while j < len && j + 1 < len && j + 2 < len && !(v[j] == c0 && v[j + 1] == c1 && v[j + 2] == c2)
        invariant
            start <= j <= len,
            len == v@.len(),
            find3(v@, start as int, c0, c1, c2) == find3(v@, j as int, c0, c1, c2),
        decreases len - j,
    {
        j = j + 1;
    }
    if j < len && j + 1 < len && j + 2 < len {
        j
    } else {
        len
    }
}

/// Copy the byte range `[a, e)` of `v`.
pub fn copy_range(v: &Vec<u8>, a: usize, e: usize) -> (r: Vec<u8>)
    requires
        a <= e <= v@.len(),
    ensures
        r@ == v@.subrange(a as int, e as int),
{
    let mut r: Vec<u8> = Vec::new();
    let mut i = a;
    while i < e
        invariant
            a <= i <= e <= v@.len(),
            r@ == v@.subrange(a as int, i as int),
        decreases e - i,
    {
        r.push(v[i]);
        assert(v@.subrange(a as int, i + 1) =~= v@.subrange(a as int, i as int).push(v@[i as int]));
        i = i + 1;
    }
    r
}

/// The position of the first byte of `s` at or after `p` that is not a
/// double-quote, or `s.len()` if all are.
pub open spec fn first_nonquote(s: Seq<u8>, p: int) -> int
    decreases s.len() - p,
{
    if p < 0 || p >= s.len() {
        s.len() as int
    } else if s[p] != 0x22 {
        p
    } else {
        first_nonquote(s, p + 1)
    }
}

/// The position just after the last byte of `s[..p]` that is not a
/// double-quote, or `0` if all are.
pub open spec fn last_nonquote(s: Seq<u8>, p: int) -> int
    decreases p,
{
    if p <= 0 {
        0
    } else if s[p - 1] == 0x22 {
        last_nonquote(s, p - 1)
    } else {
        p
    }
}

/// `s` with every leading and trailing double-quote removed.
pub open spec fn trim_q(s: Seq<u8>) -> Seq<u8> {
    let f = first_nonquote(s, 0);
    if f >= s.len() {
        Seq::empty()
    } else {
        s.subrange(f, last_nonquote(s, s.len() as int))
    }
}

/// Strip every leading and trailing double-quote from a token.
pub fn trim_quotes(tok: &Vec<u8>) -> (r: Vec<u8>)
    ensures
        r@ == trim_q(tok@),
{
    let len = tok.len();
    let mut f: usize = 0;
    while f < len && tok[f] == 0x22
        invariant
            f <= len,
            len == tok@.len(),
            first_nonquote(tok@, 0) == first_nonquote(tok@, f as int),
        decreases len - f,
    {
        f = f + 1;
    }
    if f == len {
        return Vec::new();
    }
    let mut l: usize = len;
    while l > f && tok[l - 1] == 0x22
        invariant
            f < l <= len,
            len == tok@.len(),
            f == first_nonquote(tok@, 0),
            f < len,
            tok@[f as int] != 0x22,
            last_nonquote(tok@, len as int) == last_nonquote(tok@, l as int),
        decreases l,
    {
        l = l - 1;
    }
    assert(last_nonquote(tok@, l as int) == l);
    copy_range(tok, f, l)
}

/// One line of an entity block: an empty line or a lone zero byte is
/// skipped; otherwise the line splits at its first space into a key token
/// and a value token, each stripped of surrounding double-quotes and decoded
/// as UTF-8 text.  `None` when the line has no space or a token is not valid
/// text.
pub open spec fn ent_line(l: Seq<u8>) -> Option<Option<(Seq<char>, Seq<char>)>> {
    if l.len() == 0 {
        Some(None)
    } else if l.len() == 1 && l[0] == 0 {
        Some(None)
    } else {
        let sp = find_byte(l, 0, 0x20);
        if sp >= l.len() {
            None
        } else {
            let k = trim_q(l.subrange(0, sp));
            let v = trim_q(l.subrange(sp + 1, l.len() as int));
            if valid_utf8(k) && valid_utf8(v) {
                Some(Some((decode_utf8(k), decode_utf8(v))))
            } else {
                None
            }
        }
    }
}

/// The key-value pairs of the lines of `s` from position `p` on, split on
/// newlines, with skipped lines dropped; `None` when any line is malformed.
pub open spec fn ent_lines(s: Seq<u8>, p: int) -> Option<Seq<(Seq<char>, Seq<char>)>>
    decreases s.len() + 1 - p,
        via ent_lines_decreases
{
    if p >= s.len() {
        Some(Seq::empty())
    } else {
        let e = find_byte(s, p, 0x0a);
        match ent_line(s.subrange(p, e)) {
            Option::None => None,
            Option::Some(opt) => match ent_lines(s, e + 1) {
                Option::None => None,
                Option::Some(rest) => Some(
                    match opt {
                        Option::None => rest,
                        Option::Some(pair) => seq![pair] + rest,
                    },
                ),
            },
        }
    }
}

#[via_fn]
proof fn ent_lines_decreases(s: Seq<u8>, p: int) {
    if 0 <= p <= s.len() {
        lemma_find_byte_bounds(s, p, 0x0a);
    }
}

/// One entity block: its lines after every opening brace has been stripped.
pub open spec fn ent_block(blk: Seq<u8>) -> Option<Seq<(Seq<char>, Seq<char>)>> {
    ent_lines(strip_braces(blk), 0)
}

/// `s` with every opening brace removed.
pub open spec fn strip_braces(s: Seq<u8>) -> Seq<u8>
    decreases s.len(),
{
    if s.len() == 0 {
        Seq::empty()
    } else {
        strip_braces(s.drop_last()) + if s.last() == 0x7b {
            Seq::empty()
        } else {
            seq![s.last()]
        }
    }
}

/// The entities of the blob `b` from position `p` on: blocks split on the
/// `}`-newline terminator, where a block that yields no pairs (a trailing
/// artifact) is skipped.  `None` when any block is malformed.
pub open spec fn ent_parse(b: Seq<u8>, p: int) -> Option<Seq<Seq<(Seq<char>, Seq<char>)>>>
    decreases b.len() + 1 - p,
        via ent_parse_decreases
{
    if p >= b.len() {
        Some(Seq::empty())
    } else {
        let e = find2(b, p, 0x7d, 0x0a);
        match ent_block(b.subrange(p, e)) {
            Option::None => None,
            Option::Some(pairs) => {
                let np = if e >= b.len() {
                    b.len() as int
                } else {
                    e + 2
                };
                match ent_parse(b, np) {
                    Option::None => None,
                    Option::Some(rest) => Some(
                        if pairs.len() == 0 {
                            rest
                        } else {
                            seq![pairs] + rest
                        },
                    ),
                }
            },
        }
    }
}

#[via_fn]
proof fn ent_parse_decreases(b: Seq<u8>, p: int) {
    if 0 <= p <= b.len() {
        lemma_find2_bounds(b, p, 0x7d, 0x0a);
    }
}

/// `v` holds the decoded strings of the pairs in `s`.
pub open spec fn pairs_match(s: Seq<(Seq<char>, Seq<char>)>, v: Seq<(String, String)>) -> bool {
    &&& v.len() == s.len()
    &&& forall|j: int|
        0 <= j < s.len() ==> (#[trigger] v[j]).0@ == s[j].0 && v[j].1@ == s[j].1
}

/// `v` holds the decoded entities of `s`: one ordered pair list per entity,
/// in order, duplicate keys preserved.
pub open spec fn ents_match(s: Seq<Seq<(Seq<char>, Seq<char>)>>, v: Seq<Vec<(String, String)>>)
    -> bool {
    &&& v.len() == s.len()
    &&& forall|i: int| 0 <= i < s.len() ==> pairs_match(s[i], (#[trigger] v[i])@)
}

/// Decode one line of an entity block, spanning `[a, e)` of `blk`.
fn ent_line_exec(blk: &Vec<u8>, a: usize, e: usize) -> (r: Result<
    Option<(String, String)>,
    ReadError,
>)
    requires
        a <= e <= blk@.len(),
    ensures
        ({
            let spec = ent_line(blk@.subrange(a as int, e as int));
            &&& (r is Ok <==> spec is Some)
            &&& (r matches Ok(o) ==> match o {
                Option::None => spec == Some(Option::<(Seq<char>, Seq<char>)>::None),
                Option::Some(p) => spec matches Some(so) && so matches Some(sp) && p.0@ == sp.0
                    && p.1@ == sp.1,
            })
            &&& (r matches Err(err) ==> err is MalformedText)
        }),
{
    let l = copy_range(blk, a, e);
    let llen = l.len();
    if llen == 0 {
        return Ok(None);
    }
    if llen == 1 && l[0] == 0 {
        return Ok(None);
    }
    let sp = find_byte_from(&l, 0, 0x20);
    proof {
        lemma_find_byte_bounds(l@, 0, 0x20);
    }
    if sp == llen {
        return Err(ReadError::MalformedText { position: a });
    }
    let kb = copy_range(&l, 0, sp);
    let vb = copy_range(&l, sp + 1, llen);
    let kt = trim_quotes(&kb);
    let vt = trim_quotes(&vb);
    let ks = match bytes_to_string(kt) {
        Some(s) => s,
        None => {
            return Err(ReadError::MalformedText { position: a });
        },
    };
    let vs = match bytes_to_string(vt) {
        Some(s) => s,
        None => {
            return Err(ReadError::MalformedText { position: a });
        },
    };
    Ok(Some((ks, vs)))
}

/// Remove every opening brace from the byte range `[a, e)` of `v`.
fn strip_braces_exec(v: &Vec<u8>, a: usize, e: usize) -> (r: Vec<u8>)
    requires
        a <= e <= v@.len(),
    ensures
        r@ == strip_braces(v@.subrange(a as int, e as int)),
{
    let ghost s = v@.subrange(a as int, e as int);
    let mut r: Vec<u8> = Vec::new();
    let mut i = a;
    while i < e
        invariant
            a <= i <= e <= v@.len(),
            s == v@.subrange(a as int, e as int),
            r@ == strip_braces(v@.subrange(a as int, i as int)),
        decreases e - i,
    {
        let c = v[i];
        proof {
            assert(v@.subrange(a as int, i + 1).drop_last() =~= v@.subrange(a as int, i as int));
            assert(v@.subrange(a as int, i + 1).last() == v@[i as int]);
        }
        if c != 0x7b {
            r.push(c);
        }
        i = i + 1;
    }
    r
}

/// Decode one entity block spanning `[a, e)` of `ent`: strip opening braces,
/// split into lines, and decode each line's key-value pair.
fn ent_block_exec(ent: &Vec<u8>, a: usize, e: usize) -> (r: Result<
    Vec<(String, String)>,
    ReadError,
>)
    requires
        a <= e <= ent@.len(),
    ensures
        ({
            let spec = ent_block(ent@.subrange(a as int, e as int));
            &&& (r is Ok <==> spec is Some)
            &&& (r matches Ok(pairs) ==> pairs_match(spec->Some_0, pairs@))
            &&& (r matches Err(err) ==> err is MalformedText)
        }),
{
    let ghost spec = ent_block(ent@.subrange(a as int, e as int));
    let blk = strip_braces_exec(ent, a, e);
    let ghost s = blk@;
    let blen = blk.len();
    let mut pairs: Vec<(String, String)> = Vec::new();
    let ghost mut gacc: Seq<(Seq<char>, Seq<char>)> = Seq::empty();
    let mut q: usize = 0;
    while q < blen
        invariant
            q <= blen,
            blen == blk@.len(),
            s == blk@,
            spec == ent_block(ent@.subrange(a as int, e as int)),
            spec == ent_lines(s, 0),
            ent_lines(s, 0) is Some <==> ent_lines(s, q as int) is Some,
            ent_lines(s, 0) matches Some(full) ==> ent_lines(s, q as int) matches Some(rest)
                && full == gacc + rest,
            pairs_match(gacc, pairs@),
        decreases blen - q,
    {
        let e2 = find_byte_from(&blk, q, 0x0a);
        proof {
            lemma_find_byte_bounds(s, q as int, 0x0a);
        }
        match ent_line_exec(&blk, q, e2) {
            Err(err) => {
                return Err(err);
            },
            Ok(opt) => {
                proof {
                    assert(ent_lines(s, q as int) matches Some(rr) ==> rr == (match ent_line(
                        s.subrange(q as int, e2 as int),
                    )->Some_0 {
                        Option::None => ent_lines(s, e2 + 1)->Some_0,
                        Option::Some(pair) => seq![pair] + ent_lines(s, e2 + 1)->Some_0,
                    }));
                }
                match opt {
                    None => {
                    },
                    Some(p) => {
                        let ghost sp = ent_line(s.subrange(q as int, e2 as int))->Some_0->Some_0;
                        pairs.push(p);
                        proof {
                            gacc = gacc.push(sp);
                        }
                    },
                }
                proof {
                    if ent_lines(s, 0) is Some {
                        assert(ent_lines(s, 0)->Some_0 =~= gacc + ent_lines(s, e2 + 1)->Some_0);
                    }
                }
            },
        }
        if e2 >= blen {
            q = blen;
            proof {
                assert(ent_lines(s, e2 + 1) == Some(Seq::<(Seq<char>, Seq<char>)>::empty()));
                assert(ent_lines(s, blen as int) == Some(Seq::<(Seq<char>, Seq<char>)>::empty()));
            }
        } else {
            q = e2 + 1;
        }
    }
    Ok(pairs)
}

/// Decode a textual entity blob: a sequence of brace-delimited blocks, each
/// an ordered list of quoted key-value lines.  Duplicate keys are legal and
/// kept in their original order; blocks that yield no pairs are skipped.
/// Fails with `MalformedText` exactly when some line lacks a key/value
/// split or a token is not valid UTF-8 text.
pub fn parse_entity_string(ent_string: &Vec<u8>) -> (r: Result<
    Vec<Vec<(String, String)>>,
    ReadError,
>)
    ensures
        r is Ok <==> ent_parse(ent_string@, 0) is Some,
        r matches Ok(v) ==> ents_match(ent_parse(ent_string@, 0)->Some_0, v@),
        r matches Err(e) ==> e is MalformedText,
{
    let ghost b = ent_string@;
    let len = ent_string.len();
    let mut res: Vec<Vec<(String, String)>> = Vec::new();
    let ghost mut gacc: Seq<Seq<(Seq<char>, Seq<char>)>> = Seq::empty();
    let mut p: usize = 0;
    while p < len
        invariant
            p <= len,
            len == b.len(),
            b == ent_string@,
            ent_parse(b, 0) is Some <==> ent_parse(b, p as int) is Some,
            ent_parse(b, 0) matches Some(full) ==> ent_parse(b, p as int) matches Some(rest)
                && full == gacc + rest,
            ents_match(gacc, res@),
        decreases len - p,
    {
        let e = find2_from(ent_string, p, 0x7d, 0x0a);
        proof {
            lemma_find2_bounds(b, p as int, 0x7d, 0x0a);
        }
        match ent_block_exec(ent_string, p, e) {
            Err(err) => {
                return Err(err);
            },
            Ok(pairs) => {
                let ghost sp = ent_block(b.subrange(p as int, e as int))->Some_0;
                if pairs.len() > 0 {
                    res.push(pairs);
                    proof {
                        gacc = gacc.push(sp);
                    }
                }
                proof {
                    let np: int = if e as int >= b.len() {
                        b.len() as int
                    } else {
                        e + 2
                    };
                    if ent_parse(b, 0) is Some {
                        assert(ent_parse(b, 0)->Some_0 =~= gacc + ent_parse(b, np)->Some_0);
                    }
                }
            },
        }
        if e >= len {
            p = len;
        } else {
            p = e + 2;
        }
    }
    Ok(res)
}

} // verus!
