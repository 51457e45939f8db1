//! FAB1 container framing: magic, little-endian header length, JSON header,
//! then the raw arrays the header lists, back to back.
//!
//! Decoding the JSON header into a [`FabHeader`](crate::vizmodel::FabHeader)
//! happens between [`fab1_header_span`] and [`fab1_arrays`].
use vstd::prelude::*;
use crate::vizmodel::FabArrayDesc;
use crate::text::{owned, push_str, str_eq, utf8_lossy, utf8_lossy_text};

verus! {

/// The four magic bytes `FAB1`.
pub open spec fn fab_magic() -> Seq<u8> {
    seq![70u8, 65u8, 66u8, 49u8]
}

/// The little-endian `u32` in four bytes.
pub open spec fn le_u32(b: Seq<u8>) -> int {
    b[0] + 256 * b[1] + 65536 * b[2] + 16777216 * b[3]
}

/// Where the JSON header of a FAB1 blob lies, or why the blob is refused:
/// too short for magic and length, wrong magic, a header end past `usize`,
/// or a header past the end of the blob.
pub open spec fn header_span_spec(buf: Seq<u8>) -> Result<(int, int), Seq<char>> {
    if buf.len() < 8 {
        Err("FAB file too short"@)
    } else if buf.subrange(0, 4) != fab_magic() {
        Err("not a FAB file (magic="@ + utf8_lossy_text(buf.subrange(0, 4)) + ")"@)
    } else if 8 + le_u32(buf.subrange(4, 8)) > usize::MAX {
        Err("header length overflow"@)
    } else if buf.len() < 8 + le_u32(buf.subrange(4, 8)) {
        Err("truncated FAB header"@)
    } else {
        Ok((8, 8 + le_u32(buf.subrange(4, 8))))
    }
}

/// The byte range of a FAB1 blob's JSON header (see [`header_span_spec`]).
pub fn fab1_header_span(buf: &[u8]) -> (r: Result<(usize, usize), String>)
    ensures
        match r {
            Ok((a, b)) => header_span_spec(buf@) == Ok::<(int, int), Seq<char>>((a as int, b as int)),
            Err(m) => header_span_spec(buf@) == Err::<(int, int), Seq<char>>(m@),
        },
{
    if buf.len() < 8 {
        return Err(owned("FAB file too short"));
    }
    if !(buf[0] == 70u8 && buf[1] == 65u8 && buf[2] == 66u8 && buf[3] == 49u8) {
        let mut m = owned("not a FAB file (magic=");
        let magic = utf8_lossy(vstd::slice::slice_subrange(buf, 0, 4));
        push_str(&mut m, magic.as_str());
        push_str(&mut m, ")");
        proof {
            if buf@.subrange(0, 4) == fab_magic() {
                assert(buf@[0] == buf@.subrange(0, 4)[0]);
                assert(buf@[1] == buf@.subrange(0, 4)[1]);
                assert(buf@[2] == buf@.subrange(0, 4)[2]);
                assert(buf@[3] == buf@.subrange(0, 4)[3]);
            }
        }
        return Err(m);
    }
    assert(buf@.subrange(0, 4) =~= fab_magic());
    let ghost h = buf@.subrange(4, 8);
    assert(h[0] == buf@[4] && h[1] == buf@[5] && h[2] == buf@[6] && h[3] == buf@[7]);
    let hlen: u32 = (buf[4] as u32) + (buf[5] as u32) * 256 + (buf[6] as u32) * 65536 + (buf[7]
        as u32) * 16777216;
    let hlen = hlen as usize;
    if hlen > usize::MAX - 8 {
        return Err(owned("header length overflow"));
    }
    let end = 8 + hlen;
    if buf.len() < end {
        return Err(owned("truncated FAB header"));
    }
    Ok((8, end))
}

/// Bytes per element of a dtype, or why the array is refused.
pub open spec fn byte_len_spec(dtype: Seq<char>, len: i64) -> Result<int, Seq<char>> {
    if len < 0 {
        Err("negative array length for dtype "@ + dtype)
    } else if dtype != "int32"@ && dtype != "float32"@ {
        Err("unknown dtype "@ + dtype)
    } else if len * 4 > usize::MAX || len > usize::MAX {
        Err("array byte length overflow for dtype "@ + dtype)
    } else {
        Ok(len * 4)
    }
}

/// Byte length of an array of `len` elements of `dtype` (see [`byte_len_spec`]).
pub fn array_byte_len(dtype: &str, len: i64) -> (r: Result<usize, String>)
    ensures
        match r {
            Ok(n) => byte_len_spec(dtype@, len) == Ok::<int, Seq<char>>(n as int),
            Err(m) => byte_len_spec(dtype@, len) == Err::<int, Seq<char>>(m@),
        },
{
    if len < 0 {
        let mut m = owned("negative array length for dtype ");
        push_str(&mut m, dtype);
        return Err(m);
    }
    if !(str_eq(dtype, "int32") || str_eq(dtype, "float32")) {
        let mut m = owned("unknown dtype ");
        push_str(&mut m, dtype);
        return Err(m);
    }
    if (len as u64) > (usize::MAX as u64) || (len as usize) > usize::MAX / 4 {
        let mut m = owned("array byte length overflow for dtype ");
        push_str(&mut m, dtype);
        return Err(m);
    }
    Ok((len as usize) * 4)
}

/// `arrays` with `name` bound to `bytes`: the entry of that name replaced in
/// place, or a new entry at the end.
pub open spec fn put_array(arrays: Seq<(Seq<char>, Seq<u8>)>, name: Seq<char>, bytes: Seq<u8>) -> Seq<
    (Seq<char>, Seq<u8>),
> {
    match crate::seqs::first_match(arrays, |e: (Seq<char>, Seq<u8>)| e.0 == name) {
        Some(i) => arrays.update(i, (name, bytes)),
        None => arrays.push((name, bytes)),
    }
}

/// The arrays of a FAB1 blob read from offset `off` on, added to `acc`, or the
/// first refusal: a bad dtype or length, an end past `usize`, or an array past
/// the end of the blob.
pub open spec fn arrays_spec(
    buf: Seq<u8>,
    descs: Seq<FabArrayDesc>,
    off: int,
    acc: Seq<(Seq<char>, Seq<u8>)>,
) -> Result<Seq<(Seq<char>, Seq<u8>)>, Seq<char>>
    decreases descs.len(),
{
    if descs.len() == 0 {
        Ok(acc)
    } else {
        let d = descs[0];
        match byte_len_spec(d.dtype@, d.len) {
            Err(m) => Err(m),
            Ok(n) => {
                let end = off + n;
                if end > usize::MAX {
                    Err("array "@ + d.name@ + " length overflow"@)
                } else if buf.len() < end {
                    Err("truncated array "@ + d.name@)
                } else {
                    arrays_spec(buf, descs.skip(1), end, put_array(acc, d.name@, buf.subrange(off, end)))
                }
            },
        }
    }
}

/// The text views of named arrays.
pub open spec fn arrays_view(v: Seq<(String, Vec<u8>)>) -> Seq<(Seq<char>, Seq<u8>)> {
    v.map_values(|e: (String, Vec<u8>)| (e.0@, e.1@))
}

fn put_array_exec(arrays: &mut Vec<(String, Vec<u8>)>, name: &String, bytes: Vec<u8>)
    ensures
        arrays_view(final(arrays)@) == put_array(arrays_view(old(arrays)@), name@, bytes@),
{
    let ghost v = arrays_view(arrays@);
    let ghost p = |e: (Seq<char>, Seq<u8>)| e.0 == name@;
    let mut i: usize = 0;
    while i < arrays.len()
        invariant
            i <= arrays.len(),
            arrays@ == old(arrays)@,
            v == arrays_view(arrays@),
            p == (|e: (Seq<char>, Seq<u8>)| e.0 == name@),
            forall|j: int| 0 <= j < i ==> !p(#[trigger] v[j]),
        decreases arrays.len() - i,
    {
        assert(v[i as int] == (arrays@[i as int].0@, arrays@[i as int].1@));
        if str_eq(arrays[i].0.as_str(), name.as_str()) {
            proof {
                crate::seqs::lemma_first_match_at(v, p, i as int);
            }
            arrays.set(i, (name.clone(), bytes));
            assert(arrays_view(arrays@) =~= v.update(i as int, (name@, bytes@)));
            return;
        }
        i = i + 1;
    }
    proof {
        crate::seqs::lemma_first_match_none(v, p);
    }
    arrays.push((name.clone(), bytes));
    assert(arrays_view(arrays@) =~= v.push((name@, bytes@)));
}

/// The arrays a FAB1 blob's header lists, read back to back from the end of
/// the header (see [`arrays_spec`]); a name listed twice keeps its last bytes.
pub fn fab1_arrays(buf: &[u8], hdr_end: usize, descs: &[FabArrayDesc]) -> (r: Result<
    Vec<(String, Vec<u8>)>,
    String,
>)
    ensures
        match r {
            Ok(v) => arrays_spec(buf@, descs@, hdr_end as int, Seq::empty())
                == Ok::<Seq<(Seq<char>, Seq<u8>)>, Seq<char>>(arrays_view(v@)),
            Err(m) => arrays_spec(buf@, descs@, hdr_end as int, Seq::empty())
                == Err::<Seq<(Seq<char>, Seq<u8>)>, Seq<char>>(m@),
        },
{
    let mut off: usize = hdr_end;
    let mut out: Vec<(String, Vec<u8>)> = Vec::new();
    let mut i: usize = 0;
    assert(descs@.skip(0) =~= descs@);
    assert(arrays_view(out@) =~= Seq::<(Seq<char>, Seq<u8>)>::empty());
    while i < descs.len()
        invariant
            i <= descs.len(),
            arrays_spec(buf@, descs@, hdr_end as int, Seq::empty()) == arrays_spec(
                buf@,
                descs@.skip(i as int),
                off as int,
                arrays_view(out@),
            ),
        decreases descs.len() - i,
    {
        let d = &descs[i];
        assert(descs@.skip(i as int)[0] == *d);
        assert(descs@.skip(i as int).skip(1) =~= descs@.skip(i + 1));
        let n = match array_byte_len(d.dtype.as_str(), d.len) {
            Ok(n) => n,
            Err(m) => return Err(m),
        };
        if off > usize::MAX - n {
            let mut m = owned("array ");
            push_str(&mut m, d.name.as_str());
            push_str(&mut m, " length overflow");
            return Err(m);
        }
        let end = off + n;
        if buf.len() < end {
            let mut m = owned("truncated array ");
            push_str(&mut m, d.name.as_str());
            return Err(m);
        }
        let bytes = vstd::slice::slice_to_vec(vstd::slice::slice_subrange(buf, off, end));
        put_array_exec(&mut out, &d.name, bytes);
        off = end;
        i = i + 1;
    }
    Ok(out)
}

} // verus!
