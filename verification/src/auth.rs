//! Desktop sign-in URLs: the SSO entry URL and the `fabric://auth/callback` query.
use vstd::prelude::*;
use vstd::utf8::encode_utf8;
use vstd::string::StringSliceAdditionalSpecFns;
use crate::text::{
    chars_eq, chars_of, chars_starts_with, first_index_of, has_prefix,
    lemma_first_index_bounds, lemma_first_index_none, lemma_first_index_unique,
    lemma_split_nonempty, views, opt_view, parse_i64, parsed_i64, push_char,
    push_str, split_on, string_of, trim_end_char, trim_end_matches_char,
};

verus! {

// ---------------------------------------------------------------------------
// Percent-encoding
// ---------------------------------------------------------------------------

/// Bytes left as they are by [`url_encode`] (RFC 3986 unreserved characters).
pub open spec fn is_unreserved(b: u8) -> bool {
    (65 <= b && b <= 90) || (97 <= b && b <= 122) || (48 <= b && b <= 57) || b == 45 || b == 95
        || b == 46 || b == 126
}

/// Upper-case hexadecimal digit for `d < 16`.
pub open spec fn hex_upper(d: int) -> char {
    if d < 10 {
        (48 + d) as char
    } else {
        (55 + d) as char
    }
}

/// The text one byte becomes in a percent-encoded string.
pub open spec fn encode_byte(b: u8) -> Seq<char> {
    if is_unreserved(b) {
        seq![b as char]
    } else {
        seq!['%', hex_upper((b / 16) as int), hex_upper((b % 16) as int)]
    }
}

/// Percent-encoding of a byte sequence, byte by byte.
pub open spec fn percent_encoded(bytes: Seq<u8>) -> Seq<char>
    decreases bytes.len(),
{
    if bytes.len() == 0 {
        Seq::empty()
    } else {
        percent_encoded(bytes.drop_last()) + encode_byte(bytes.last())
    }
}

/// Value of a hexadecimal digit byte (either case).
pub open spec fn hex_digit(b: u8) -> Option<u8> {
    if 48 <= b && b <= 57 {
        Some((b - 48) as u8)
    } else if 97 <= b && b <= 102 {
        Some((b - 87) as u8)
    } else if 65 <= b && b <= 70 {
        Some((b - 55) as u8)
    } else {
        None
    }
}

/// What `u8::from_str_radix(text, 16)` gives for the two-byte text `b1 b2`:
/// two hexadecimal digits, or a `+` sign followed by one.
pub open spec fn hex_pair(b1: u8, b2: u8) -> Option<u8> {
    match (hex_digit(b1), hex_digit(b2)) {
        (Some(h), Some(l)) => Some((h * 16 + l) as u8),
        (None, Some(l)) => if b1 == 43 { Some(l) } else { None },
        _ => None,
    }
}

/// Percent-decoding of a byte sequence: `%` followed by a hexadecimal pair
/// becomes the byte it names, and every other byte stands for itself; each
/// resulting byte becomes the `char` with that code point.
pub open spec fn percent_decoded(bytes: Seq<u8>) -> Seq<char>
    decreases bytes.len(),
{
    if bytes.len() == 0 {
        Seq::empty()
    } else if bytes[0] == 37 && 2 < bytes.len() && hex_pair(bytes[1], bytes[2]) is Some {
        seq![(hex_pair(bytes[1], bytes[2])->0) as char] + percent_decoded(bytes.skip(3))
    } else {
        seq![bytes[0] as char] + percent_decoded(bytes.skip(1))
    }
}

/// The bytes of a text whose characters are all below 256, one per character.
pub open spec fn char_bytes(cs: Seq<char>) -> Seq<u8> {
    cs.map_values(|c: char| c as u8)
}

/// Each byte as the character with that code point.
pub open spec fn byte_chars(b: Seq<u8>) -> Seq<char> {
    b.map_values(|x: u8| x as char)
}

proof fn lemma_encoded_front(b: Seq<u8>)
    requires
        b.len() > 0,
    ensures
        percent_encoded(b) == encode_byte(b[0]) + percent_encoded(b.skip(1)),
    decreases b.len(),
{
    if b.len() == 1 {
        assert(b.drop_last() =~= Seq::<u8>::empty());
        assert(b.skip(1) =~= Seq::<u8>::empty());
        assert(encode_byte(b[0]) + Seq::<char>::empty() =~= encode_byte(b[0]));
    } else {
        let d = b.drop_last();
        lemma_encoded_front(d);
        assert(d.skip(1) =~= b.skip(1).drop_last());
        assert(b.skip(1).last() == b.last());
        assert(percent_encoded(b.skip(1)) == percent_encoded(b.skip(1).drop_last()) + encode_byte(
            b.skip(1).last(),
        ));
        assert(percent_encoded(b) =~= encode_byte(b[0]) + percent_encoded(b.skip(1)));
    }
}

proof fn lemma_hex_round_trip(d: int)
    requires
        0 <= d < 16,
    ensures
        hex_digit(hex_upper(d) as u8) == Some(d as u8),
{
}

proof fn lemma_decode_front(b0: u8, rest: Seq<u8>)
    ensures
        percent_decoded(char_bytes(encode_byte(b0)) + rest) == seq![b0 as char] + percent_decoded(rest),
{
    let e = char_bytes(encode_byte(b0));
    let x = e + rest;
    if is_unreserved(b0) {
        assert(e =~= seq![b0]);
        assert(x[0] == b0);
        assert(x.skip(1) =~= rest);
    } else {
        let h = (b0 / 16) as int;
        let l = (b0 % 16) as int;
        lemma_hex_round_trip(h);
        lemma_hex_round_trip(l);
        assert(e =~= seq![37u8, hex_upper(h) as u8, hex_upper(l) as u8]);
        assert(x[0] == 37u8);
        assert(x[1] == hex_upper(h) as u8);
        assert(x[2] == hex_upper(l) as u8);
        assert(h * 16 + l == b0) by (nonlinear_arith)
            requires
                h == b0 / 16,
                l == b0 % 16,
        ;
        assert(hex_pair(x[1], x[2]) == Some(b0));
        assert(x.skip(3) =~= rest);
    }
}

/// Decoding what [`url_encode`] produced gives back the original bytes, each
/// as the character with that code point (so an ASCII text comes back as it was).
pub proof fn lemma_url_round_trip(b: Seq<u8>)
    ensures
        percent_decoded(char_bytes(percent_encoded(b))) == byte_chars(b),
    decreases b.len(),
{
    if b.len() == 0 {
        assert(char_bytes(percent_encoded(b)) =~= Seq::<u8>::empty());
        assert(byte_chars(b) =~= Seq::<char>::empty());
    } else {
        lemma_encoded_front(b);
        let rest = b.skip(1);
        lemma_url_round_trip(rest);
        assert(char_bytes(encode_byte(b[0]) + percent_encoded(rest)) =~= char_bytes(encode_byte(b[0]))
            + char_bytes(percent_encoded(rest)));
        lemma_decode_front(b[0], char_bytes(percent_encoded(rest)));
        assert(byte_chars(b) =~= seq![b[0] as char] + byte_chars(rest));
    }
}

fn hex_upper_char(d: u8) -> (c: char)
    requires
        d < 16,
    ensures
        c == hex_upper(d as int),
{
    if d < 10 {
        (48u8 + d) as char
    } else {
        (55u8 + d) as char
    }
}

fn hex_digit_of(b: u8) -> (r: Option<u8>)
    ensures
        r == hex_digit(b),
{
    if 48 <= b && b <= 57 {
        Some(b - 48)
    } else if 97 <= b && b <= 102 {
        Some(b - 87)
    } else if 65 <= b && b <= 70 {
        Some(b - 55)
    } else {
        None
    }
}

fn hex_pair_of(b1: u8, b2: u8) -> (r: Option<u8>)
    ensures
        r == hex_pair(b1, b2),
{
    match (hex_digit_of(b1), hex_digit_of(b2)) {
        (Some(h), Some(l)) => Some(h * 16 + l),
        (None, Some(l)) => if b1 == 43 { Some(l) } else { None },
        _ => None,
    }
}

/// Percent-encodes the UTF-8 bytes of `s`, keeping only RFC 3986 unreserved
/// characters as they are and writing every other byte as `%XX` (upper case).
pub fn url_encode(s: &str) -> (out: String)
    ensures
        out@ == percent_encoded(s.spec_bytes()),
{
    let bytes = s.as_bytes();
    let mut out = String::new();
    let mut i: usize = 0;
    while i < bytes.len()
        invariant
            i <= bytes.len(),
            bytes@ == s.spec_bytes(),
            out@ == percent_encoded(bytes@.take(i as int)),
        decreases bytes.len() - i,
    {
        let b = bytes[i];
        if (65 <= b && b <= 90) || (97 <= b && b <= 122) || (48 <= b && b <= 57) || b == 45
            || b == 95 || b == 46 || b == 126 {
            push_char(&mut out, b as char);
        } else {
            push_char(&mut out, '%');
            push_char(&mut out, hex_upper_char(b / 16));
            push_char(&mut out, hex_upper_char(b % 16));
        }
        proof {
            let t = bytes@.take(i + 1);
            assert(t.drop_last() =~= bytes@.take(i as int));
            assert(t.last() == b);
        }
        i = i + 1;
    }
    assert(bytes@.take(bytes.len() as int) =~= bytes@);
    out
}

/// Percent-decodes the UTF-8 bytes of `s` (see [`percent_decoded`]).
pub fn decode_query_component(s: &str) -> (out: String)
    ensures
        out@ == percent_decoded(s.spec_bytes()),
{
    let bytes = s.as_bytes();
    let mut out = String::new();
    let mut i: usize = 0;
    assert(bytes@.skip(0) =~= bytes@);
    assert(out@ + percent_decoded(bytes@.skip(0)) =~= percent_decoded(bytes@));
    while i < bytes.len()
        invariant
            i <= bytes.len(),
            bytes@ == s.spec_bytes(),
            out@ + percent_decoded(bytes@.skip(i as int)) == percent_decoded(bytes@),
        decreases bytes.len() - i,
    {
        let ghost rest = bytes@.skip(i as int);
        if bytes[i] == 37 && bytes.len() - i > 2 {
            let p = hex_pair_of(bytes[i + 1], bytes[i + 2]);
            if let Some(v) = p {
                assert(rest[0] == 37 && rest[1] == bytes@[i + 1] && rest[2] == bytes@[i + 2]);
                assert(rest.skip(3) =~= bytes@.skip(i + 3));
                push_char(&mut out, v as char);
                assert(out@ + percent_decoded(bytes@.skip(i + 3)) =~= percent_decoded(bytes@));
                i = i + 3;
                continue;
            }
        }
        assert(rest[0] == bytes@[i as int]);
        assert(rest.skip(1) =~= bytes@.skip(i + 1));
        proof {
            if rest[0] == 37 && 2 < rest.len() {
                assert(rest[1] == bytes@[i + 1] && rest[2] == bytes@[i + 2]);
            }
        }
        push_char(&mut out, bytes[i] as char);
        assert(out@ + percent_decoded(bytes@.skip(i + 1)) =~= percent_decoded(bytes@));
        i = i + 1;
    }
    assert(bytes@.skip(i as int) =~= Seq::<u8>::empty());
    assert(out@ =~= percent_decoded(bytes@));
    out
}

// ---------------------------------------------------------------------------
// SSO entry URL
// ---------------------------------------------------------------------------

/// The SSO entry URL: the portal URL without trailing slashes, the deployed
/// `/login` page in desktop mode, and the percent-encoded `state`.
pub open spec fn spec_desktop_auth_url(portal: Seq<char>, state: &str) -> Seq<char> {
    trim_end_char(portal, '/') + "/login?desktop=1&state="@ + percent_encoded(state.spec_bytes())
}

/// SSO entry URL — the deployed `/login` page (IAP-exempt) in desktop mode.
pub fn desktop_auth_url(portal_url: &str, state: &str) -> (out: String)
    ensures
        out@ == spec_desktop_auth_url(portal_url@, state),
{
    let mut out = trim_end_matches_char(portal_url, '/');
    push_str(&mut out, "/login?desktop=1&state=");
    let enc = url_encode(state);
    push_str(&mut out, enc.as_str());
    out
}

// ---------------------------------------------------------------------------
// Callback query
// ---------------------------------------------------------------------------

/// Parsed `fabric://auth/callback` query (direct token or legacy one-time code).
#[derive(Debug, Clone, PartialEq, Eq)]
pub struct DesktopCallback {
    pub state: String,
    pub access_token: Option<String>,
    pub code: Option<String>,
    pub email: Option<String>,
    pub exp: Option<i64>,
}

/// Fields collected while reading the callback query.
pub struct CallbackFields {
    pub state: Option<Seq<char>>,
    pub access_token: Option<Seq<char>>,
    pub code: Option<Seq<char>>,
    pub email: Option<Seq<char>>,
    pub exp: Option<i64>,
}

/// The scheme, host and path every desktop callback starts with.
pub open spec fn callback_prefix() -> Seq<char> {
    "fabric://auth/callback?"@
}

/// No field seen yet.
pub open spec fn no_fields() -> CallbackFields {
    CallbackFields { state: None, access_token: None, code: None, email: None, exp: None }
}

/// Reads one `key=value` part of the query. An empty part is skipped; a part
/// without `=` makes the whole query invalid (`None`). The value is
/// percent-decoded; a later occurrence of a key replaces an earlier one, an
/// empty `email` counts as absent, and an `exp` that is not an `i64` counts as
/// absent. Unknown keys are ignored.
pub open spec fn read_part(acc: Option<CallbackFields>, part: Seq<char>) -> Option<CallbackFields> {
    match acc {
        None => None,
        Some(f) => {
            if part.len() == 0 {
                Some(f)
            } else {
                match first_index_of(part, '=') {
                    None => None,
                    Some(k) => {
                        let key = part.take(k);
                        let val = percent_decoded(encode_utf8(part.skip(k + 1)));
                        if key == "state"@ {
                            Some(CallbackFields { state: Some(val), ..f })
                        } else if key == "access_token"@ {
                            Some(CallbackFields { access_token: Some(val), ..f })
                        } else if key == "code"@ {
                            Some(CallbackFields { code: Some(val), ..f })
                        } else if key == "email"@ {
                            Some(
                                CallbackFields {
                                    email: if val.len() > 0 { Some(val) } else { None },
                                    ..f
                                },
                            )
                        } else if key == "exp"@ {
                            Some(CallbackFields { exp: parsed_i64(val), ..f })
                        } else {
                            Some(f)
                        }
                    },
                }
            }
        },
    }
}

/// Reads the parts of the query in order.
pub open spec fn read_parts(parts: Seq<Seq<char>>) -> Option<CallbackFields>
    decreases parts.len(),
{
    if parts.len() == 0 {
        Some(no_fields())
    } else {
        read_part(read_parts(parts.drop_last()), parts.last())
    }
}

/// The fields of the callback URL `url`: `None` unless it starts with the
/// callback prefix and every non-empty `&`-separated part holds a `=`.
pub open spec fn callback_fields(url: Seq<char>) -> Option<CallbackFields> {
    if has_prefix(url, callback_prefix()) {
        read_parts(split_on(url.skip(callback_prefix().len() as int), '&'))
    } else {
        None
    }
}

/// The callback as the library reports it: present exactly when the fields
/// could be read and include a `state`.
pub open spec fn callback_matches(url: Seq<char>, cb: Option<DesktopCallback>) -> bool {
    match callback_fields(url) {
        Some(f) => match f.state {
            Some(st) => cb is Some && {
                let c = cb->0;
                &&& c.state@ == st
                &&& opt_view(c.access_token) == f.access_token
                &&& opt_view(c.code) == f.code
                &&& opt_view(c.email) == f.email
                &&& c.exp == f.exp
            },
            None => cb is None,
        },
        None => cb is None,
    }
}

/// The parts of `s` between occurrences of `sep`.
pub fn split_chars(s: &[char], sep: char) -> (parts: Vec<Vec<char>>)
    ensures
        views(parts@) == split_on(s@, sep),
{
    let mut parts: Vec<Vec<char>> = Vec::new();
    let mut cur: Vec<char> = Vec::new();
    let mut i: usize = 0;
    assert(s@.take(0) =~= Seq::<char>::empty());
    assert(views(parts@).push(cur@) =~= split_on(s@.take(0), sep));
    while i < s.len()
        invariant
            i <= s.len(),
            views(parts@).push(cur@) == split_on(s@.take(i as int), sep),
        decreases s.len() - i,
    {
        let ghost t = s@.take(i + 1);
        assert(t.drop_last() =~= s@.take(i as int));
        assert(t.last() == s@[i as int]);
        proof {
            lemma_split_nonempty(s@.take(i as int), sep);
        }
        let ghost before = views(parts@);
        let ghost cv = cur@;
        assert(split_on(t, sep) == if t.last() == sep {
            split_on(t.drop_last(), sep).push(Seq::<char>::empty())
        } else {
            let pre = split_on(t.drop_last(), sep);
            pre.update(pre.len() - 1, pre.last().push(t.last()))
        });
        if s[i] == sep {
            let done = cur;
            parts.push(done);
            cur = Vec::new();
            assert(views(parts@) =~= before.push(cv));
            assert(views(parts@).push(cur@) =~= split_on(t, sep));
        } else {
            cur.push(s[i]);
            assert(views(parts@) =~= before);
            assert(views(parts@).push(cur@) =~= split_on(t, sep));
        }
        i = i + 1;
    }
    assert(s@.take(s.len() as int) =~= s@);
    let ghost before = views(parts@);
    let ghost cv = cur@;
    parts.push(cur);
    assert(views(parts@) =~= before.push(cv));
    parts
}

/// Exec counterpart of [`CallbackFields`].
struct FieldsExec {
    state: Option<String>,
    access_token: Option<String>,
    code: Option<String>,
    email: Option<String>,
    exp: Option<i64>,
}

spec fn fields_view(f: FieldsExec) -> CallbackFields {
    CallbackFields {
        state: opt_view(f.state),
        access_token: opt_view(f.access_token),
        code: opt_view(f.code),
        email: opt_view(f.email),
        exp: f.exp,
    }
}

/// Position of the first `c` in `s`.
fn find_char(s: &[char], c: char) -> (r: Option<usize>)
    ensures
        r matches Some(k) ==> first_index_of(s@, c) == Some(k as int),
        r is None ==> first_index_of(s@, c) is None,
{
    let mut i: usize = 0;
    while i < s.len()
        invariant
            i <= s.len(),
            forall|j: int| 0 <= j < i ==> s@[j] != c,
        decreases s.len() - i,
    {
        if s[i] == c {
            proof {
                lemma_first_index_unique(s@, c, i as int);
            }
            return Some(i);
        }
        i = i + 1;
    }
    proof {
        lemma_first_index_none(s@, c);
    }
    None
}

/// Reads one part into `f` (see [`read_part`]); `false` when the part has no `=`.
fn read_part_exec(f: &mut FieldsExec, part: &[char]) -> (ok: bool)
    ensures
        read_part(Some(fields_view(*old(f))), part@) == (if ok {
            Some(fields_view(*final(f)))
        } else {
            None::<CallbackFields>
        }),
{
    if part.len() == 0 {
        return true;
    }
    let k = match find_char(part, '=') {
        Some(k) => k,
        None => return false,
    };
    assert(k < part.len()) by {
        lemma_first_index_bounds(part@, '=');
    }
    let key = vstd::slice::slice_subrange(part, 0, k);
    let val_chars = vstd::slice::slice_subrange(part, k + 1, part.len());
    assert(key@ =~= part@.take(k as int));
    assert(val_chars@ =~= part@.skip(k + 1));
    let raw = string_of(val_chars);
    let val = decode_query_component(raw.as_str());
    let ks = chars_of("state");
    let ka = chars_of("access_token");
    let kc = chars_of("code");
    let ke = chars_of("email");
    let kx = chars_of("exp");
    if chars_eq(key, ks.as_slice()) {
        f.state = Some(val);
    } else if chars_eq(key, ka.as_slice()) {
        f.access_token = Some(val);
    } else if chars_eq(key, kc.as_slice()) {
        f.code = Some(val);
    } else if chars_eq(key, ke.as_slice()) {
        let vc = chars_of(val.as_str());
        f.email = if vc.len() > 0 { Some(val) } else { None };
    } else if chars_eq(key, kx.as_slice()) {
        let vc = chars_of(val.as_str());
        f.exp = parse_i64(vc.as_slice());
    }
    true
}

/// Parses a `fabric://auth/callback?…` URL. `None` for another scheme or path,
/// for a part without `=`, or when no `state` is present.
pub fn parse_desktop_callback(url: &str) -> (r: Option<DesktopCallback>)
    ensures
        callback_matches(url@, r),
{
    let cs = chars_of(url);
    let prefix = chars_of("fabric://auth/callback?");
    if !chars_starts_with(cs.as_slice(), prefix.as_slice()) {
        return None;
    }
    let rest = vstd::slice::slice_subrange(cs.as_slice(), prefix.len(), cs.len());
    assert(rest@ =~= url@.skip(callback_prefix().len() as int));
    let parts = split_chars(rest, '&');
    let ghost pv = views(parts@);
    let mut f = FieldsExec { state: None, access_token: None, code: None, email: None, exp: None };
    let mut i: usize = 0;
    assert(pv.take(0) =~= Seq::<Seq<char>>::empty());
    while i < parts.len()
        invariant
            i <= parts.len(),
            pv == views(parts@),
            pv == split_on(url@.skip(callback_prefix().len() as int), '&'),
            read_parts(pv.take(i as int)) == Some(fields_view(f)),
        decreases parts.len() - i,
    {
        let ghost t = pv.take(i + 1);
        assert(t.drop_last() =~= pv.take(i as int));
        assert(t.last() == parts@[i as int]@);
        let ok = read_part_exec(&mut f, parts[i].as_slice());
        if !ok {
            proof {
                lemma_read_parts_none(pv, i as int + 1);
            }
            assert(pv.take(pv.len() as int) =~= pv);
            return None;
        }
        i = i + 1;
    }
    assert(pv.take(pv.len() as int) =~= pv);
    match f.state {
        Some(state) => Some(
            DesktopCallback {
                state,
                access_token: f.access_token,
                code: f.code,
                email: f.email,
                exp: f.exp,
            },
        ),
        None => None,
    }
}

/// Once reading fails, it stays failed for every longer prefix of the parts.
proof fn lemma_read_parts_none(pv: Seq<Seq<char>>, n: int)
    requires
        0 <= n <= pv.len(),
        read_parts(pv.take(n)) is None,
    ensures
        read_parts(pv) is None,
    decreases pv.len() - n,
{
    if n < pv.len() {
        let t = pv.take(n + 1);
        assert(t.drop_last() =~= pv.take(n));
        lemma_read_parts_none(pv, n + 1);
    } else {
        assert(pv.take(n) =~= pv);
    }
}

/// The legacy one-time `(code, state)` pair, when the callback carries a code.
pub fn parse_callback_url(url: &str) -> (r: Option<(String, String)>)
    ensures
        match callback_fields(url@) {
            Some(f) => match (f.code, f.state) {
                (Some(c), Some(s)) => r matches Some((rc, rs)) && rc@ == c && rs@ == s,
                _ => r is None,
            },
            None => r is None,
        },
{
    match parse_desktop_callback(url) {
        Some(cb) => match cb.code {
            Some(code) => Some((code, cb.state)),
            None => None,
        },
        None => None,
    }
}

} // verus!
