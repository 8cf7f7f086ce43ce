//! Storage locations and cache naming: the well-known files under the
//! store directory, the search-index key, and the deterministic names
//! given to cached thumbnails. Reading and writing those locations is the
//! caller's business; everything here only computes names.

use vstd::prelude::*;

use crate::util::chars_of;
use crate::util::concat2;
use crate::util::concat3;
use crate::util::push_char;

verus! {

use vstd::string::StrSliceExecFns;
use vstd::string::StringExecFns;
use vstd::string::StringSliceAdditionalSpecFns;

/// The media-cache directory under the store directory.
pub fn cache_dir(dir: &str) -> (r: String)
    ensures
        r@ == dir@ + "/media_cache"@,
{
    concat2(dir, "/media_cache")
}

/// The session file under the store directory.
pub fn session_file(dir: &str) -> (r: String)
    ensures
        r@ == dir@ + "/session.json"@,
{
    concat2(dir, "/session.json")
}

/// The persisted room-list snapshot under the store directory.
pub fn room_list_cache_file(dir: &str) -> (r: String)
    ensures
        r@ == dir@ + "/room_list_cache.json"@,
{
    concat2(dir, "/room_list_cache.json")
}

/// The search-index directory under the store directory.
pub fn search_index_dir(store_dir: &str) -> (r: String)
    ensures
        r@ == store_dir@ + "/search_index"@,
{
    concat2(store_dir, "/search_index")
}

/// The search-index key file under the store directory.
pub fn search_index_key_file(store_dir: &str) -> (r: String)
    ensures
        r@ == store_dir@ + "/search_index_key.txt"@,
{
    concat2(store_dir, "/search_index_key.txt")
}

/// The store directory of one account: a subdirectory per account
/// identifier, or the base directory itself when no account is given.
pub fn account_store_dir(base: &str, account_id: Option<&str>) -> (r: String)
    ensures
        r@ == (match account_id {
            Some(id) => base@ + "/accounts/"@ + id@,
            None => base@,
        }),
{
    match account_id {
        Some(id) => concat3(base, "/accounts/", id),
        None => base.to_owned(),
    }
}

/// Relies on SystemTime::now and its distance from the epoch, reduced to
/// milliseconds. Nothing can be promised of the clock's reading; a reading
/// before the epoch is reported as zero rather than failing.
#[verifier::external_body]
pub fn now_ms() -> u64 {
    std::time::SystemTime::now().duration_since(std::time::UNIX_EPOCH).map(
        |d| d.as_millis() as u64,
    ).unwrap_or(0)
}

/// Relies on uuid's Uuid::new_v4 and its hyphenated rendering: a fresh
/// random identifier, always 36 characters long. The call draws from the
/// operating system's randomness source and aborts if that source fails —
/// an environmental failure, like running out of memory.
#[verifier::external_body]
fn fresh_uuid_string() -> (r: String)
    ensures
        r@.len() == 36,
{
    uuid::Uuid::new_v4().to_string()
}

/// The hex digest blake3 assigns to a byte sequence.
pub uninterp spec fn blake3_hex(input: Seq<u8>) -> Seq<char>;

/// Relies on blake3::hash and Hash::to_hex: the digest depends on the
/// input bytes alone, and its hex form is 64 characters long.
#[verifier::external_body]
fn blake3_hex_of(s: &str) -> (r: String)
    ensures
        r@ == blake3_hex(s.spec_bytes()),
        r@.len() == 64,
{
    blake3::hash(s.as_bytes()).to_hex().as_str().to_owned()
}

/// Whether the trimmed key text is usable: it holds a character that is
/// not whitespace.
pub open spec fn spec_key_usable(s: Seq<char>) -> bool {
    !crate::reply::spec_all_space(s)
}

/// Resolves the search-index key from what the key file held: a loaded key
/// that trims to something nonempty is used trimmed; otherwise a fresh
/// 72-character key is made. The result is never empty.
pub fn resolve_index_key(loaded: Option<String>) -> (r: String)
    ensures
        match loaded {
            Some(k) => {
                if spec_key_usable(k@) {
                    r@ == crate::reply::spec_trim_space(k@)
                } else {
                    r@.len() == 72
                }
            },
            None => r@.len() == 72,
        },
{
    match loaded {
        Some(k) => {
            if !crate::render::str_all_space(k.as_str()) {
                return crate::reply::trim_spaces(k.as_str());
            }
            let a = fresh_uuid_string();
            let b = fresh_uuid_string();
            a.concat(b.as_str())
        },
        None => {
            let a = fresh_uuid_string();
            let b = fresh_uuid_string();
            a.concat(b.as_str())
        },
    }
}

/// The decimal digits, in order of value.
pub open spec fn spec_dec_digits() -> Seq<char> {
    seq!['0', '1', '2', '3', '4', '5', '6', '7', '8', '9']
}

/// The decimal rendering of a number.
pub open spec fn spec_dec(n: nat) -> Seq<char>
    decreases n,
{
    if n < 10 {
        seq![spec_dec_digits()[n as int]]
    } else {
        spec_dec(n / 10) + seq![spec_dec_digits()[(n % 10) as int]]
    }
}

/// One decimal digit as a character.
fn dec_digit(d: u64) -> (c: char)
    requires
        d < 10,
    ensures
        c == spec_dec_digits()[d as int],
{
    let c = match d {
        0u64 => '0',
        1u64 => '1',
        2u64 => '2',
        3u64 => '3',
        4u64 => '4',
        5u64 => '5',
        6u64 => '6',
        7u64 => '7',
        8u64 => '8',
        _ => '9',
    };
    proof {
        assert(spec_dec_digits()[d as int] == c);
    }
    c
}

/// Renders a number in decimal.
pub fn u64_to_dec(n: u64) -> (r: String)
    ensures
        r@ == spec_dec(n as nat),
    decreases n,
{
    if n < 10 {
        let mut r = String::new();
        push_char(&mut r, dec_digit(n));
        proof {
            assert(r@ =~= spec_dec(n as nat));
        }
        r
    } else {
        let q = n / 10;
        let d = n % 10;
        let mut r = u64_to_dec(q);
        push_char(&mut r, dec_digit(d));
        proof {
            assert(r@ =~= spec_dec((n / 10) as nat) + seq![
                spec_dec_digits()[(n % 10) as int],
            ]);
        }
        r
    }
}

/// Whether a character may stand in a cache file name.
pub open spec fn spec_name_char_ok(c: char) -> bool {
    ||| 'a' <= c <= 'z'
    ||| 'A' <= c <= 'Z'
    ||| '0' <= c <= '9'
    ||| c == '-'
    ||| c == '_'
    ||| c == '.'
}

/// Each character of a sanitized name: kept when allowed, an underscore
/// otherwise.
pub open spec fn spec_sanitize_char(c: char) -> char {
    if spec_name_char_ok(c) {
        c
    } else {
        '_'
    }
}

/// A name with underscores trimmed from the front.
pub open spec fn spec_ltrim_underscore(s: Seq<char>) -> Seq<char>
    decreases s.len(),
{
    if s.len() > 0 && s[0] == '_' {
        spec_ltrim_underscore(s.skip(1))
    } else {
        s
    }
}

/// A name with underscores trimmed from the back.
pub open spec fn spec_rtrim_underscore(s: Seq<char>) -> Seq<char>
    decreases s.len(),
{
    if s.len() > 0 && s.last() == '_' {
        spec_rtrim_underscore(s.drop_last())
    } else {
        s
    }
}

/// A name with every disallowed character replaced by an underscore.
pub open spec fn spec_mapped_name(s: Seq<char>) -> Seq<char> {
    s.map(|i: int, c: char| spec_sanitize_char(c))
}

/// A file name made safe: every disallowed character replaced by an
/// underscore, and underscores trimmed from both ends.
pub open spec fn spec_sanitize(s: Seq<char>) -> Seq<char> {
    spec_rtrim_underscore(spec_ltrim_underscore(spec_mapped_name(s)))
}

/// Whether this character may stand in a cache file name.
fn name_char_ok(c: char) -> (r: bool)
    ensures
        r == spec_name_char_ok(c),
{
    ('a' <= c && c <= 'z') || ('A' <= c && c <= 'Z') || ('0' <= c && c <= '9') || c == '-' || c
        == '_' || c == '.'
}

/// Makes a file name safe for the cache directory.
pub fn sanitize_filename(name: &str) -> (r: String)
    ensures
        r@ == spec_sanitize(name@),
{
    let v = chars_of(name);
    let n: usize = v.len();
    let mut mv: Vec<char> = Vec::new();
    let mut i: usize = 0;
    while i < n
        invariant
            n == v.len(),
            v@ == name@,
            i <= n,
            mv@.len() == i,
            forall|j: int| 0 <= j < i ==> mv@[j] == spec_mapped_name(name@)[j],
        decreases n - i,
    {
        let c = v[i];
        if name_char_ok(c) {
            mv.push(c);
        } else {
            mv.push('_');
        }
        i = i + 1;
    }
    let ghost mapped = spec_mapped_name(name@);
    proof {
        assert(mv@ =~= mapped);
    }
    let mut lo: usize = 0;
    while lo < n && mv[lo] == '_'
        invariant
            mv@ == mapped,
            mapped.len() == n,
            lo <= n,
            forall|j: int| 0 <= j < lo ==> mapped[j] == '_',
        decreases n - lo,
    {
        lo = lo + 1;
    }
    let mut hi: usize = n;
    while hi > lo && mv[hi - 1] == '_'
        invariant
            mv@ == mapped,
            mapped.len() == n,
            lo <= hi <= n,
            lo < n ==> mapped[lo as int] != '_',
            forall|j: int| hi <= j < n ==> mapped[j] == '_',
        decreases hi,
    {
        hi = hi - 1;
    }
    let mut out = String::new();
    let mut k: usize = lo;
    while k < hi
        invariant
            mv@ == mapped,
            mapped.len() == n,
            lo <= k <= hi <= n,
            out@ =~= mapped.subrange(lo as int, k as int),
        decreases hi - k,
    {
        push_char(&mut out, mv[k]);
        proof {
            assert(mapped.subrange(lo as int, k + 1) =~= mapped.subrange(lo as int, k as int).push(
                mapped[k as int],
            ));
        }
        k = k + 1;
    }
    proof {
        if lo < n {
        }
        lemma_trim_is_subrange(mapped, lo as int, hi as int);
        assert(out@ =~= spec_sanitize(name@));
    }
    out
}

/// Trimming underscores from both ends of a name whose underscores sit
/// exactly outside `[lo, hi)` yields that subrange, provided its edges are
/// not underscores.
proof fn lemma_trim_is_subrange(s: Seq<char>, lo: int, hi: int)
    requires
        0 <= lo <= hi <= s.len(),
        forall|j: int| 0 <= j < lo ==> s[j] == '_',
        forall|j: int| hi <= j < s.len() ==> s[j] == '_',
        lo < hi ==> s[lo] != '_' && s[hi - 1] != '_',
        lo == hi ==> lo == s.len(),
    ensures
        lo < hi ==> spec_rtrim_underscore(spec_ltrim_underscore(s)) == s.subrange(lo, hi),
        lo == hi ==> spec_rtrim_underscore(spec_ltrim_underscore(s)) == Seq::<char>::empty(),
    decreases s.len(),
{
    if lo < hi {
        lemma_ltrim(s, lo);
        lemma_rtrim(s.skip(lo), hi - lo);
        assert(s.skip(lo).take(hi - lo) =~= s.subrange(lo, hi));
    } else {
        lemma_ltrim_all(s);
        assert(spec_ltrim_underscore(s) =~= Seq::<char>::empty());
    }
}

/// Trimming the front stops exactly at the first non-underscore.
proof fn lemma_ltrim(s: Seq<char>, lo: int)
    requires
        0 <= lo < s.len(),
        forall|j: int| 0 <= j < lo ==> s[j] == '_',
        s[lo] != '_',
    ensures
        spec_ltrim_underscore(s) == s.skip(lo),
    decreases lo,
{
    if lo == 0 {
        assert(s.skip(0) =~= s);
    } else {
        lemma_ltrim(s.skip(1), lo - 1);
        assert(s.skip(1).skip(lo - 1) =~= s.skip(lo));
    }
}

/// Trimming the front of an all-underscore name leaves nothing.
proof fn lemma_ltrim_all(s: Seq<char>)
    requires
        forall|j: int| 0 <= j < s.len() ==> s[j] == '_',
    ensures
        spec_ltrim_underscore(s).len() == 0,
    decreases s.len(),
{
    if s.len() > 0 {
        lemma_ltrim_all(s.skip(1));
    }
}

/// Trimming the back stops exactly at the last non-underscore.
proof fn lemma_rtrim(s: Seq<char>, hi: int)
    requires
        0 < hi <= s.len(),
        forall|j: int| hi <= j < s.len() ==> s[j] == '_',
        s[hi - 1] != '_',
    ensures
        spec_rtrim_underscore(s) == s.take(hi),
    decreases s.len(),
{
    if hi == s.len() {
        assert(s.take(hi) =~= s);
    } else {
        lemma_rtrim(s.drop_last(), hi);
        assert(s.drop_last().take(hi) =~= s.take(hi));
    }
}

/// The extension taken from a mime type: the piece after the first slash,
/// up to the next slash, when it is not empty; `jpg` otherwise.
pub open spec fn spec_segment_end(s: Seq<char>, i: int) -> int
    decreases s.len() - i,
{
    if 0 <= i < s.len() && s[i] != '/' {
        1 + spec_segment_end(s, i + 1)
    } else {
        0
    }
}

/// Where the first slash stands, or the length when there is none.
pub open spec fn spec_first_slash(s: Seq<char>) -> int
    decreases s.len(),
{
    if s.len() == 0 {
        0
    } else if s[0] == '/' {
        0
    } else {
        1 + spec_first_slash(s.skip(1))
    }
}

/// The second slash-separated piece of a mime type, if there is one.
pub open spec fn spec_mime_subtype(s: Seq<char>) -> Option<Seq<char>> {
    let i = spec_first_slash(s);
    if i < s.len() {
        Some(s.skip(i + 1).take(spec_segment_end(s, i + 1)))
    } else {
        None
    }
}

/// The file extension used for a cached thumbnail.
pub open spec fn spec_thumb_ext(mime: Option<Seq<char>>) -> Seq<char> {
    match mime {
        Some(m) => match spec_mime_subtype(m) {
            Some(sub) => {
                if sub.len() > 0 {
                    sub
                } else {
                    "jpg"@
                }
            },
            None => "jpg"@,
        },
        None => "jpg"@,
    }
}

/// Where the first slash stands in the characters, or their length.
fn first_slash_at(v: &Vec<char>, i: usize) -> (r: usize)
    requires
        i <= v.len(),
    ensures
        i <= r <= v.len(),
        r - i == spec_first_slash(v@.skip(i as int)),
    decreases v.len() - i,
{
    if i == v.len() {
        i
    } else if v[i] == '/' {
        proof {
            assert(v@.skip(i as int)[0] == v@[i as int]);
        }
        i
    } else {
        proof {
            assert(v@.skip(i as int)[0] == v@[i as int]);
            assert(v@.skip(i as int).skip(1) =~= v@.skip(i + 1));
        }
        first_slash_at(v, i + 1)
    }
}

/// How long the slash-free run starting at `i` is.
fn segment_end_at(v: &Vec<char>, i: usize) -> (r: usize)
    requires
        i <= v.len(),
    ensures
        i + r <= v.len(),
        r == spec_segment_end(v@, i as int),
    decreases v.len() - i,
{
    if i < v.len() && v[i] != '/' {
        let rest = segment_end_at(v, i + 1);
        1 + rest
    } else {
        0
    }
}

/// The file extension used for a cached thumbnail of this mime type.
pub fn thumb_ext(mime: Option<&str>) -> (r: String)
    ensures
        r@ == spec_thumb_ext(
            match mime {
                Some(m) => Some(m@),
                None => None,
            },
        ),
{
    match mime {
        Some(m) => {
            let v = chars_of(m);
            proof {
                assert(v@.skip(0) =~= v@);
            }
            let i = first_slash_at(&v, 0);
            if i < v.len() {
                let e = segment_end_at(&v, i + 1);
                if e > 0 {
                    let mut out = String::new();
                    let mut k: usize = i + 1;
                    while k < i + 1 + e
                        invariant
                            i + 1 + e <= v.len(),
                            i + 1 <= k <= i + 1 + e,
                            out@ =~= v@.subrange(i + 1, k as int),
                        decreases i + 1 + e - k,
                    {
                        push_char(&mut out, v[k]);
                        k = k + 1;
                    }
                    proof {
                        assert(v@.skip(i + 1).take(e as int) =~= v@.subrange(i + 1, i + 1 + e));
                    }
                    out
                } else {
                    proof {
                        assert(v@.skip(i + 1).take(0) =~= Seq::<char>::empty());
                    }
                    "jpg".to_owned()
                }
            } else {
                "jpg".to_owned()
            }
        },
        None => "jpg".to_owned(),
    }
}

/// The text hashed to name a thumbnail: the cache key, the dimensions and
/// the crop mode.
pub open spec fn spec_thumb_hash_input(
    name_key: Seq<char>,
    width: u32,
    height: u32,
    use_crop: bool,
) -> Seq<char> {
    name_key + "-"@ + spec_dec(width as nat) + "x"@ + spec_dec(height as nat) + "-"@ + (
    if use_crop {
        "true"@
    } else {
        "false"@
    })
}

/// The deterministic file name of a cached thumbnail: a prefix of the
/// blake3 digest of the hash input, the dimensions, the crop mode and the
/// extension, made safe for the file system.
pub open spec fn spec_thumb_cache_filename(
    name_key: Seq<char>,
    width: u32,
    height: u32,
    use_crop: bool,
    mime: Option<Seq<char>>,
) -> Seq<char> {
    spec_sanitize(
        "thumb_"@ + blake3_hex(
            vstd::utf8::encode_utf8(spec_thumb_hash_input(name_key, width, height, use_crop)),
        ).take(16) + "_"@ + spec_dec(width as nat) + "x"@ + spec_dec(height as nat) + (if use_crop {
            "_crop"@
        } else {
            "_scale"@
        }) + "."@ + spec_thumb_ext(mime),
    )
}

/// Names the cache file for a thumbnail of the given key, dimensions,
/// crop mode and mime type.
pub fn thumb_cache_filename(
    name_key: &str,
    width: u32,
    height: u32,
    use_crop: bool,
    mime: Option<&str>,
) -> (r: String)
    ensures
        r@ == spec_thumb_cache_filename(
            name_key@,
            width,
            height,
            use_crop,
            match mime {
                Some(m) => Some(m@),
                None => None,
            },
        ),
{
    let w = u64_to_dec(width as u64);
    let h = u64_to_dec(height as u64);
    let mut input = name_key.to_owned();
    input.append("-");
    input.append(w.as_str());
    input.append("x");
    input.append(h.as_str());
    input.append("-");
    input.append(if use_crop {
        "true"
    } else {
        "false"
    });
    let digest = blake3_hex_of(input.as_str());
    let dv = chars_of(digest.as_str());
    let mut name = "thumb_".to_owned();
    let mut k: usize = 0;
    while k < 16
        invariant
            dv@.len() == 64,
            dv@ == digest@,
            k <= 16,
            name@ =~= "thumb_"@ + dv@.take(k as int),
        decreases 16 - k,
    {
        push_char(&mut name, dv[k]);
        proof {
            assert(dv@.take(k + 1) =~= dv@.take(k as int).push(dv@[k as int]));
        }
        k = k + 1;
    }
    name.append("_");
    name.append(w.as_str());
    name.append("x");
    name.append(h.as_str());
    name.append(if use_crop {
        "_crop"
    } else {
        "_scale"
    });
    name.append(".");
    let ext = thumb_ext(mime);
    name.append(ext.as_str());
    sanitize_filename(name.as_str())
}


/// The idempotency key used for an outgoing message: the caller's own, or
/// a fresh one stamped with the clock.
pub fn fresh_txn_id(txn_id: Option<String>) -> (r: String)
    ensures
        match txn_id {
            Some(t) => r == t,
            None => exists|n: nat| r@ == "mages-"@ + spec_dec(n),
        },
{
    match txn_id {
        Some(t) => t,
        None => {
            let now = now_ms();
            let stamp = u64_to_dec(now);
            let r = concat2("mages-", stamp.as_str());
            proof {
                assert(r@ == "mages-"@ + spec_dec(now as nat));
            }
            r
        },
    }
}

} // verus!
