//! The signature an image upload carries to the media service.
//!
//! The service signs a canonical parameter string: each present, nonempty
//! parameter as `key=value`, in alphabetical key order, joined with `&`,
//! followed by the account's secret (trimmed, with any double quotes
//! dropped). The signature is the lowercase hex of the SHA-1 digest of
//! that string's UTF-8 bytes.

use vstd::prelude::*;
use vstd::string::StringSliceAdditionalSpecFns;
use sha1::{Digest, Sha1};
use crate::text::{digit_char, trimmed, trim_str};

verus! {

/// The optional parameters of an image upload.
#[derive(Clone, Debug)]
pub struct UploadImageOptions {
    pub folder: Option<String>,
    pub public_id: Option<String>,
    pub transformation: Option<String>,
}

/// What SHA-1 digests a byte sequence to; a function of the input alone.
pub uninterp spec fn sha1_of(bytes: Seq<u8>) -> Seq<u8>;

/// Relies on `sha1::Sha1` through the `Digest` API: the 20-byte SHA-1
/// digest of the string's UTF-8 bytes, a function of the input alone.
#[verifier::external_body]
fn sha1_digest(s: &str) -> (r: Vec<u8>)
    ensures
        r@ == sha1_of(s.spec_bytes()),
        r@.len() == 20,
{
    let mut hasher = Sha1::new();
    hasher.update(s.as_bytes());
    hasher.finalize().as_slice().to_vec()
}

/// The lowercase hex digit for a value below sixteen.
pub open spec fn hex_digit(d: int) -> char {
    if d < 10 {
        digit_char(d)
    } else {
        ((87 + d) as u32) as char
    }
}

/// The lowercase hex rendering of a byte sequence, two digits per byte.
pub open spec fn hex_of(bytes: Seq<u8>) -> Seq<char>
    decreases bytes.len(),
{
    if bytes.len() == 0 {
        Seq::empty()
    } else {
        hex_of(bytes.drop_last()).push(hex_digit(bytes.last() as int / 16)).push(
            hex_digit(bytes.last() as int % 16),
        )
    }
}

fn hex_digit_str(d: u8) -> (r: &'static str)
    requires
        d < 16,
    ensures
        r@ =~= seq![hex_digit(d as int)],
{
    let r: &'static str = match d {
        0 => "0",
        1 => "1",
        2 => "2",
        3 => "3",
        4 => "4",
        5 => "5",
        6 => "6",
        7 => "7",
        8 => "8",
        9 => "9",
        10 => "a",
        11 => "b",
        12 => "c",
        13 => "d",
        14 => "e",
        _ => "f",
    };
    proof {
        reveal_strlit("0");
        reveal_strlit("1");
        reveal_strlit("2");
        reveal_strlit("3");
        reveal_strlit("4");
        reveal_strlit("5");
        reveal_strlit("6");
        reveal_strlit("7");
        reveal_strlit("8");
        reveal_strlit("9");
        reveal_strlit("a");
        reveal_strlit("b");
        reveal_strlit("c");
        reveal_strlit("d");
        reveal_strlit("e");
        reveal_strlit("f");
    }
    r
}

/// Renders bytes as lowercase hex.
pub fn to_hex(bytes: &Vec<u8>) -> (r: String)
    ensures
        r@ == hex_of(bytes@),
{
    let mut out = String::new();
    let mut i: usize = 0;
    while i < bytes.len()
        invariant
            0 <= i <= bytes@.len(),
            out@ == hex_of(bytes@.subrange(0, i as int)),
        decreases bytes@.len() - i,
    {
        let b = bytes[i];
        out.append(hex_digit_str(b / 16));
        out.append(hex_digit_str(b % 16));
        proof {
            let post = bytes@.subrange(0, i as int + 1);
            assert(post.drop_last() =~= bytes@.subrange(0, i as int));
            assert(post.last() == bytes@[i as int]);
            assert(out@ =~= hex_of(post));
        }
        i = i + 1;
    }
    proof {
        assert(bytes@.subrange(0, bytes@.len() as int) =~= bytes@);
    }
    out
}

/// The sequence with every double-quote character dropped.
pub open spec fn without_quotes(s: Seq<char>) -> Seq<char>
    decreases s.len(),
{
    if s.len() == 0 {
        s
    } else {
        let rest = without_quotes(s.drop_last());
        if s.last() == '"' {
            rest
        } else {
            rest.push(s.last())
        }
    }
}

/// Cleans an account secret for signing: trimmed, double quotes dropped.
pub fn clean_secret(secret: &str) -> (r: String)
    ensures
        r@ == without_quotes(trimmed(secret@)),
{
    let t = trim_str(secret);
    let ts = t.as_str();
    let n = ts.unicode_len();
    let mut out = String::new();
    let mut i: usize = 0;
    while i < n
        invariant
            0 <= i <= n,
            n == ts@.len(),
            ts@ == trimmed(secret@),
            out@ == without_quotes(ts@.subrange(0, i as int)),
        decreases n - i,
    {
        if ts.get_char(i) != '"' {
            out.append(ts.substring_char(i, i + 1));
        }
        proof {
            let post = ts@.subrange(0, i as int + 1);
            assert(post.drop_last() =~= ts@.subrange(0, i as int));
            assert(post.last() == ts@[i as int]);
            assert(ts@.subrange(i as int, i as int + 1) =~= seq![ts@[i as int]]);
            assert(out@ =~= without_quotes(post));
        }
        i = i + 1;
    }
    proof {
        assert(ts@.subrange(0, n as int) =~= ts@);
    }
    out
}

/// The parameter parts joined with `&`.
pub open spec fn join_amp(parts: Seq<Seq<char>>) -> Seq<char>
    decreases parts.len(),
{
    if parts.len() == 0 {
        Seq::empty()
    } else if parts.len() == 1 {
        parts[0]
    } else {
        join_amp(parts.drop_last()).add("&"@).add(parts.last())
    }
}

/// One `key=value` part when the value is present and nonempty.
pub open spec fn opt_part(key: Seq<char>, v: Option<String>) -> Seq<Seq<char>> {
    match v {
        Some(s) => if s@.len() > 0 {
            seq![key.add("="@).add(s@)]
        } else {
            Seq::empty()
        },
        None => Seq::empty(),
    }
}

/// The parameter parts of an upload, in alphabetical key order; the
/// timestamp is always present.
pub open spec fn sign_parts(options: UploadImageOptions, timestamp: Seq<char>) -> Seq<Seq<char>> {
    opt_part("folder"@, options.folder).add(opt_part("public_id"@, options.public_id)).add(
        seq!["timestamp="@.add(timestamp)],
    ).add(opt_part("transformation"@, options.transformation))
}

fn push_opt_part(parts: &mut Vec<String>, key: &str, prefix: &str, v: &Option<String>)
    requires
        prefix@ == key@.add("="@),
    ensures
        final(parts)@.map_values(|p: String| p@) == old(parts)@.map_values(|p: String| p@).add(
            opt_part(key@, *v),
        ),
{
    match v {
        Some(s) => {
            if !s.as_str().is_empty() {
                let mut part = String::from_str(prefix);
                part.append(s.as_str());
                parts.push(part);
                proof {
                    assert(parts@.map_values(|p: String| p@) =~= old(parts)@.map_values(
                        |p: String| p@,
                    ).add(opt_part(key@, *v)));
                }
            } else {
                proof {
                    assert(parts@.map_values(|p: String| p@) =~= old(parts)@.map_values(
                        |p: String| p@,
                    ).add(opt_part(key@, *v)));
                }
            }
        },
        None => {
            proof {
                assert(parts@.map_values(|p: String| p@) =~= old(parts)@.map_values(
                    |p: String| p@,
                ).add(opt_part(key@, *v)));
            }
        },
    }
}

/// Builds the canonical parameter string of an upload: present, nonempty
/// parameters as `key=value` in alphabetical key order, joined with `&`.
pub fn signing_string(options: &UploadImageOptions, timestamp: &str) -> (r: String)
    ensures
        r@ == join_amp(sign_parts(*options, timestamp@)),
{
    let mut parts: Vec<String> = Vec::new();
    proof {
        reveal_strlit("folder");
        reveal_strlit("folder=");
        reveal_strlit("public_id");
        reveal_strlit("public_id=");
        reveal_strlit("transformation");
        reveal_strlit("transformation=");
        reveal_strlit("timestamp=");
        reveal_strlit("=");
        assert("folder="@ =~= "folder"@.add("="@));
        assert("public_id="@ =~= "public_id"@.add("="@));
        assert("transformation="@ =~= "transformation"@.add("="@));
    }
    push_opt_part(&mut parts, "folder", "folder=", &options.folder);
    push_opt_part(&mut parts, "public_id", "public_id=", &options.public_id);
    let mut ts_part = String::from_str("timestamp=");
    ts_part.append(timestamp);
    parts.push(ts_part);
    proof {
        assert(parts@.map_values(|p: String| p@) =~= opt_part("folder"@, options.folder).add(
            opt_part("public_id"@, options.public_id),
        ).add(seq!["timestamp="@.add(timestamp@)]));
    }
    push_opt_part(&mut parts, "transformation", "transformation=", &options.transformation);
    proof {
        assert(parts@.map_values(|p: String| p@) =~= sign_parts(*options, timestamp@));
    }
    let ghost spec_parts = sign_parts(*options, timestamp@);
    let mut out = String::new();
    let mut i: usize = 0;
    while i < parts.len()
        invariant
            0 <= i <= parts@.len(),
            parts@.map_values(|p: String| p@) == spec_parts,
            out@ == join_amp(spec_parts.subrange(0, i as int)),
        decreases parts@.len() - i,
    {
        if i > 0 {
            out.append("&");
        }
        out.append(parts[i].as_str());
        proof {
            let post = spec_parts.subrange(0, i as int + 1);
            assert(post.drop_last() =~= spec_parts.subrange(0, i as int));
            assert(post.last() == spec_parts[i as int]);
            assert(out@ =~= join_amp(post));
        }
        i = i + 1;
    }
    proof {
        assert(spec_parts.subrange(0, spec_parts.len() as int) =~= spec_parts);
    }
    out
}

/// The string an upload signs: its canonical parameters followed by the
/// cleaned secret.
pub open spec fn to_sign_of(
    options: UploadImageOptions,
    timestamp: Seq<char>,
    api_secret: Seq<char>,
) -> Seq<char> {
    join_amp(sign_parts(options, timestamp)).add(without_quotes(trimmed(api_secret)))
}

/// Computes an upload's signature: the lowercase SHA-1 hex of the
/// canonical parameter string followed by the cleaned secret.
pub fn upload_signature(options: &UploadImageOptions, timestamp: &str, api_secret: &str) -> (r:
    String)
    ensures
        ({
            let to_sign = to_sign_of(*options, timestamp@, api_secret@);
            r@ == hex_of(sha1_of(vstd::utf8::encode_utf8(to_sign)))
        }),
{
    let mut to_sign = signing_string(options, timestamp);
    to_sign.append(clean_secret(api_secret).as_str());
    let digest = sha1_digest(to_sign.as_str());
    to_hex(&digest)
}

} // verus!
