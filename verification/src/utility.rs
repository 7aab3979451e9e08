//! Identifiers, hashing, time, and the HTML page frame.
use vstd::prelude::*;

use crate::text::{
    all_ascii, chars_of, contains, contains_exec, hex_lower, hex_lower_exec, lemma_hex_lower_len, push_str, replace_all,
    replace_all_chars, string_of,
};
use vstd::utf8::encode_utf8;

verus! {

/// The SHA-256 digest of `data`.
pub uninterp spec fn sha256(data: Seq<u8>) -> Seq<u8>;

/// Computes `sha2::Sha256::digest(data)`; the digest has 32 bytes (the output size
/// of `Sha256`). What the bytes are is left to the name `sha256`.
#[verifier::external_body]
fn sha256_digest(data: &[u8]) -> (r: Vec<u8>)
    ensures
        r@ == sha256(data@),
        r@.len() == 32,
{
    <sha2::Sha256 as sha2::Digest>::digest(data).to_vec()
}

/// The lowercase hexadecimal SHA-256 digest of the UTF-8 bytes of `input`.
pub fn hash(input: String) -> (r: String)
    ensures
        r@ == hex_lower(sha256(encode_utf8(input@))),
        r@.len() == 64,
{
    let digest = sha256_digest(input.as_str().as_bytes());
    proof {
        lemma_hex_lower_len(digest@);
    }
    hex_lower_exec(&digest)
}

/// `c` is a lowercase hexadecimal digit.
pub open spec fn is_hex_digit(c: char) -> bool {
    ('0' <= c <= '9') || ('a' <= c <= 'f')
}

/// `s` is the text of a random (version 4) UUID: 32 lowercase hexadecimal digits in
/// groups of 8, 4, 4, 4 and 12 joined by hyphens, with version digit `4` and a
/// variant digit of `8`, `9`, `a` or `b`.
pub open spec fn is_uuid_v4_text(s: Seq<char>) -> bool {
    &&& s.len() == 36
    &&& forall|i: int|
        0 <= i < 36 ==> if i == 8 || i == 13 || i == 18 || i == 23 {
            s[i] == '-'
        } else {
            is_hex_digit(#[trigger] s[i])
        }
    &&& s[14] == '4'
    &&& (s[19] == '8' || s[19] == '9' || s[19] == 'a' || s[19] == 'b')
}

/// A new random UUID, from `uuid::Uuid::new_v4()` formatted by `to_string`. The
/// contract states the hyphenated lowercase form and the version and variant digits
/// that the `uuid` crate sets; the other digits are random and left unsaid. The crate
/// stops the program where the system cannot give it random bytes.
#[verifier::external_body]
pub fn uuid() -> (r: String)
    ensures
        is_uuid_v4_text(r@),
{
    uuid::Uuid::new_v4().to_string()
}

/// A new random identifier: the hash of a new UUID.
pub fn random_id() -> (r: String)
    ensures
        exists|u: Seq<char>| is_uuid_v4_text(u) && r@ == hex_lower(sha256(encode_utf8(u))),
        r@.len() == 64,
{
    let u = uuid();
    let ghost uv = u@;
    let r = hash(u);
    assert(is_uuid_v4_text(uv) && r@ == hex_lower(sha256(encode_utf8(uv))));
    r
}

/// A field of a new paste as it is checked: where it was left empty (`old`), the first
/// ten characters of a new random identifier; else as it was.
pub open spec fn filled(old: Seq<char>, new: Seq<char>) -> bool {
    if old.len() == 0 {
        exists|u: Seq<char>|
            is_uuid_v4_text(u) && new == hex_lower(sha256(encode_utf8(u))).take(10)
    } else {
        new == old
    }
}

/// `password` hashes to `stored`.
pub open spec fn password_matches(password: Seq<char>, stored: Seq<char>) -> bool {
    hex_lower(sha256(encode_utf8(password))) == stored
}

/// The first ten characters of a new random identifier, which stand in for a paste
/// url or an edit password that was left empty.
pub fn short_random_id() -> (r: String)
    ensures
        exists|u: Seq<char>|
            is_uuid_v4_text(u) && r@ == hex_lower(sha256(encode_utf8(u))).take(10),
        r@.len() == 10,
{
    let id = random_id();
    let v = chars_of(id.as_str());
    let mut out: Vec<char> = Vec::new();
    let mut i: usize = 0;
    while i < 10
        invariant
            i <= 10,
            v@.len() == 64,
            out@ == v@.take(i as int),
        decreases 10 - i,
    {
        out.push(v[i]);
        assert(v@.take(i + 1) =~= v@.take(i as int).push(v@[i as int]));
        i += 1;
    }
    string_of(&out)
}

/// The milliseconds since the Unix epoch, read from `std::time::SystemTime::now()`
/// and `duration_since(UNIX_EPOCH)`; `None` where the system clock stands before the
/// epoch. Nothing is stated of the value: it is the time.
#[verifier::external_body]
pub fn unix_epoch_timestamp() -> (r: Option<u128>) {
    match std::time::SystemTime::now().duration_since(std::time::UNIX_EPOCH) {
        Ok(since) => Some(since.as_millis()),
        Err(_) => None,
    }
}

// ---------------------------------------------------------------------------
// the page frame

pub open spec fn frame_a() -> Seq<char> {
    "<!DOCTYPE html>\n<html lang=\"en\">\n    <head>\n        <meta charset=\"UTF-8\" />\n        <meta name=\"viewport\" content=\"width=device-width, initial-scale=1.0\" />\n        <meta http-equiv=\"content-security-policy\" content=\"default-src 'self' blob:; img-src * data:; media-src *; font-src *; style-src 'unsafe-inline' 'self' blob: *; script-src 'self' 'unsafe-inline' blob: *; object-src 'self' blob: *; upgrade-insecure-requests; connect-src *; frame-src 'self' blob: data: *\" />\n        \n        "@
}

pub open spec fn frame_b() -> Seq<char> {
    "\n        <meta name=\"theme-color\" content=\"#ff9999\" />\n        <meta property=\"og:type\" content=\"website\" />\n        <meta property=\"og:site_name\" content=\"::SITE_NAME::\" />\n        "@
}

pub open spec fn frame_c() -> Seq<char> {
    "\n\n        <link rel=\"stylesheet\" href=\"/static/style.css\" />\n        <script type=\"module\" src=\"/static/js/Footer.js\"></script>\n    </head>\n    <body>\n        "@
}

pub open spec fn frame_d() -> Seq<char> {
    "\n        "@
}

pub open spec fn frame_e() -> Seq<char> {
    "\n    </body>\n</html>"@
}

/// The icon link that a page gets unless its head sets one.
pub open spec fn default_icon(head: Seq<char>) -> Seq<char> {
    if !contains(head, "rel=\"icon\""@) {
        "<link rel=\"icon\" href=\"/static/favicon.svg\" />"@
    } else {
        Seq::empty()
    }
}

/// `o`, or `d` where it is absent.
pub open spec fn or_default(o: Option<Seq<char>>, d: Seq<char>) -> Seq<char> {
    match o {
        Some(v) => v,
        None => d,
    }
}

/// The HTML page around `input`, with `head` in its head and the values that the
/// environment gives (`BODY_EMBED`, `SITE_NAME`, `GUPPY_ROOT`, `PUFFER_ROOT`) put in.
pub open spec fn page_frame(
    input: Seq<char>,
    head: Seq<char>,
    body_embed: Option<Seq<char>>,
    site_name: Option<Seq<char>>,
    guppy_root: Option<Seq<char>>,
    puffer_root: Option<Seq<char>>,
) -> Seq<char> {
    let page = frame_a() + default_icon(head) + frame_b() + head + frame_c() + input + frame_d()
        + or_default(body_embed, Seq::empty()) + frame_e();
    replace_all(
        replace_all(
            replace_all(page, "::SITE_NAME::"@, or_default(site_name, "Bundlrs"@)),
            "::GUPPY_ROOT::"@,
            or_default(guppy_root, Seq::empty()),
        ),
        "::PUFFER_ROOT::"@,
        or_default(puffer_root, Seq::empty()),
    )
}

fn or_default_exec(o: &Option<String>, d: &str) -> (r: Vec<char>)
    ensures
        r@ == or_default(o.deep_view(), d@),
{
    match o {
        Some(v) => chars_of(v.as_str()),
        None => chars_of(d),
    }
}

/// The HTML page around `input`, given the values of the environment variables
/// `BODY_EMBED`, `SITE_NAME`, `GUPPY_ROOT` and `PUFFER_ROOT`.
pub fn format_html(
    input: String,
    head: &str,
    body_embed: Option<String>,
    site_name: Option<String>,
    guppy_root: Option<String>,
    puffer_root: Option<String>,
) -> (r: String)
    ensures
        r@ == page_frame(
            input@,
            head@,
            body_embed.deep_view(),
            site_name.deep_view(),
            guppy_root.deep_view(),
            puffer_root.deep_view(),
        ),
{
    proof {
        reveal_strlit("");
        assert(""@ =~= Seq::<char>::empty());
    }
    let mut page: Vec<char> = Vec::new();
    push_str(&mut page, "<!DOCTYPE html>\n<html lang=\"en\">\n    <head>\n        <meta charset=\"UTF-8\" />\n        <meta name=\"viewport\" content=\"width=device-width, initial-scale=1.0\" />\n        <meta http-equiv=\"content-security-policy\" content=\"default-src 'self' blob:; img-src * data:; media-src *; font-src *; style-src 'unsafe-inline' 'self' blob: *; script-src 'self' 'unsafe-inline' blob: *; object-src 'self' blob: *; upgrade-insecure-requests; connect-src *; frame-src 'self' blob: data: *\" />\n        \n        ");
    if !contains_exec(head, "rel=\"icon\"") {
        push_str(&mut page, "<link rel=\"icon\" href=\"/static/favicon.svg\" />");
    }
    push_str(&mut page, "\n        <meta name=\"theme-color\" content=\"#ff9999\" />\n        <meta property=\"og:type\" content=\"website\" />\n        <meta property=\"og:site_name\" content=\"::SITE_NAME::\" />\n        ");
    push_str(&mut page, head);
    push_str(&mut page, "\n\n        <link rel=\"stylesheet\" href=\"/static/style.css\" />\n        <script type=\"module\" src=\"/static/js/Footer.js\"></script>\n    </head>\n    <body>\n        ");
    push_str(&mut page, input.as_str());
    push_str(&mut page, "\n        ");
    let embed = or_default_exec(&body_embed, "");
    crate::text::push_chars(&mut page, &embed);
    push_str(&mut page, "\n    </body>\n</html>");
    assert(page@ =~= frame_a() + default_icon(head@) + frame_b() + head@ + frame_c() + input@
        + frame_d() + or_default(body_embed.deep_view(), Seq::empty()) + frame_e());
    proof {
        reveal_strlit("::SITE_NAME::");
        reveal_strlit("::GUPPY_ROOT::");
        reveal_strlit("::PUFFER_ROOT::");
    }
    let page = replace_all_chars(&page, &chars_of("::SITE_NAME::"), &or_default_exec(&site_name, "Bundlrs"));
    let page = replace_all_chars(&page, &chars_of("::GUPPY_ROOT::"), &or_default_exec(&guppy_root, ""));
    let page = replace_all_chars(&page, &chars_of("::PUFFER_ROOT::"), &or_default_exec(&puffer_root, ""));
    string_of(&page)
}

} // verus!
