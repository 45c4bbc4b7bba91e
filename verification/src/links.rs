//! Addresses and content types the HTTP client derives from names: the
//! MIME type of an upload, avatar image links and Telemost call links.

use vstd::prelude::*;

use crate::text::{self, after_last, lower_ascii};

verus! {

/// The MIME type of a lower-case file extension.
pub open spec fn mime_for(ext: Seq<char>) -> Seq<char> {
    if ext == "jpg"@ || ext == "jpeg"@ {
        "image/jpeg"@
    } else if ext == "png"@ {
        "image/png"@
    } else if ext == "gif"@ {
        "image/gif"@
    } else if ext == "webp"@ {
        "image/webp"@
    } else if ext == "mp4"@ {
        "video/mp4"@
    } else if ext == "webm"@ {
        "video/webm"@
    } else if ext == "mp3"@ {
        "audio/mpeg"@
    } else if ext == "ogg"@ {
        "audio/ogg"@
    } else if ext == "pdf"@ {
        "application/pdf"@
    } else if ext == "zip"@ {
        "application/zip"@
    } else {
        "application/octet-stream"@
    }
}

/// The MIME type of a file name: by what follows its last `.`, in any
/// case (the whole name when it has no `.`).
pub open spec fn mime_type_of(filename: Seq<char>) -> Seq<char> {
    mime_for(lower_ascii(after_last(filename, '.')))
}

pub fn guess_mime_type(filename: &str) -> (r: &'static str)
    ensures
        r@ == mime_type_of(filename@),
{
    let name = text::chars_of(filename);
    let last = text::string_from_chars(&text::after_last_char(&name, '.'));
    let ext = text::to_lower_ascii(last.as_str());
    let e = ext.as_str();
    proof {
        reveal_strlit("jpg");
        reveal_strlit("jpeg");
        reveal_strlit("png");
        reveal_strlit("gif");
        reveal_strlit("webp");
        reveal_strlit("mp4");
        reveal_strlit("webm");
        reveal_strlit("mp3");
        reveal_strlit("ogg");
        reveal_strlit("pdf");
        reveal_strlit("zip");
    }
    if text::str_is(e, "jpg") || text::str_is(e, "jpeg") {
        "image/jpeg"
    } else if text::str_is(e, "png") {
        "image/png"
    } else if text::str_is(e, "gif") {
        "image/gif"
    } else if text::str_is(e, "webp") {
        "image/webp"
    } else if text::str_is(e, "mp4") {
        "video/mp4"
    } else if text::str_is(e, "webm") {
        "video/webm"
    } else if text::str_is(e, "mp3") {
        "audio/mpeg"
    } else if text::str_is(e, "ogg") {
        "audio/ogg"
    } else if text::str_is(e, "pdf") {
        "application/pdf"
    } else if text::str_is(e, "zip") {
        "application/zip"
    } else {
        "application/octet-stream"
    }
}

/// `s` with every occurrence of `pat` taken out, scanning from the left
/// (`str::replace(pat, "")`).
pub open spec fn without_all(s: Seq<char>, pat: Seq<char>) -> Seq<char>
    decreases s.len(),
{
    if s.len() == 0 {
        s
    } else if 0 < pat.len() <= s.len() && s.take(pat.len() as int) == pat {
        without_all(s.skip(pat.len() as int), pat)
    } else {
        seq![s[0]] + without_all(s.drop_first(), pat)
    }
}

fn matches_at(v: &Vec<char>, p: &Vec<char>, i: usize) -> (b: bool)
    requires
        i <= v@.len(),
    ensures
        b == (0 < p@.len() <= v@.len() - i && v@.skip(i as int).take(p@.len() as int) == p@),
{
    if p.len() == 0 || p.len() > v.len() - i {
        return false;
    }
    let mut k: usize = 0;
    while k < p.len()
        invariant
            k <= p@.len(),
            i <= v@.len(),
            v@.len() == v.len(),
            p@.len() <= v@.len() - i,
            forall|j: int| 0 <= j < k ==> v@[i + j] == p@[j],
        decreases p@.len() - k,
    {
        if v[i + k] != p[k] {
            assert(v@.skip(i as int).take(p@.len() as int)[k as int] != p@[k as int]);
            return false;
        }
        k = k + 1;
    }
    assert(v@.skip(i as int).take(p@.len() as int) =~= p@);
    true
}

/// `s.replace(pat, "")`.
pub fn remove_all(s: &str, pat: &str) -> (r: String)
    ensures
        r@ == without_all(s@, pat@),
{
    let v = text::chars_of(s);
    let p = text::chars_of(pat);
    let mut out = String::new();
    let mut i: usize = 0;
    assert(v@.skip(0) =~= v@);
    while i < v.len()
        invariant
            i <= v@.len(),
            v@ == s@,
            p@ == pat@,
            without_all(s@, pat@) == out@ + without_all(v@.skip(i as int), p@),
        decreases v@.len() - i,
    {
        let ghost rest = v@.skip(i as int);
        assert(rest.len() > 0);
        if matches_at(&v, &p, i) {
            assert(rest.skip(p@.len() as int) =~= v@.skip(i + p@.len()));
            i = i + p.len();
        } else {
            assert(rest[0] == v@[i as int]);
            assert(rest.drop_first() =~= v@.skip(i + 1));
            let ghost before = out@;
            text::push_char(&mut out, v[i]);
            assert(before + (seq![v@[i as int]] + without_all(v@.skip(i + 1), p@)) =~= out@ + without_all(
                v@.skip(i + 1),
                p@,
            ));
            i = i + 1;
        }
    }
    assert(v@.skip(i as int) =~= Seq::<char>::empty());
    assert(out@ + Seq::<char>::empty() =~= out@);
    out
}

/// The link of an avatar image: `user_avatar/` taken out of the id, the
/// middle size for up to 100 pixels, else the large one.
pub open spec fn avatar_link(avatar_id: Seq<char>, size: u32) -> Seq<char> {
    "https://avatars.mds.yandex.net/get-"@ + without_all(avatar_id, "user_avatar/"@) + "/"@ + if size <= 100 {
        "islands-middle"@
    } else {
        "islands-200"@
    }
}

pub fn avatar_url(avatar_id: &str, size: u32) -> (r: String)
    ensures
        r@ == avatar_link(avatar_id@, size),
{
    let mut r = "https://avatars.mds.yandex.net/get-".to_owned();
    let id = remove_all(avatar_id, "user_avatar/");
    r.append(id.as_str());
    r.append("/");
    if size <= 100 {
        r.append("islands-middle");
    } else {
        r.append("islands-200");
    }
    r
}

/// The Telemost link of a chat's call: `/?chatId=` and, when known,
/// `&callId=`.
pub open spec fn telemost_link(chat_id: Seq<char>, call_id: Option<Seq<char>>) -> Seq<char> {
    crate::config::TELEMOST_URL@ + "/?chatId="@ + chat_id + match call_id {
        Some(c) => "&callId="@ + c,
        None => Seq::empty(),
    }
}

pub fn telemost_url(chat_id: &str, call_id: Option<&str>) -> (r: String)
    ensures
        r@ == telemost_link(chat_id@, crate::goloom::opt_view(call_id)),
{
    let mut r = crate::config::TELEMOST_URL.to_owned();
    r.append("/?chatId=");
    r.append(chat_id);
    match call_id {
        Some(c) => {
            r.append("&callId=");
            r.append(c);
        },
        None => {},
    }
    assert(r@ =~= telemost_link(chat_id@, crate::goloom::opt_view(call_id)));
    r
}

/// A character kept in a file name: an ASCII letter or digit, `-` or `_`.
pub open spec fn file_safe(c: char) -> bool {
    ('a' <= c <= 'z') || ('A' <= c <= 'Z') || ('0' <= c <= '9') || c == '-' || c == '_'
}

/// An id made fit for a file name: every other character becomes `_`.
pub open spec fn safe_stem(id: Seq<char>) -> Seq<char> {
    id.map_values(|c: char| if file_safe(c) { c } else { '_' })
}

pub fn safe_file_stem(id: &str) -> (r: String)
    ensures
        r@ == safe_stem(id@),
{
    let v = text::chars_of(id);
    let mut r = String::new();
    let mut i: usize = 0;
    while i < v.len()
        invariant
            i <= v@.len(),
            v@ == id@,
            r@ == v@.take(i as int).map_values(|c: char| if file_safe(c) { c } else { '_' }),
        decreases v@.len() - i,
    {
        let ch = v[i];
        let keep = ('a' <= ch && ch <= 'z') || ('A' <= ch && ch <= 'Z') || ('0' <= ch && ch <= '9') || ch == '-'
            || ch == '_';
        let c = if keep {
            ch
        } else {
            '_'
        };
        text::push_char(&mut r, c);
        assert(v@.take(i + 1).map_values(|c: char| if file_safe(c) { c } else { '_' }) =~= v@.take(
            i as int,
        ).map_values(|c: char| if file_safe(c) { c } else { '_' }).push(c));
        i = i + 1;
    }
    assert(v@.take(v@.len() as int) =~= v@);
    r
}

} // verus!
