//! File names for images attached to messages.
use vstd::prelude::*;
use crate::text::{
    after_last, before_first, chars_of, extend_str, find_sep, last_sep, rfind_sep, sep_holds,
    str_eq, string_of, subvec, trim_seq, trim_vec, Sep,
};

verus! {

/// The last path segment of a link, query removed; `image` when it is empty.
pub open spec fn url_filename_spec(url: Seq<char>) -> Seq<char> {
    let name = after_last(before_first(url, Sep::Char('?')), Sep::Char('/'));
    if name.len() > 0 {
        name
    } else {
        "image"@
    }
}

/// A file name with its extension replaced (or added, when the name has no
/// `.` after its first character).
pub open spec fn replace_extension_spec(filename: Seq<char>, extension: Seq<char>) -> Seq<char> {
    match last_sep(filename, Sep::Char('.')) {
        Some(k) => if k > 0 {
            filename.take(k) + "."@ + extension
        } else {
            filename + "."@ + extension
        },
        None => filename + "."@ + extension,
    }
}

/// The extension for a content type: png, gif, webp or bmp for those image
/// types, jpg for anything else.
pub open spec fn extension_spec(content_type: Seq<char>) -> Seq<char> {
    let t = trim_seq(before_first(content_type, Sep::Char(';')));
    if t == "image/png"@ {
        "png"@
    } else if t == "image/gif"@ {
        "gif"@
    } else if t == "image/webp"@ {
        "webp"@
    } else if t == "image/bmp"@ {
        "bmp"@
    } else {
        "jpg"@
    }
}

/// The name of an attached image: for a re-encoded image, the link's file
/// name with a `jpg` extension; else the link's file name, with an extension
/// from the content type when it has no `.`.
pub open spec fn infer_filename_spec(url: Seq<char>, content_type: Seq<char>, compressed: bool) -> Seq<
    char,
> {
    let name = url_filename_spec(url);
    if compressed {
        replace_extension_spec(name, "jpg"@)
    } else if name.contains('.') {
        name
    } else {
        name + "."@ + extension_spec(content_type)
    }
}

/// The file name in a link.
pub fn url_filename(url: &str) -> (r: String)
    ensures
        r@ == url_filename_spec(url@),
{
    let v = chars_of(url);
    let before = match find_sep(&v, Sep::Char('?')) {
        Some(k) => subvec(&v, 0, k),
        None => subvec(&v, 0, v.len()),
    };
    assert(before@ =~= before_first(v@, Sep::Char('?')));
    let name = match rfind_sep(&before, Sep::Char('/')) {
        Some(k) => subvec(&before, k + 1, before.len()),
        None => subvec(&before, 0, before.len()),
    };
    assert(name@ =~= after_last(before@, Sep::Char('/')));
    if name.len() > 0 {
        string_of(&name)
    } else {
        String::from_str("image")
    }
}

/// Replaces a file name's extension (see `replace_extension_spec`).
pub fn replace_extension(filename: &str, extension: &str) -> (r: String)
    ensures
        r@ == replace_extension_spec(filename@, extension@),
{
    let v = chars_of(filename);
    let mut out = match rfind_sep(&v, Sep::Char('.')) {
        Some(k) => if k > 0 {
            subvec(&v, 0, k)
        } else {
            subvec(&v, 0, v.len())
        },
        None => subvec(&v, 0, v.len()),
    };
    assert(v@.subrange(0, v@.len() as int) =~= v@);
    proof {
        if let Some(k) = last_sep(v@, Sep::Char('.')) {
            assert(v@.subrange(0, k) =~= v@.take(k));
        }
    }
    extend_str(&mut out, ".");
    extend_str(&mut out, extension);
    string_of(&out)
}

/// The extension for a content type (see `extension_spec`).
pub fn extension_from_content_type(content_type: &str) -> (r: &'static str)
    ensures
        r@ == extension_spec(content_type@),
{
    let v = chars_of(content_type);
    let before = match find_sep(&v, Sep::Char(';')) {
        Some(k) => subvec(&v, 0, k),
        None => subvec(&v, 0, v.len()),
    };
    assert(before@ =~= before_first(v@, Sep::Char(';')));
    let t = trim_vec(&before);
    let ts = string_of(&t);
    if str_eq(ts.as_str(), "image/png") {
        "png"
    } else if str_eq(ts.as_str(), "image/gif") {
        "gif"
    } else if str_eq(ts.as_str(), "image/webp") {
        "webp"
    } else if str_eq(ts.as_str(), "image/bmp") {
        "bmp"
    } else {
        "jpg"
    }
}

fn has_dot(v: &Vec<char>) -> (r: bool)
    ensures
        r == v@.contains('.'),
{
    match find_sep(v, Sep::Char('.')) {
        Some(k) => {
            assert(v@[k as int] == '.');
            true
        },
        None => {
            proof {
                if v@.contains('.') {
                    let i = choose|i: int| 0 <= i < v@.len() && v@[i] == '.';
                    crate::text::lemma_first_sep_none(v@, Sep::Char('.'), i);
                }
            }
            false
        },
    }
}

/// The file name for an attached image (see `infer_filename_spec`).
pub fn infer_filename(url: &str, content_type: &str, compressed: bool) -> (r: String)
    ensures
        r@ == infer_filename_spec(url@, content_type@, compressed),
{
    let name = url_filename(url);
    if compressed {
        return replace_extension(name.as_str(), "jpg");
    }
    let nv = chars_of(name.as_str());
    if has_dot(&nv) {
        name
    } else {
        let mut out = nv;
        extend_str(&mut out, ".");
        extend_str(&mut out, extension_from_content_type(content_type));
        string_of(&out)
    }
}

} // verus!
