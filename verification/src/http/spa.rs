//! Static files of the single-page application.
//!
//! The files are compiled into the host. It looks a file up under the key
//! given here and hands back what it found; which answer that makes is
//! decided here.

use crate::text::{contains, holds, starts_with, to_chars};
use vstd::prelude::*;

verus! {

/// The media type that `mime_guess::from_path` guesses for `path`, or
/// `application/octet-stream` where it guesses none, as text.
pub uninterp spec fn guessed_mime(path: Seq<char>) -> Seq<char>;

/// Calls `mime_guess::from_path`, takes `first_or_octet_stream` and writes
/// the media type out. The result depends on `path` alone; nothing more is
/// claimed of it.
#[verifier::external_body]
fn guess_mime(path: &str) -> (mime: String)
    ensures
        mime@ == guessed_mime(path@),
{
    mime_guess::from_path(path).first_or_octet_stream().to_string()
}

/// An answer that serves a static file, or reports that there is none.
#[derive(Debug)]
pub struct StaticResponse {
    pub status: u16,
    /// The `content-type` header, where one is set.
    pub content_type: Option<String>,
    /// Whether caching is forbidden with
    /// `cache-control: no-cache, no-store, must-revalidate`.
    pub no_cache: bool,
    pub body: Vec<u8>,
}

/// What the contracts say of a static answer.
pub struct StaticView {
    pub status: u16,
    pub content_type: Option<Seq<char>>,
    pub no_cache: bool,
    pub body: Seq<u8>,
}

impl View for StaticResponse {
    type V = StaticView;

    open spec fn view(&self) -> StaticView {
        StaticView {
            status: self.status,
            content_type: crate::text::opt_text(self.content_type),
            no_cache: self.no_cache,
            body: self.body@,
        }
    }
}

/// `path` without its leading slashes.
pub open spec fn without_leading_slashes(path: Seq<char>) -> Seq<char>
    decreases path.len(),
{
    if path.len() > 0 && path[0] == '/' {
        without_leading_slashes(path.drop_first())
    } else {
        path
    }
}

/// A media type as it is sent: text types say that they are UTF-8.
pub open spec fn with_charset(mime: Seq<char>) -> Seq<char> {
    if starts_with(mime, "text/"@) {
        mime + "; charset=utf-8"@
    } else {
        mime
    }
}

/// The key under which a request for `path` is looked up: the path itself,
/// without leading slashes, where it names a file with an extension, and
/// the index page for every other route.
pub open spec fn spa_key(path: Seq<char>) -> Seq<char> {
    let key = without_leading_slashes(path);
    if contains(key, "."@) {
        key
    } else {
        "index.html"@
    }
}

/// The media type a request for `path` is answered with when its file is
/// there.
pub open spec fn spa_content_type(path: Seq<char>) -> Seq<char> {
    let key = without_leading_slashes(path);
    if contains(key, "."@) {
        with_charset(guessed_mime(key))
    } else {
        "text/html; charset=utf-8"@
    }
}

/// The answer that serves the index page; the status `missing` where the
/// page is not there.
pub open spec fn index_page(index: Option<Vec<u8>>, missing: u16) -> StaticView {
    match index {
        Some(body) => StaticView {
            status: 200,
            content_type: Some("text/html; charset=utf-8"@),
            no_cache: true,
            body: body@,
        },
        None => StaticView {
            status: missing,
            content_type: None,
            no_cache: false,
            body: Seq::empty(),
        },
    }
}

/// The answer to a request for a page or file of the application: the file
/// where it is there, the index page otherwise, and status 500 where that
/// is missing too.
pub open spec fn spa_answer(path: Seq<char>, file: Option<Vec<u8>>, index: Option<Vec<u8>>) -> StaticView {
    match file {
        Some(body) => StaticView {
            status: 200,
            content_type: Some(spa_content_type(path)),
            no_cache: true,
            body: body@,
        },
        None => index_page(index, 500),
    }
}

/// The answer to a request for a file of a fixed kind: the file with the
/// media type `content_type`, cacheable, or the index page where the file
/// is missing.
pub open spec fn file_answer(content_type: Seq<char>, file: Option<Vec<u8>>, index: Option<Vec<u8>>) -> StaticView {
    match file {
        Some(body) => StaticView {
            status: 200,
            content_type: Some(content_type),
            no_cache: false,
            body: body@,
        },
        None => index_page(index, 500),
    }
}

fn strip_leading_slashes(path: &str) -> (out: Vec<char>)
    ensures
        out@ == without_leading_slashes(path@),
{
    let chars = to_chars(path);
    let mut k: usize = 0;
    assert(chars@.skip(0) == chars@);
    while k < chars.len() && chars[k] == '/'
        invariant
            k <= chars.len(),
            without_leading_slashes(chars@) == without_leading_slashes(chars@.skip(k as int)),
        decreases chars.len() - k,
    {
        assert(chars@.skip(k as int)[0] == chars@[k as int]);
        assert(chars@.skip(k as int).drop_first() == chars@.skip(k + 1));
        k += 1;
    }
    proof {
        if k < chars.len() {
            assert(chars@.skip(k as int)[0] == chars@[k as int]);
        }
    }
    let mut out: Vec<char> = Vec::new();
    crate::text::push_range(&mut out, &chars, k, chars.len());
    assert(chars@.subrange(k as int, chars@.len() as int) == chars@.skip(k as int));
    out
}

/// A media type as it is sent.
pub fn content_type_with_charset(mime: String) -> (out: String)
    ensures
        out@ == with_charset(mime@),
{
    let chars = to_chars(mime.as_str());
    let prefix = to_chars("text/");
    if crate::text::matches_at(&chars, &prefix, 0) {
        let mut out = mime;
        out.append("; charset=utf-8");
        out
    } else {
        mime
    }
}

/// The key under which a request for `path` is looked up.
pub fn spa_asset_key(path: &str) -> (key: String)
    ensures
        key@ == spa_key(path@),
{
    let stripped = strip_leading_slashes(path);
    if holds(&stripped, ".") {
        crate::text::from_chars(&stripped)
    } else {
        String::from_str("index.html")
    }
}

fn index_response(index: Option<Vec<u8>>, missing: u16) -> (out: StaticResponse)
    ensures
        out@ == index_page(index, missing),
{
    match index {
        Some(body) => StaticResponse {
            status: 200,
            content_type: Some(String::from_str("text/html; charset=utf-8")),
            no_cache: true,
            body,
        },
        None => StaticResponse { status: missing, content_type: None, no_cache: false, body: Vec::new() },
    }
}

/// Answers a request for a page or file of the application. `file` is what
/// was found under [`spa_asset_key`], `index` what was found under
/// `index.html`.
pub fn serve_spa_file(path: &str, file: Option<Vec<u8>>, index: Option<Vec<u8>>) -> (out:
    StaticResponse)
    ensures
        out@ == spa_answer(path@, file, index),
{
    match file {
        Some(body) => {
            let stripped = strip_leading_slashes(path);
            let content_type = if holds(&stripped, ".") {
                let key = crate::text::from_chars(&stripped);
                content_type_with_charset(guess_mime(key.as_str()))
            } else {
                String::from_str("text/html; charset=utf-8")
            };
            StaticResponse { status: 200, content_type: Some(content_type), no_cache: true, body }
        },
        None => index_response(index, 500),
    }
}

/// The key under which a file of the `assets` directory is looked up.
pub fn asset_key(path: &str) -> (key: String)
    ensures
        key@ == "assets/"@ + path@,
{
    let mut key = String::from_str("assets/");
    key.append(path);
    key
}

/// The key under which a file of the `images` directory is looked up.
pub fn image_key(path: &str) -> (key: String)
    ensures
        key@ == "images/"@ + path@,
{
    let mut key = String::from_str("images/");
    key.append(path);
    key
}

/// Answers a request for a file of the `assets` directory, looked up under
/// [`asset_key`]: text types say that they are UTF-8.
pub fn assets_handler(path: &str, file: Option<Vec<u8>>, index: Option<Vec<u8>>) -> (out:
    StaticResponse)
    ensures
        out@ == file_answer(with_charset(guessed_mime("assets/"@ + path@)), file, index),
{
    match file {
        Some(body) => {
            let key = asset_key(path);
            let content_type = content_type_with_charset(guess_mime(key.as_str()));
            StaticResponse { status: 200, content_type: Some(content_type), no_cache: false, body }
        },
        None => index_response(index, 500),
    }
}

/// Answers a request for a file of the `images` directory, looked up under
/// [`image_key`].
pub fn images_handler(path: &str, file: Option<Vec<u8>>, index: Option<Vec<u8>>) -> (out:
    StaticResponse)
    ensures
        out@ == file_answer(guessed_mime("images/"@ + path@), file, index),
{
    match file {
        Some(body) => {
            let key = image_key(path);
            let content_type = guess_mime(key.as_str());
            StaticResponse { status: 200, content_type: Some(content_type), no_cache: false, body }
        },
        None => index_response(index, 500),
    }
}

/// Answers a request for a file at the root, such as `favicon.ico`, with
/// the media type that its name suggests.
pub fn favicon(name: &str, file: Option<Vec<u8>>, index: Option<Vec<u8>>) -> (out: StaticResponse)
    ensures
        out@ == file_answer(guessed_mime(name@), file, index),
{
    match file {
        Some(body) => StaticResponse {
            status: 200,
            content_type: Some(guess_mime(name)),
            no_cache: false,
            body,
        },
        None => index_response(index, 500),
    }
}

/// Answers a request for `robots.txt`.
pub fn robots_txt(file: Option<Vec<u8>>, index: Option<Vec<u8>>) -> (out: StaticResponse)
    ensures
        out@ == file_answer("text/plain; charset=utf-8"@, file, index),
{
    match file {
        Some(body) => StaticResponse {
            status: 200,
            content_type: Some(String::from_str("text/plain; charset=utf-8")),
            no_cache: false,
            body,
        },
        None => index_response(index, 500),
    }
}

/// Answers a request for the index page; status 404 where it is missing.
pub fn spa_index(index: Option<Vec<u8>>) -> (out: StaticResponse)
    ensures
        out@ == index_page(index, 404),
{
    index_response(index, 404)
}

/// Answers every route that nothing else serves with the index page;
/// status 500 where it is missing.
pub fn spa_fallback(index: Option<Vec<u8>>) -> (out: StaticResponse)
    ensures
        out@ == index_page(index, 500),
{
    index_response(index, 500)
}

} // verus!
