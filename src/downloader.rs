use std::collections::hash_map::DefaultHasher;
use std::hash::Hasher;
use vstd::prelude::*;

use crate::extension::{
    fallback_extension, inferred_extension, mime_option_extension, sniff_extension, sniffed_extension, sole_slash_at,
    starts_with_gif_signature, starts_with_jpeg_signature, starts_with_png_signature, view_option,
};
use crate::naming::{
    cache_file_name, canonical_url, decimal, decimal_string, join_path,
    join_path_string, canonicalize, url_hash,
};
use crate::response::{error_of, DownloadError, FileDownloader, Response};

verus! {

/// A file placed in the cache: the canonical URL it came from and the path
/// it was written to.
#[derive(Debug, PartialEq)]
pub struct Download {
    pub source: String,
    pub file: String,
}

impl Download {
    pub fn new(source: String, file: String) -> (r: Self)
        ensures
            r.source == source,
            r.file == file,
    {
        Download { source, file }
    }
}

/// A successful download: where the body goes, and the body itself, to be
/// written verbatim at `download.file`.
#[derive(Debug)]
pub struct CacheWrite {
    pub download: Download,
    pub body: Vec<u8>,
}

/// What a download comes to, as plain values: the source, the file path and
/// the bytes to store there, or the error.
pub open spec fn write_view(r: Result<CacheWrite, DownloadError>) -> Result<
    (Seq<char>, Seq<char>, Seq<u8>),
    DownloadError,
> {
    match r {
        Ok(w) => Ok((w.download.source@, w.download.file@, w.body@)),
        Err(e) => Err(e),
    }
}

/// The path of the cache file for a canonical URL and an extension, under
/// the directory `base`.
pub open spec fn cache_path(base: Seq<char>, url: Seq<char>, ext: Seq<char>) -> Seq<char> {
    join_path(base, cache_file_name(url, ext))
}

/// What a fetcher's response for the canonical URL `source` becomes: a
/// success is stored under the URL's hash with the inferred extension, and
/// each failure maps to the error of the same kind.
pub open spec fn planned(base: Seq<char>, source: Seq<char>, response: Response) -> Result<
    (Seq<char>, Seq<char>, Seq<u8>),
    DownloadError,
> {
    match response {
        Response::Success { body, mime } => Ok(
            (source, cache_path(base, source, inferred_extension(view_option(mime), body@)), body@),
        ),
        Response::InvalidBody => Err(DownloadError::InvalidBody),
        Response::NotFound => Err(DownloadError::NotFound),
        Response::NetworkError => Err(DownloadError::NetworkError),
    }
}

/// A download that gets past the URL check ends either in a file whose
/// source is the canonical URL, after a successful response, or in the error
/// of the same kind as the failed response; never in `InvalidUrl`.
pub proof fn lemma_outcome_follows_response(base: Seq<char>, source: Seq<char>, response: Response)
    ensures
        planned(base, source, response) is Ok <==> response is Success,
        planned(base, source, response) matches Ok((s, _, _)) ==> s == source,
        planned(base, source, response) matches Err(e) ==> error_of(response) == Some(e) && e
            != DownloadError::InvalidUrl,
{
}

/// Two successful downloads of the same canonical URL with the same body and
/// MIME value name the same file and store the same bytes.
pub proof fn lemma_same_url_same_file(
    base: Seq<char>,
    source: Seq<char>,
    body1: Vec<u8>,
    mime1: Option<String>,
    body2: Vec<u8>,
    mime2: Option<String>,
)
    requires
        body1@ == body2@,
        view_option(mime1) == view_option(mime2),
    ensures
        planned(base, source, Response::Success { body: body1, mime: mime1 }) == planned(
            base,
            source,
            Response::Success { body: body2, mime: mime2 },
        ),
        planned(base, source, Response::Success { body: body1, mime: mime1 }) == Ok::<
            (Seq<char>, Seq<char>, Seq<u8>),
            DownloadError,
        >((source, cache_path(base, source, inferred_extension(view_option(mime1), body1@)), body1@)),
{
}

/// The directory that a base path names: an absolute path (one that starts
/// with `/`) as it is, a relative one under the working directory `cwd`.
pub open spec fn resolved_base(path: Seq<char>, cwd: Seq<char>) -> Seq<char> {
    if path.len() > 0 && path[0] == '/' {
        path
    } else {
        join_path(cwd, path)
    }
}

/// Fetches URLs through `fetcher` and names their cache files under the
/// directory `path`.
pub struct Downloader<T: FileDownloader> {
    fetcher: T,
    path: String,
}

impl<T: FileDownloader> Downloader<T> {
    /// The cache directory.
    pub closed spec fn base_dir(&self) -> Seq<char> {
        self.path@
    }

    /// `r` is an answer that this downloader's fetcher may give for `url`.
    pub closed spec fn fetcher_answers(&self, url: Seq<char>, r: Response) -> bool {
        self.fetcher.answers(url, r)
    }

    /// A downloader whose cache directory is `path` resolved against the
    /// working directory `cwd` (see `create_path_from_string`); the caller
    /// makes sure that directory exists.
    pub fn with_fetcher(path: &str, cwd: &str, fetcher: T) -> (r: Self)
        ensures
            r.base_dir() == resolved_base(path@, cwd@),
            forall|u: Seq<char>, x: Response| #[trigger]
                r.fetcher_answers(u, x) == fetcher.answers(u, x),
    {
        Downloader { path: Self::create_path_from_string(path, cwd), fetcher }
    }

    /// The cache directory.
    pub fn path(&self) -> (r: &str)
        ensures
            r@ == self.base_dir(),
    {
        self.path.as_str()
    }

    /// Downloads `url`: it is canonicalised, fetched once, and a success is
    /// named in the cache. A string that is no absolute URL with a host is
    /// refused (`canonicalize` gives `None`) before anything is fetched.
    pub fn download(&self, url: &str) -> (r: Result<CacheWrite, DownloadError>)
        ensures
            canonical_url(url@) is None ==> r == Err::<CacheWrite, DownloadError>(
                DownloadError::InvalidUrl,
            ),
            !url@.contains(':') ==> r == Err::<CacheWrite, DownloadError>(
                DownloadError::InvalidUrl,
            ),
            canonical_url(url@) matches Some(c) ==> exists|response: Response|
                self.fetcher_answers(c, response) && write_view(r) == planned(
                    self.base_dir(),
                    c,
                    response,
                ),
    {
        let source = match canonicalize(url) {
            Some(s) => s,
            None => return Err(DownloadError::InvalidUrl),
        };
        let response = self.fetcher.fetch(source.as_str());
        let ghost fetched = response;
        let r = self.store_response(source, response);
        assert(self.fetcher_answers(source@, fetched));
        assert(write_view(r) == planned(self.base_dir(), canonical_url(url@)->0, fetched));
        r
    }

    /// What the response fetched for the canonical URL `source` comes to.
    pub fn store_response(&self, source: String, response: Response) -> (r: Result<
        CacheWrite,
        DownloadError,
    >)
        ensures
            write_view(r) == planned(self.base_dir(), source@, response),
            r is Err ==> error_of(response) == Some(r->Err_0),
    {
        match response {
            Response::NetworkError => Err(DownloadError::NetworkError),
            Response::NotFound => Err(DownloadError::NotFound),
            Response::InvalidBody => Err(DownloadError::InvalidBody),
            Response::Success { body, mime } => {
                let extension = self.get_extension(mime, body.as_slice());
                let mut file_name = self.get_hash(source.as_str());
                proof {
                    reveal_strlit(".");
                }
                file_name.append(".");
                file_name.append(extension.as_str());
                let file = join_path_string(self.path.as_str(), file_name.as_str());
                assert(file_name@ =~= cache_file_name(
                    source@,
                    inferred_extension(view_option(mime), body@),
                ));
                Ok(CacheWrite { download: Download::new(source, file), body })
            },
        }
    }

    /// The extension for a body: from its MIME value, else from its leading
    /// bytes, else `dat`.
    pub fn get_extension(&self, mime: Option<String>, body: &[u8]) -> (r: String)
        ensures
            r@ == inferred_extension(view_option(mime), body@),
            mime_option_extension(view_option(mime)) is None && starts_with_png_signature(body@)
                ==> r@ == seq!['p', 'n', 'g'],
            r@.len() > 0,
            !r@.contains('/'),
    {
        let ghost m = view_option(mime);
        match self.get_extension_from_mimetype(mime) {
            Some(e) => {
                proof {
                    let t = m->0;
                    let i = choose|i: int| sole_slash_at(t, i);
                    if e@.contains('/') {
                        let j = choose|j: int| 0 <= j < e@.len() && e@[j] == '/';
                        assert(t[i + 1 + j] == '/');
                    }
                }
                e
            },
            None => match self.get_extension_from_content(body) {
                Some(e) => e,
                None => {
                    proof {
                        reveal_strlit("dat");
                        assert(!fallback_extension().contains('/')) by {
                            assert(fallback_extension()[0] != '/');
                            assert(fallback_extension()[1] != '/');
                            assert(fallback_extension()[2] != '/');
                        }
                    }
                    String::from_str("dat")
                },
            },
        }
    }

    /// The extension that a MIME value gives: the second of exactly two
    /// `/`-separated parts, when it is not empty.
    pub fn get_extension_from_mimetype(&self, mime: Option<String>) -> (r: Option<String>)
        ensures
            view_option(r) == mime_option_extension(view_option(mime)),
    {
        let mime = match mime {
            Some(m) => m,
            None => return None,
        };
        let m: &str = mime.as_str();
        let n: usize = m.unicode_len();
        let mut slashes: usize = 0;
        let mut pos: usize = 0;
        let mut k: usize = 0;
        while k < n
            invariant
                n == m@.len(),
                m@ == mime@,
                k <= n,
                slashes <= k,
                slashes == 0 ==> forall|j: int| 0 <= j < k ==> m@[j] != '/',
                slashes == 1 ==> pos < k && sole_slash_at(m@.subrange(0, k as int), pos as int),
                slashes >= 2 ==> exists|a: int, b: int|
                    0 <= a < b < k && m@[a] == '/' && m@[b] == '/',
            decreases n - k,
        {
            let c = m.get_char(k);
            if c == '/' {
                if slashes == 1 {
                    assert(m@[pos as int] == '/' && pos < k);
                }
                if slashes < 2 {
                    slashes = slashes + 1;
                }
                pos = k;
            }
            k = k + 1;
        }
        if slashes != 1 {
            proof {
                if exists|i: int| sole_slash_at(m@, i) {
                    let i = choose|i: int| sole_slash_at(m@, i);
                    if slashes >= 2 {
                        let (a, b) = choose|a: int, b: int|
                            0 <= a < b < k && m@[a] == '/' && m@[b] == '/';
                        assert(a == i && b == i);
                    } else {
                        assert(m@[i] == '/');
                    }
                }
            }
            return None;
        }
        assert(m@.subrange(0, n as int) =~= m@);
        assert(sole_slash_at(m@, pos as int));
        if pos + 1 == n {
            return None;
        }
        let e: &str = m.substring_char(pos + 1, n);
        Some(e.to_string())
    }

    /// The extension of the image format recognised from the body's leading
    /// bytes.
    pub fn get_extension_from_content(&self, body: &[u8]) -> (r: Option<String>)
        ensures
            view_option(r) == sniffed_extension(body@),
            starts_with_png_signature(body@) ==> view_option(r) == Some(seq!['p', 'n', 'g']),
            starts_with_jpeg_signature(body@) ==> view_option(r) == Some(seq!['j', 'p', 'g']),
            starts_with_gif_signature(body@) ==> view_option(r) == Some(seq!['g', 'i', 'f']),
            body@.len() == 0 ==> r is None,
            r matches Some(e) ==> e@.len() > 0 && !e@.contains('/'),
    {
        sniff_extension(body)
    }

    /// The URL's hash, in decimal: the stem of its cache file name.
    pub fn get_hash(&self, url: &str) -> (r: String)
        ensures
            r@ == decimal(url_hash(url@) as nat),
    {
        let mut hasher = DefaultHasher::new();
        hasher.write(url.as_bytes());
        decimal_string(hasher.finish())
    }

    /// The directory that a base path names: an absolute path (one that
    /// starts with `/`) as it is, a relative one under the working directory
    /// `cwd`.
    pub fn create_path_from_string(path_str: &str, cwd: &str) -> (r: String)
        ensures
            r@ == resolved_base(path_str@, cwd@),
    {
        if path_str.unicode_len() > 0 && path_str.get_char(0) == '/' {
            String::from_str(path_str)
        } else {
            join_path_string(cwd, path_str)
        }
    }
}

} // verus!
