//! Fetch a remote resource and place it in a content-addressed cache
//! directory, naming each file by a hash of its canonical URL and an
//! extension inferred from its MIME type or its leading bytes.

mod downloader;
mod extension;
mod naming;
mod response;

pub use downloader::{
    cache_path, lemma_outcome_follows_response, resolved_base, lemma_same_url_same_file, planned, write_view, CacheWrite, Download, Downloader};
pub use extension::{
    fallback_extension, inferred_extension, lemma_fallback_last, lemma_mime_subtype_first, mime_extension, mime_option_extension, png_signature,
    sniffed_extension, sole_slash_at, starts_with_gif_signature, starts_with_jpeg_signature,
    starts_with_png_signature, view_option,
};
pub use naming::{
    cache_file_name, canonical_url, canonicalize, decimal, decimal_string, digit_char, join_path,
    join_path_string, parsed_url, url_hash,
};
pub use response::{error_of, DownloadError, FileDownloader, HttpOutcome, Response};
