use std::cell::RefCell;

use image_loader::{
    canonicalize, decimal_string, join_path_string, CacheWrite, DownloadError, Downloader, FileDownloader,
    HttpOutcome, Response,
};

struct MockFetcher {
    responses: RefCell<Vec<Response>>,
}

impl FileDownloader for MockFetcher {
    fn fetch(&self, _url: &str) -> Response {
        let mut responses = self.responses.borrow_mut();
        if responses.is_empty() {
            Response::network_error()
        } else {
            responses.remove(0)
        }
    }
}

impl MockFetcher {
    fn new(responses: Vec<Response>) -> Self {
        Self {
            responses: RefCell::new(responses),
        }
    }
}

fn mock_file_content() -> Vec<u8> {
    "Mocked file content".as_bytes().to_vec()
}

fn png_bytes() -> Vec<u8> {
    vec![0x89, b'P', b'N', b'G', 0x0d, 0x0a, 0x1a, 0x0a, 0, 0, 0, 13]
}

fn downloader(responses: Vec<Response>) -> Downloader<MockFetcher> {
    Downloader::with_fetcher("./images", "/work", MockFetcher::new(responses))
}

fn extension_of(w: &CacheWrite) -> String {
    w.download.file.rsplit('.').next().unwrap().to_string()
}

#[test]
fn test_download_file() {
    let url = "https://www.rust-lang.org/logos/rust-logo-512x512.png";
    let expected_content = mock_file_content();
    let response = Response::ok(expected_content.clone(), Some("image/png".to_string()));
    let downloader = downloader(vec![response]);

    let download = downloader.download(url).unwrap();

    assert_eq!(download.download.source, url);
    assert_eq!(download.body, expected_content);
    assert!(download.download.file.starts_with("/work/./images/"));
    assert!(download.download.file.ends_with(".png"));
}

#[test]
fn test_invalid_url() {
    let url = "rust-logo-512x512.png";
    let expected_content = mock_file_content();
    let response = Response::ok(expected_content.clone(), Some("image/png".to_string()));
    let downloader = downloader(vec![response]);

    let download = downloader.download(url).unwrap_err();

    assert_eq!(download, DownloadError::InvalidUrl);
}

#[test]
fn test_not_found_url() {
    let url = "https://example.com/rust-logo-512x512.png";
    let downloader = downloader(vec![Response::not_found()]);

    let download = downloader.download(url).unwrap_err();

    assert_eq!(download, DownloadError::NotFound);
}

#[test]
fn mocked_png_is_stored_whole() {
    let downloader = downloader(vec![Response::ok(
        mock_file_content(),
        Some("image/png".to_string()),
    )]);
    let w = downloader.download("https://example.com/a.png").unwrap();
    assert_eq!(w.download.source, "https://example.com/a.png");
    assert_eq!(w.body, b"Mocked file content".to_vec());
    assert_eq!(extension_of(&w), "png");
}

#[test]
fn missing_file_is_not_found() {
    let downloader = downloader(vec![Response::not_found()]);
    let r = downloader.download("https://example.com/missing.png");
    assert_eq!(r.unwrap_err(), DownloadError::NotFound);
}

#[test]
fn invalid_url_leaves_queue_untouched() {
    let downloader = downloader(vec![Response::ok(
        mock_file_content(),
        Some("image/png".to_string()),
    )]);
    assert_eq!(
        downloader.download("not-a-url").unwrap_err(),
        DownloadError::InvalidUrl
    );
    let w = downloader.download("https://example.com/a.png").unwrap();
    assert_eq!(w.body, mock_file_content());
}

#[test]
fn each_failed_response_maps_to_its_error() {
    let downloader = downloader(vec![Response::invalid_body(), Response::network_error()]);
    let url = "https://example.com/x";
    assert_eq!(downloader.download(url).unwrap_err(), DownloadError::InvalidBody);
    assert_eq!(downloader.download(url).unwrap_err(), DownloadError::NetworkError);
    // the queue is empty now: every further fetch is a network error
    assert_eq!(downloader.download(url).unwrap_err(), DownloadError::NetworkError);
}

#[test]
fn source_is_canonical_url() {
    let downloader = downloader(vec![Response::ok(vec![1, 2, 3], None)]);
    let w = downloader.download("HTTPS://Example.COM").unwrap();
    assert_eq!(w.download.source, "https://example.com/");
}

#[test]
fn same_url_and_response_give_same_file() {
    let make = || Response::ok(mock_file_content(), Some("image/png".to_string()));
    let d = downloader(vec![make(), make()]);
    let a = d.download("https://example.com/a.png").unwrap();
    let b = d.download("https://example.com/a.png").unwrap();
    assert_eq!(a.download, b.download);
    assert_eq!(a.body, b.body);
    let c = downloader(vec![make()])
        .download("https://example.com/b.png")
        .unwrap();
    assert_ne!(a.download.file, c.download.file);
}

#[test]
fn file_name_is_hash_and_extension() {
    let d = downloader(vec![Response::ok(vec![7], Some("text/plain".to_string()))]);
    let w = d.download("https://example.com/").unwrap();
    let expected = format!("/work/./images/{}.plain", d.get_hash("https://example.com/"));
    assert_eq!(w.download.file, expected);
}

#[test]
fn mime_subtype_wins_over_content() {
    let d = downloader(vec![]);
    assert_eq!(d.get_extension(Some("image/png".to_string()), &[1, 2, 3]), "png");
    assert_eq!(d.get_extension(Some("image/jpeg".to_string()), &png_bytes()), "jpeg");
}

#[test]
fn signature_used_without_mime() {
    let d = downloader(vec![]);
    assert_eq!(d.get_extension(None, &png_bytes()), "png");
    assert_eq!(d.get_extension(None, b"GIF89a-rest"), "gif");
    assert_eq!(d.get_extension_from_content(&png_bytes()), Some("png".to_string()));
    assert_eq!(d.get_extension(None, &[0xff, 0xd8, 0xff, 0xe0]), "jpg");
    assert_eq!(d.get_extension(Some("image".to_string()), b"GIF87a...."), "gif");
}

#[test]
fn fallback_is_dat() {
    let d = downloader(vec![]);
    assert_eq!(d.get_extension(None, b"Mocked file content"), "dat");
    assert_eq!(d.get_extension(Some("nonsense".to_string()), b"plain"), "dat");
    assert_eq!(d.get_extension_from_content(b""), None);
}

#[test]
fn malformed_mime_gives_no_extension() {
    let d = downloader(vec![]);
    assert_eq!(d.get_extension_from_mimetype(None), None);
    assert_eq!(d.get_extension_from_mimetype(Some("image/".to_string())), None);
    assert_eq!(d.get_extension_from_mimetype(Some("a/b/c".to_string())), None);
    assert_eq!(d.get_extension_from_mimetype(Some("png".to_string())), None);
    assert_eq!(d.get_extension_from_mimetype(Some("".to_string())), None);
    assert_eq!(
        d.get_extension_from_mimetype(Some("text/html; charset=utf-8".to_string())),
        Some("html; charset=utf-8".to_string())
    );
    assert_eq!(
        d.get_extension_from_mimetype(Some("/x".to_string())),
        Some("x".to_string())
    );
}

#[test]
fn hash_is_decimal_and_stable() {
    let d = downloader(vec![]);
    let h1 = d.get_hash("https://example.com/a.png");
    let h2 = d.get_hash("https://example.com/a.png");
    assert_eq!(h1, h2);
    assert!(!h1.is_empty());
    assert!(h1.chars().all(|c| c.is_ascii_digit()));
    assert_ne!(h1, d.get_hash("https://example.com/b.png"));
}

#[test]
fn decimal_digits() {
    assert_eq!(decimal_string(0), "0");
    assert_eq!(decimal_string(7), "7");
    assert_eq!(decimal_string(10), "10");
    assert_eq!(decimal_string(9075), "9075");
    assert_eq!(decimal_string(u64::MAX), "18446744073709551615");
}

#[test]
fn path_joining() {
    assert_eq!(join_path_string("/tmp/cache", "1.png"), "/tmp/cache/1.png");
    assert_eq!(join_path_string("/tmp/cache/", "1.png"), "/tmp/cache/1.png");
    assert_eq!(join_path_string("", "1.png"), "1.png");
}

#[test]
fn base_path_resolution() {
    assert_eq!(
        Downloader::<MockFetcher>::create_path_from_string("/var/images", "/home/u"),
        "/var/images"
    );
    assert_eq!(
        Downloader::<MockFetcher>::create_path_from_string("images", "/home/u"),
        "/home/u/images"
    );
    assert_eq!(
        Downloader::<MockFetcher>::create_path_from_string("./images", "/home/u/"),
        "/home/u/./images"
    );
}

#[test]
fn downloader_keeps_its_path() {
    let d = Downloader::with_fetcher("/srv/cache", "/work", MockFetcher::new(vec![]));
    assert_eq!(d.path(), "/srv/cache");
    let d = Downloader::with_fetcher("cache", "/work", MockFetcher::new(vec![]));
    assert_eq!(d.path(), "/work/cache");
}

#[test]
fn http_outcomes_classify() {
    let ok = Response::from_http(HttpOutcome::Body {
        status: 200,
        body: vec![1],
        mime: None,
    });
    assert!(matches!(ok, Response::Success { .. }));
    for status in [201u16, 204, 302] {
        let r = Response::from_http(HttpOutcome::Body {
            status,
            body: vec![1],
            mime: None,
        });
        assert!(matches!(r, Response::NetworkError));
    }
    assert!(matches!(
        Response::from_http(HttpOutcome::Status(404)),
        Response::NotFound
    ));
    assert!(matches!(
        Response::from_http(HttpOutcome::Status(500)),
        Response::NetworkError
    ));
    assert!(matches!(
        Response::from_http(HttpOutcome::Transport),
        Response::NetworkError
    ));
    assert!(matches!(
        Response::from_http(HttpOutcome::BodyUnreadable),
        Response::InvalidBody
    ));
}

#[test]
fn relative_url_is_invalid() {
    let d = downloader(vec![Response::not_found()]);
    assert_eq!(d.download("/logos/a.png").unwrap_err(), DownloadError::InvalidUrl);
    assert_eq!(d.download("").unwrap_err(), DownloadError::InvalidUrl);
}

#[test]
fn url_without_host_is_invalid() {
    let d = downloader(vec![Response::ok(vec![1], None)]);
    assert_eq!(
        d.download("mailto:x@example.com").unwrap_err(),
        DownloadError::InvalidUrl
    );
    assert_eq!(d.download("data:text/plain,hi").unwrap_err(), DownloadError::InvalidUrl);
    // the queued answer is still there for a URL with a host
    assert!(d.download("https://example.com/").is_ok());
}

#[test]
fn canonical_forms() {
    assert_eq!(
        canonicalize("HTTPS://Example.COM/a.png"),
        Some("https://example.com/a.png".to_string())
    );
    assert_eq!(canonicalize("mailto:x@example.com"), None);
    assert_eq!(canonicalize("not-a-url"), None);
}
