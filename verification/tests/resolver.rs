use isofetch::errors::DownloadError;
use isofetch::resolver::join_path;
use isofetch::resolver::resolve;

#[test]
fn query_string_is_stripped() {
    let r = resolve("https://example/setup.iso?tok=abc");
    assert_eq!(r.unwrap(), "setup.iso");
}

#[test]
fn query_with_many_parameters_is_stripped() {
    let r = resolve("https://mirror.example.org/pub/ubuntu-22.04.iso?a=1&b=2&c=3");
    assert_eq!(r.unwrap(), "ubuntu-22.04.iso");
}

#[test]
fn iso_in_query_of_other_segment_is_refused() {
    // The final path segment is `get`; the `.iso` name sits only inside
    // the query string, which is not part of the file name.
    let r = resolve("https://example/get?file=setup.iso&tok=abc");
    assert!(matches!(r, Err(DownloadError::InvalidTarget(_))));
}

#[test]
fn plain_iso_url_resolves() {
    let r = resolve("https://example/path/ubuntu-22.04.iso");
    assert_eq!(r.unwrap(), "ubuntu-22.04.iso");
}

#[test]
fn http_scheme_is_accepted() {
    let r = resolve("http://example/a.iso");
    assert_eq!(r.unwrap(), "a.iso");
}

#[test]
fn wrong_extension_is_refused() {
    let r = resolve("https://example/path/readme.txt");
    match r {
        Err(DownloadError::InvalidTarget(u)) => {
            assert_eq!(u, "https://example/path/readme.txt");
        }
        _ => panic!("a non-iso target must be refused"),
    }
}

#[test]
fn iso_extension_must_end_the_name() {
    let r = resolve("https://example/path/a.iso.part");
    assert!(matches!(r, Err(DownloadError::InvalidTarget(_))));
}

#[test]
fn url_without_path_is_refused() {
    let r = resolve("https://example");
    assert!(matches!(r, Err(DownloadError::InvalidTarget(_))));
}

#[test]
fn host_named_like_an_iso_is_refused() {
    let r = resolve("https://a.iso");
    assert!(matches!(r, Err(DownloadError::InvalidTarget(_))));
}

#[test]
fn other_scheme_is_refused() {
    let r = resolve("ftp://example/a.iso");
    assert!(matches!(r, Err(DownloadError::InvalidTarget(_))));
}

#[test]
fn empty_url_is_refused() {
    let r = resolve("");
    assert!(matches!(r, Err(DownloadError::InvalidTarget(_))));
}

#[test]
fn join_path_inserts_separator() {
    assert_eq!(join_path("/tmp/isos", "a.iso"), "/tmp/isos/a.iso");
    assert_eq!(join_path("", "a.iso"), "/a.iso");
}
