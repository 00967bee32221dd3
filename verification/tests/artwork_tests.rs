use covermint::artwork::{artwork_source, is_cacheable_url, source_for_scheme, trim_cache, ArtworkSource, CacheFile};

const DAY: u64 = 86_400_000_000_000;

#[test]
fn sources_by_scheme() {
    assert_eq!(artwork_source("https://i.scdn.co/image/ab67"), Some(ArtworkSource::Web));
    assert_eq!(artwork_source("HTTP://example.org/x.png"), Some(ArtworkSource::Web));
    assert_eq!(artwork_source("file:///home/me/cover.jpg"), Some(ArtworkSource::File));
    assert_eq!(artwork_source("data:image/png;base64,AAAA"), None);
    assert_eq!(artwork_source("not a url"), None);
    assert!(is_cacheable_url("https://example.org/a.jpg"));
    assert!(!is_cacheable_url("file:///tmp/a.jpg"));
    assert_eq!(source_for_scheme(Some("ftp")), None);
}

#[test]
fn stale_files_go_first() {
    let now = 100 * DAY;
    let files = vec![
        CacheFile { modified_nanos: Some(now - 31 * DAY), size: 10 },
        CacheFile { modified_nanos: Some(now - DAY), size: 10 },
        CacheFile { modified_nanos: None, size: 10 },
        CacheFile { modified_nanos: Some(now + DAY), size: 10 },
    ];
    assert_eq!(trim_cache(&files, now, 10, 1_000), vec![0]);
}

#[test]
fn oldest_files_go_until_within_limits() {
    let now = 100 * DAY;
    let files = vec![
        CacheFile { modified_nanos: Some(now - 3 * DAY), size: 50 },
        CacheFile { modified_nanos: Some(now - 5 * DAY), size: 50 },
        CacheFile { modified_nanos: None, size: 50 },
        CacheFile { modified_nanos: Some(now - 4 * DAY), size: 50 },
    ];
    assert_eq!(trim_cache(&files, now, 2, 1_000), vec![2, 1]);
    assert_eq!(trim_cache(&files, now, 10, 120), vec![2, 1]);
    assert_eq!(trim_cache(&files, now, 10, 90), vec![2, 1, 3]);
    assert_eq!(trim_cache(&files, now, 0, 0), vec![2, 1, 3, 0]);
    assert_eq!(trim_cache(&files, now, 4, 200), Vec::<usize>::new());
}
