use media_sync::items::MediaItem;
use media_sync::rate::RateLimiter;
use media_sync::transfer::{
    contains_str, download_param, download_url, is_video_mime, transfer_deadline_secs,
};

#[test]
fn limiter_sleeps_when_window_allowance_is_crossed() {
    // Ceiling 10240 B/s: each 100 ms window allows 1024 bytes; the write
    // that crosses the allowance triggers the sleep and resets the count.
    let mut limiter = RateLimiter::new(10240);
    assert_eq!(limiter.chunk_size(), 1024);
    assert!(!limiter.note_bytes(1000));
    assert_eq!(limiter.window_bytes, 1000);
    assert!(!limiter.note_bytes(24));
    assert_eq!(limiter.window_bytes, 1024);
    assert!(limiter.note_bytes(1));
    assert_eq!(limiter.window_bytes, 0);
}

#[test]
fn limiter_window_never_exceeds_allowance_plus_one_chunk() {
    // Any 100 ms window is charged at most ceiling/10 plus one chunk.
    let ceiling: u64 = 8000;
    let allowance = ceiling / 10;
    let mut limiter = RateLimiter::new(ceiling);
    let chunk = limiter.chunk_size() as u64;
    let mut this_window: u64 = 0;
    let mut max_window: u64 = 0;
    for _ in 0..100 {
        this_window += chunk;
        if this_window > max_window {
            max_window = this_window;
        }
        if limiter.note_bytes(chunk) {
            this_window = 0;
        }
    }
    assert!(max_window <= allowance + chunk);
}

#[test]
fn limiter_with_zero_ceiling_is_unlimited() {
    let mut limiter = RateLimiter::new(0);
    assert_eq!(limiter.chunk_size(), 1024);
    for _ in 0..10 {
        assert!(!limiter.note_bytes(1024));
    }
    assert_eq!(limiter.window_bytes, 0);
}

#[test]
fn chunk_size_tracks_the_ceiling() {
    assert_eq!(RateLimiter::new(0).chunk_size(), 1024);
    assert_eq!(RateLimiter::new(5).chunk_size(), 1);
    assert_eq!(RateLimiter::new(500).chunk_size(), 50);
    assert_eq!(RateLimiter::new(10240).chunk_size(), 1024);
    assert_eq!(RateLimiter::new(1 << 30).chunk_size(), 1024);
}

#[test]
fn deadline_scales_with_length_and_rate() {
    // 10 MB at the assumed 1 MB/s floor: 10 / 1 * 2 + 5 = 25 seconds.
    assert_eq!(transfer_deadline_secs(Some(10_000_000), 0), 25);
    // a fast ceiling raises the assumed rate
    assert_eq!(transfer_deadline_secs(Some(10_000_000), 5_000_000), 9);
    // tiny files still get the floor of 2, plus the allowance
    assert_eq!(transfer_deadline_secs(Some(1), 0), 7);
    // no declared length: the fixed generous ceiling
    assert_eq!(transfer_deadline_secs(None, 0), 600);
    assert_eq!(transfer_deadline_secs(None, 99), 600);
}

fn media(mime: Option<&str>) -> MediaItem {
    MediaItem {
        id: "m1".to_string(),
        description: None,
        productUrl: "https://photos.example/m1".to_string(),
        baseUrl: "https://media.example/m1".to_string(),
        mimeType: mime.map(|m| m.to_string()),
        mediaMetadata: None,
        contributorInfo: None,
        filename: "m1.bin".to_string(),
        download_attempts: 0,
        download_success: false,
    }
}

#[test]
fn video_mime_selects_the_video_variant() {
    assert!(is_video_mime(&Some("video/mp4".to_string())));
    assert!(is_video_mime(&Some("application/x-video".to_string())));
    assert!(!is_video_mime(&Some("image/jpeg".to_string())));
    assert!(!is_video_mime(&None));
    assert_eq!(download_param(&Some("video/mp4".to_string())), "dv");
    assert_eq!(download_param(&Some("image/png".to_string())), "d");
    assert_eq!(download_param(&None), "d");
}

#[test]
fn download_url_appends_the_variant_suffix() {
    assert_eq!(download_url(&media(Some("image/jpeg"))), "https://media.example/m1=d");
    assert_eq!(download_url(&media(Some("video/mp4"))), "https://media.example/m1=dv");
    assert_eq!(download_url(&media(None)), "https://media.example/m1=d");
}

#[test]
fn substring_search_finds_only_real_occurrences() {
    assert!(contains_str("video/mp4", "video"));
    assert!(contains_str("x", ""));
    assert!(contains_str("", ""));
    assert!(contains_str("avideo", "video"));
    assert!(!contains_str("vide", "video"));
    assert!(!contains_str("", "video"));
    assert!(!contains_str("vdieo/mp4", "video"));
}
