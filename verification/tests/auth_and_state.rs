use base64::Engine;
use media_sync::auth::{
    Credentials, GoogleAuth, PhotoScanner, ScanningError, Token,
};
use media_sync::items::{
    ContributorInfo, MediaItem, MediaMetadata, Photo, Video, VideoProcessingStatus,
};
use media_sync::scanner::all_present;
use media_sync::state::{AppState, GoogleTokenRow, TokenRow, UserData, UserRow};
use media_sync::store::Store;

#[test]
fn fresh_credentials_verify_and_hide_the_passcode() {
    let (creds, clear) = Credentials::new();
    assert_eq!(creds.id.len(), 32);
    assert_eq!(clear.len(), 32);
    assert_eq!(creds.passcode.len(), 64);
    // the stored digest matches the clear passcode and nothing else
    assert!(Credentials::verify_passcode(&clear, &creds.passcode));
    assert!(!Credentials::verify_passcode(&creds.passcode, &creds.passcode));
    assert!(!Credentials::verify_passcode(&clear, &clear));
    // ids are drawn independently per registration
    let (other, _) = Credentials::new();
    assert_ne!(creds.id, other.id);
}

#[test]
fn login_tokens_carry_their_expiry() {
    let token = Token::generate_token_at(&"user1".to_string(), 1000);
    assert_eq!(token.id, "user1");
    assert_eq!(token.token.len(), 32);
    assert_eq!(token.expiry, 1300);
    assert!(!token.is_expired_at(1300));
    assert!(token.is_expired_at(1301));

    let wall = Token::generate_token(&"user2".to_string());
    assert_eq!(wall.id, "user2");
    assert_eq!(wall.token.len(), 32);
    assert!(!wall.is_expired());
}

#[test]
fn exchanged_credentials_expire_with_a_margin() {
    let auth = GoogleAuth::from_exchange("bearer".to_string(), "refresh".to_string(), 5000, 3600);
    assert_eq!(auth.token, "bearer");
    assert_eq!(auth.refresh_token, "refresh");
    assert_eq!(auth.token_expiry_sec_epoch, 5000 + 3600 - 10);
    assert!(!auth.is_expired_at(8590));
    assert!(auth.is_expired_at(8591));
}

#[test]
fn scan_requests_reflect_the_cursor_and_refuse_stale_credentials() {
    let scanner = PhotoScanner::new();
    assert_eq!(scanner.timeout_ms, 20_000);
    let auth = GoogleAuth::from_exchange("b".to_string(), "r".to_string(), 0, 1000);

    let req = scanner.scan_request(&auth, 100, 25, None).unwrap();
    assert_eq!(req.timeout_ms, 20_000);
    assert_eq!(req.query.len(), 1);
    assert_eq!(req.query[0], ("pageSize".to_string(), "25".to_string()));

    let req = scanner.scan_request(&auth, 100, 50, Some("cursor7".to_string())).unwrap();
    assert_eq!(req.query.len(), 2);
    assert_eq!(req.query[1], ("pageToken".to_string(), "cursor7".to_string()));

    let refused = scanner.scan_request(&auth, 5000, 25, None);
    assert!(matches!(refused, Err(ScanningError::InvalidGoogleAuth)));

    assert!(scanner.scan_status(true, "200 OK".to_string()).is_ok());
    match scanner.scan_status(false, "503 Service Unavailable".to_string()) {
        Err(ScanningError::InternalFailure(m)) => assert_eq!(m, "503 Service Unavailable"),
        _ => panic!("expected an internal failure"),
    }
}

#[test]
fn scanning_errors_render_their_messages() {
    assert_eq!(ScanningError::NoConnection.message(), "No connection to Google Photos");
    assert_eq!(ScanningError::InvalidGoogleAuth.message(), "Invalid Google Auth");
    assert_eq!(
        ScanningError::NetworkFailure("timed out".to_string()).message(),
        "Network failure: timed out"
    );
    assert_eq!(
        ScanningError::InternalFailure("bad json".to_string()).message(),
        "Internal failure: bad json"
    );
}

#[test]
fn registration_creates_a_verifiable_account() {
    let mut state = AppState::new();
    let creds = state.register().expect("registration should find a fresh id");
    assert!(state.user_exists(&creds.id));
    let stored = state.get_user_by_username(&creds.id).unwrap();
    assert!(Credentials::verify_passcode(&creds.passcode, &stored.hashed_passcode));
    assert!(stored.google_auth.is_none());
    assert!(!stored.initial_scan_complete);

    let second = state.register().unwrap();
    assert_ne!(second.id, creds.id);
    assert!(state.user_exists(&second.id));
    assert!(state.user_exists(&creds.id));
}

#[test]
fn load_rebuilds_state_from_stored_rows() {
    let users = vec![
        UserRow {
            id: "u1".to_string(),
            hashed_passcode: "h1".to_string(),
            initial_scan_completed: true,
            next_token: Some("n1".to_string()),
            prev_token: Some("p1".to_string()),
        },
        UserRow {
            id: "u2".to_string(),
            hashed_passcode: "h2".to_string(),
            initial_scan_completed: false,
            next_token: None,
            prev_token: None,
        },
    ];
    let tokens = vec![
        TokenRow { token: "tk1".to_string(), user_id: Some("u1".to_string()) },
        TokenRow { token: "loose".to_string(), user_id: None },
        TokenRow { token: "tk2".to_string(), user_id: Some("u1".to_string()) },
    ];
    let google = vec![
        GoogleTokenRow {
            associated_token: None,
            token: "bearer1".to_string(),
            refresh_token: "r1".to_string(),
            token_expiry_sec_epoch: 100,
            user_id: Some("u1".to_string()),
        },
        GoogleTokenRow {
            associated_token: Some("claim1".to_string()),
            token: "bearer2".to_string(),
            refresh_token: "r2".to_string(),
            token_expiry_sec_epoch: 200,
            user_id: None,
        },
    ];

    let state = AppState::load(users, tokens, google);

    let u1 = state.get_user_by_username("u1").unwrap();
    assert_eq!(u1.hashed_passcode, "h1");
    assert!(u1.initial_scan_complete);
    assert_eq!(u1.next_token.as_deref(), Some("n1"));
    assert_eq!(u1.prev_token.as_deref(), Some("p1"));
    assert_eq!(u1.tokens, vec!["tk1".to_string(), "tk2".to_string()]);
    assert_eq!(u1.google_auth.as_ref().unwrap().token, "bearer1");
    assert_eq!(u1.google_auth.as_ref().unwrap().token_expiry_sec_epoch, 100);

    let u2 = state.get_user_by_username("u2").unwrap();
    assert_eq!(u2.hashed_passcode, "h2");
    assert!(u2.tokens.is_empty());
    assert!(u2.google_auth.is_none());

    assert!(state.auth_key_exists("loose"));
    assert!(!state.auth_key_exists("tk1"));

    assert_eq!(state.unclaimed_auth_tokens.len(), 1);
    assert_eq!(state.unclaimed_auth_tokens[0].0, "claim1");
    assert_eq!(state.unclaimed_auth_tokens[0].1.token, "bearer2");
}

fn plain_user() -> UserData {
    UserData {
        hashed_passcode: "h".to_string(),
        tokens: Vec::new(),
        google_auth: None,
        initial_scan_complete: false,
        next_token: None,
        prev_token: None,
    }
}

#[test]
fn token_completion_claims_the_exchanged_credential() {
    let mut state = AppState::new();
    state.add_user("u1".to_string(), plain_user());

    // the login url handed to the user files a token under its string
    let login = Token { id: "u1".to_string(), token: "login-key".to_string(), expiry: 9999 };
    state.issue_auth_key(login);
    assert!(state.auth_key_exists("login-key"));
    assert!(!state.auth_key_exists("other"));

    // the callback files the exchanged credential under a claim token
    let g = GoogleAuth {
        token: "bearer".to_string(),
        token_expiry_sec_epoch: 500,
        refresh_token: "refresh".to_string(),
    };
    state.add_unclaimed_token("claim-key".to_string(), g);

    assert_eq!(state.login_ready("u1").unwrap(), false);

    // the client returns both tokens to claim the login
    let claim = Token { id: "login-key".to_string(), token: "claim-key".to_string(), expiry: 0 };
    state.token_completion(claim).expect("completion should succeed");

    assert!(!state.auth_key_exists("login-key"));
    assert_eq!(state.login_ready("u1").unwrap(), true);
    let user = state.get_user_by_username("u1").unwrap();
    assert_eq!(user.google_auth.as_ref().unwrap().token, "bearer");
}

#[test]
fn token_completion_rejects_unknown_tokens() {
    let mut state = AppState::new();
    state.add_user("u1".to_string(), plain_user());
    let bad = Token { id: "missing".to_string(), token: "missing".to_string(), expiry: 0 };
    let err = state.token_completion(bad).unwrap_err();
    assert_eq!(err.1, 401);
    assert_eq!(err.0, "invalid token");
}

#[test]
fn deleting_an_account_removes_it() {
    let mut state = AppState::new();
    state.add_user("u1".to_string(), plain_user());
    assert!(state.delete_data("u1").is_ok());
    assert!(!state.user_exists("u1"));
    let err = state.delete_data("u1").unwrap_err();
    assert_eq!(err.0, "invalid user");
    assert_eq!(err.1, 401);
}

#[test]
fn user_cursor_advances_like_the_listing() {
    let mut state = AppState::new();
    state.add_user("u1".to_string(), plain_user());

    state.advance_user_cursor("u1", Some("t1".to_string())).unwrap();
    let u = state.get_user_by_username("u1").unwrap();
    assert_eq!(u.prev_token, None);
    assert_eq!(u.next_token.as_deref(), Some("t1"));
    assert!(!u.initial_scan_complete);

    state.advance_user_cursor("u1", Some("t2".to_string())).unwrap();
    let u = state.get_user_by_username("u1").unwrap();
    assert_eq!(u.prev_token.as_deref(), Some("t1"));
    assert_eq!(u.next_token.as_deref(), Some("t2"));

    // the reload request repeats the page that t1 produced
    assert_eq!(u.request_token(true).as_deref(), Some("t1"));
    assert_eq!(u.request_token(false).as_deref(), Some("t2"));

    // the listing ran out: the initial scan is complete
    state.advance_user_cursor("u1", None).unwrap();
    let u = state.get_user_by_username("u1").unwrap();
    assert_eq!(u.prev_token.as_deref(), Some("t2"));
    assert_eq!(u.next_token, None);
    assert!(u.initial_scan_complete);

    assert!(state.advance_user_cursor("nobody", None).is_err());
}

#[test]
fn all_present_checks_every_listed_id() {
    let mut store = Store::new();
    let mk = |id: &str| MediaItem {
        id: id.to_string(),
        description: None,
        productUrl: String::new(),
        baseUrl: String::new(),
        mimeType: None,
        mediaMetadata: None,
        contributorInfo: None,
        filename: String::new(),
        download_attempts: 0,
        download_success: false,
    };
    store.upsert(mk("a"));
    assert!(all_present(&vec![mk("a")], &store));
    assert!(!all_present(&vec![mk("a"), mk("b")], &store));
    assert!(all_present(&Vec::new(), &store));
}

#[test]
fn records_flatten_the_nested_metadata() {
    let item = MediaItem {
        id: "m1".to_string(),
        description: Some("desc".to_string()),
        productUrl: "purl".to_string(),
        baseUrl: "burl".to_string(),
        mimeType: Some("video/mp4".to_string()),
        mediaMetadata: Some(MediaMetadata {
            creationTime: "2020-01-01T00:00:00Z".to_string(),
            width: "1920".to_string(),
            height: "1080".to_string(),
            photo: Some(Photo {
                cameraMake: None,
                cameraModel: Some("X100".to_string()),
                isoEquivalent: Some(400),
                exposureTime: Some("1/60".to_string()),
            }),
            video: Some(Video {
                cameraMake: Some("Acme".to_string()),
                cameraModel: Some("V5".to_string()),
                status: Some(VideoProcessingStatus::READY),
            }),
        }),
        contributorInfo: Some(ContributorInfo {
            profilePictureBaseUrl: "pic".to_string(),
            displayName: "Someone".to_string(),
        }),
        filename: "m1.mp4".to_string(),
        download_attempts: 2,
        download_success: true,
    };
    let r = item.to_record(777);
    assert_eq!(r.id, "m1");
    assert_eq!(r.description.as_deref(), Some("desc"));
    assert_eq!(r.product_url, "purl");
    assert_eq!(r.base_url, "burl");
    assert_eq!(r.mime_type.as_deref(), Some("video/mp4"));
    assert_eq!(r.filename, "m1.mp4");
    assert_eq!(r.creation_time.as_deref(), Some("2020-01-01T00:00:00Z"));
    assert_eq!(r.width.as_deref(), Some("1920"));
    assert_eq!(r.height.as_deref(), Some("1080"));
    // the photo gave no make, so the video's is used; the model prefers
    // the photo's over the video's
    assert_eq!(r.camera_make.as_deref(), Some("Acme"));
    assert_eq!(r.camera_model.as_deref(), Some("X100"));
    assert_eq!(r.iso_equivalent, Some(400));
    assert_eq!(r.exposure_time.as_deref(), Some("1/60"));
    assert_eq!(r.processing_status.as_deref(), Some("READY"));
    assert_eq!(r.profile_picture_url.as_deref(), Some("pic"));
    assert_eq!(r.display_name.as_deref(), Some("Someone"));
    assert_eq!(r.download_attempts, 2);
    assert!(r.download_success);
    assert_eq!(r.download_timestamp, 777);
}

#[test]
fn records_of_bare_items_stay_empty() {
    let item = MediaItem {
        id: "m2".to_string(),
        description: None,
        productUrl: String::new(),
        baseUrl: String::new(),
        mimeType: None,
        mediaMetadata: None,
        contributorInfo: None,
        filename: "m2".to_string(),
        download_attempts: 0,
        download_success: false,
    };
    let r = item.to_record(1);
    assert_eq!(r.creation_time, None);
    assert_eq!(r.camera_make, None);
    assert_eq!(r.camera_model, None);
    assert_eq!(r.iso_equivalent, None);
    assert_eq!(r.exposure_time, None);
    assert_eq!(r.processing_status, None);
    assert_eq!(r.profile_picture_url, None);
    assert_eq!(r.display_name, None);
}

#[test]
fn basic_auth_headers_split_into_user_and_passcode() {
    let encode = |s: &str| base64::engine::general_purpose::STANDARD.encode(s);

    let (user, pass) = media_sync::login::parse_basic_auth(&format!("Basic {}", encode("user:pass")))
        .expect("well-formed header");
    assert_eq!(user, "user");
    assert_eq!(pass, "pass");

    let err = media_sync::login::parse_basic_auth("Bad").unwrap_err();
    assert_eq!((err.0.as_str(), err.1), ("invalid token", 401));

    let err = media_sync::login::parse_basic_auth("Basic !!!not-base64!!!").unwrap_err();
    assert_eq!((err.0.as_str(), err.1), ("Invalid base64 encoding", 400));

    let err = media_sync::login::parse_basic_auth(&format!("Basic {}", encode("nocolon"))).unwrap_err();
    assert_eq!((err.0.as_str(), err.1), ("Invalid auth string", 400));

    let err =
        media_sync::login::parse_basic_auth(&format!("Basic {}", encode("a:b:c"))).unwrap_err();
    assert_eq!((err.0.as_str(), err.1), ("Invalid auth string", 400));

    let bad_utf8 = base64::engine::general_purpose::STANDARD.encode([0xffu8, 0xfe, 0xfd]);
    let err = media_sync::login::parse_basic_auth(&format!("Basic {}", bad_utf8)).unwrap_err();
    assert_eq!((err.0.as_str(), err.1), ("Invalid UTF-8 encoding", 400));
}

#[test]
fn login_accepts_only_the_registered_passcode() {
    let encode = |s: &str| base64::engine::general_purpose::STANDARD.encode(s);

    let mut state = AppState::new();
    let creds = state.register().unwrap();

    let good = format!("Basic {}", encode(&format!("{}:{}", creds.id, creds.passcode)));
    assert_eq!(state.login(&good).unwrap(), creds.id);

    let wrong_pass = format!("Basic {}", encode(&format!("{}:nope", creds.id)));
    let err = state.login(&wrong_pass).unwrap_err();
    assert_eq!((err.0.as_str(), err.1), ("invalid login", 401));

    let unknown_user = format!("Basic {}", encode("ghost:pass"));
    let err = state.login(&unknown_user).unwrap_err();
    assert_eq!((err.0.as_str(), err.1), ("invalid login", 401));
}

#[test]
fn status_labels_match_the_wire_spelling() {
    assert_eq!(VideoProcessingStatus::UNSPECIFIED.label(), "UNSPECIFIED");
    assert_eq!(VideoProcessingStatus::PROCESSING.label(), "PROCESSING");
    assert_eq!(VideoProcessingStatus::READY.label(), "READY");
    assert_eq!(VideoProcessingStatus::FAILED.label(), "FAILED");
}
