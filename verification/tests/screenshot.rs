use activity_tracker::clock::WallClock;
use activity_tracker::commands::screenshot::{
    assemble_upload, bearer_token, build_upload, screenshot_file_name, CaptureError, Frame,
    UploadRequest, UPLOAD_FIELD, UPLOAD_MIME, UPLOAD_URL,
};
use activity_tracker::commands::tracking::{clear_auth_token, set_auth_token};
use activity_tracker::state::auth_state::AuthState;

#[test]
fn token_is_missing_until_set() {
    let mut auth = AuthState::new();
    assert_eq!(bearer_token(&auth), Err(CaptureError::MissingToken));
    set_auth_token("secret".to_string(), &mut auth);
    assert_eq!(bearer_token(&auth), Ok("secret".to_string()));
    clear_auth_token(&mut auth);
    assert_eq!(bearer_token(&auth), Err(CaptureError::MissingToken));
}

#[test]
fn file_name_holds_the_epoch_milliseconds() {
    assert_eq!(
        screenshot_file_name(WallClock { epoch_millis: 1_700_000_000_123 }),
        "shot_1700000000123.png"
    );
    assert_eq!(screenshot_file_name(WallClock { epoch_millis: 0 }), "shot_0.png");
    assert_eq!(screenshot_file_name(WallClock { epoch_millis: 10 }), "shot_10.png");
    assert_eq!(screenshot_file_name(WallClock { epoch_millis: -5 }), "shot_-5.png");
    assert_eq!(
        screenshot_file_name(WallClock { epoch_millis: i64::MAX }),
        "shot_9223372036854775807.png"
    );
    assert_eq!(
        screenshot_file_name(WallClock { epoch_millis: i64::MIN }),
        "shot_-9223372036854775808.png"
    );
}

#[test]
fn assemble_needs_an_encoded_frame() {
    let wall = WallClock { epoch_millis: 42 };
    assert_eq!(assemble_upload("t".to_string(), None, wall), Err(CaptureError::Encode));
    assert_eq!(
        assemble_upload("t".to_string(), Some(vec![1, 2, 3]), wall),
        Ok(UploadRequest {
            bearer_token: "t".to_string(),
            file_name: "shot_42.png".to_string(),
            png: vec![1, 2, 3],
        })
    );
}

#[test]
fn build_upload_encodes_a_png_that_decodes_to_the_frame() {
    let rgba: Vec<u8> = vec![255, 0, 0, 255, 0, 255, 0, 128, 0, 0, 255, 0, 9, 8, 7, 6];
    let frame = Frame { width: 2, height: 2, rgba: rgba.clone() };
    let request = build_upload("tok".to_string(), frame, WallClock { epoch_millis: 7 }).unwrap();
    assert_eq!(request.bearer_token, "tok");
    assert_eq!(request.file_name, "shot_7.png");
    assert_ne!(request.png, rgba);
    assert_eq!(&request.png[..8], &[0x89, b'P', b'N', b'G', 0x0d, 0x0a, 0x1a, 0x0a]);
    let decoded = image::load_from_memory(&request.png).unwrap().to_rgba8();
    assert_eq!(decoded.width(), 2);
    assert_eq!(decoded.height(), 2);
    assert_eq!(decoded.into_raw(), rgba);
}

#[test]
fn build_upload_is_the_same_for_the_same_frame() {
    let frame = Frame { width: 1, height: 3, rgba: vec![1, 2, 3, 4, 5, 6, 7, 8, 9, 10, 11, 12] };
    let wall = WallClock { epoch_millis: 1 };
    let first = build_upload("t".to_string(), frame.clone(), wall);
    let second = build_upload("t".to_string(), frame, wall);
    assert!(first.is_ok());
    assert_eq!(first, second);
}

#[test]
fn build_upload_refuses_a_short_buffer() {
    let frame = Frame { width: 2, height: 2, rgba: vec![0; 15] };
    assert_eq!(
        build_upload("tok".to_string(), frame, WallClock { epoch_millis: 7 }),
        Err(CaptureError::Encode)
    );
}

#[test]
fn upload_constants() {
    assert_eq!(UPLOAD_URL, "http://localhost:9000/employee/upload-screenshot");
    assert_eq!(UPLOAD_FIELD, "file");
    assert_eq!(UPLOAD_MIME, "image/png");
}

#[test]
fn build_upload_ignores_bytes_past_the_last_pixel() {
    let exact = Frame { width: 1, height: 1, rgba: vec![10, 20, 30, 40] };
    let longer = Frame { width: 1, height: 1, rgba: vec![10, 20, 30, 40, 50] };
    let wall = WallClock { epoch_millis: 3 };
    let png = build_upload("t".to_string(), longer, wall).unwrap().png;
    assert_eq!(png, build_upload("t".to_string(), exact, wall).unwrap().png);
    let decoded = image::load_from_memory(&png).unwrap().to_rgba8();
    assert_eq!(decoded.into_raw(), vec![10, 20, 30, 40]);
}
