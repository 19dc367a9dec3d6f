use imagehost::auth::{check_authorization, AuthorizationError};
use imagehost::retrieve::{image_id_of, resolve_lookup, ImageRecord, NotFound};
use imagehost::upload::{finish_upload, prepare_upload, UploadError, UploadPlan};
use imagehost::Config;

const SECRET: &str = "beans";
const BASE_URL: &str = "https://i.itswilliboy.com";

fn config() -> Config {
    Config {
        secret: SECRET.to_string(),
        base_url: BASE_URL.to_string(),
    }
}

fn stored(bytes: &[u8], mime: Option<&str>) -> ImageRecord {
    ImageRecord {
        image_data: bytes.to_vec(),
        mimetype: mime.map(|m| m.to_string()),
    }
}

#[test]
fn landing_page_greets() {
    assert_eq!(imagehost::index(), "Hello, World!");
}

#[test]
fn authorization_accepts_exact_secret_only() {
    assert!(check_authorization(Some("beans"), SECRET).is_ok());
    assert!(matches!(
        check_authorization(Some("Beans"), SECRET),
        Err(AuthorizationError::Invalid)
    ));
    assert!(matches!(
        check_authorization(Some("beans "), SECRET),
        Err(AuthorizationError::Invalid)
    ));
    assert!(matches!(
        check_authorization(None, SECRET),
        Err(AuthorizationError::Missing)
    ));
}

#[test]
fn round_trip_png() {
    let body: Vec<u8> = vec![0x89, b'P', b'N', b'G', 0, 1, 2, 3];
    let plan = prepare_upload(Some("beans"), &config(), Some("image/png")).unwrap();
    assert_eq!(plan.ext, "png");
    assert_eq!(plan.mimetype, "image/png");
    assert_eq!(plan.staging_path, format!("temp/{}.png", plan.id));

    let receipt = finish_upload(&plan, &config(), true).unwrap();
    assert_eq!(
        receipt,
        format!(
            "{{\"id\": \"{}\", \"url\": \"{}/{}.png\"}}",
            plan.id, BASE_URL, plan.id
        )
    );

    let requested = format!("{}.png", plan.id);
    assert_eq!(image_id_of(&requested), plan.id);

    let row = stored(&body, Some("image/png"));
    let resp = resolve_lookup(Some(row)).unwrap();
    assert_eq!(resp.body, body);
    assert_eq!(resp.content_type, "image/png");
}

#[test]
fn upload_without_header_is_401() {
    let r = prepare_upload(None, &config(), Some("image/png"));
    match r {
        Err(e) => {
            assert_eq!(e, UploadError::Unauthorized(AuthorizationError::Missing));
            assert_eq!(e.status_code(), 401);
        }
        Ok(_) => panic!("unauthorized upload was accepted"),
    }
}

#[test]
fn upload_with_wrong_secret_is_401() {
    let r = prepare_upload(Some("not-the-secret"), &config(), Some("image/png"));
    match r {
        Err(e) => {
            assert_eq!(e, UploadError::Unauthorized(AuthorizationError::Invalid));
            assert_eq!(e.status_code(), 401);
        }
        Ok(_) => panic!("unauthorized upload was accepted"),
    }
}

#[test]
fn upload_without_mime_type_is_400() {
    let r = prepare_upload(Some("beans"), &config(), None);
    assert_eq!(r.unwrap_err(), UploadError::MissingMime);
    assert_eq!(UploadError::MissingMime.status_code(), 400);
}

#[test]
fn upload_with_unmapped_mime_type_is_400() {
    let r = prepare_upload(Some("beans"), &config(), Some("application/x-no-such-kind"));
    assert_eq!(r.unwrap_err(), UploadError::UnmappedMime);
    assert_eq!(UploadError::UnmappedMime.status_code(), 400);
}

#[test]
fn storage_faults_are_500() {
    let plan = UploadPlan {
        id: "abcdefghij".to_string(),
        ext: "png".to_string(),
        mimetype: "image/png".to_string(),
        staging_path: "temp/abcdefghij.png".to_string(),
    };
    let r = finish_upload(&plan, &config(), false);
    assert_eq!(r.unwrap_err(), UploadError::Storage);
    assert_eq!(UploadError::Storage.status_code(), 500);
    assert_eq!(UploadError::Staging.status_code(), 500);
}

#[test]
fn receipt_body_is_exact_json() {
    let plan = UploadPlan {
        id: "abcdefghij".to_string(),
        ext: "png".to_string(),
        mimetype: "image/png".to_string(),
        staging_path: "temp/abcdefghij.png".to_string(),
    };
    let receipt = finish_upload(&plan, &config(), true).unwrap();
    assert_eq!(
        receipt,
        "{\"id\": \"abcdefghij\", \"url\": \"https://i.itswilliboy.com/abcdefghij.png\"}"
    );
}

#[test]
fn unknown_id_is_404() {
    assert_eq!(image_id_of("doesnotexist.png"), "doesnotexist");
    let r = resolve_lookup(None);
    assert_eq!(r.unwrap_err(), NotFound);
    assert_eq!(NotFound.status_code(), 404);
}

#[test]
fn extension_in_path_is_ignored_on_read() {
    assert_eq!(image_id_of("abcdefghij.jpg"), "abcdefghij");
    assert_eq!(image_id_of("abcdefghij.png"), "abcdefghij");
    assert_eq!(image_id_of("abcdefghij"), "abcdefghij");
    assert_eq!(image_id_of("a.b.c"), "a");
    assert_eq!(image_id_of(""), "");

    let body: Vec<u8> = vec![1, 2, 3];
    let with_wrong_ext = resolve_lookup(Some(stored(&body, Some("image/png")))).unwrap();
    assert_eq!(with_wrong_ext.body, body);
    assert_eq!(with_wrong_ext.content_type, "image/png");
}

#[test]
fn missing_stored_mime_defaults_to_png() {
    let resp = resolve_lookup(Some(stored(&[7, 8], None))).unwrap();
    assert_eq!(resp.content_type, "image/png");
    assert_eq!(resp.body, vec![7, 8]);
}

#[test]
fn repeated_reads_are_identical() {
    let body: Vec<u8> = vec![9, 9, 9, 1];
    let first = resolve_lookup(Some(stored(&body, Some("image/gif")))).unwrap();
    let second = resolve_lookup(Some(stored(&body, Some("image/gif")))).unwrap();
    assert_eq!(first.body, second.body);
    assert_eq!(first.content_type, second.content_type);
}
