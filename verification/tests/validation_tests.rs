use fithub_core::account::{get_redirect_url, is_admin, AppConfig, BasicAuth, SessionUser};
use fithub_core::admin::{is_special_admin, validate_level_update};
use fithub_core::catalog::page_stats;
use fithub_core::contact::{
    contains_banned_word, get_extension_from_mime, kind_label, truncate, validate_email,
    validate_optional, validate_required,
};
use fithub_core::dashboard::map_muscle_to_group;
use fithub_core::error::AppError;

fn user_with_role(role: &str) -> SessionUser {
    SessionUser {
        id: 1,
        login_id: "alex01".to_string(),
        display_name: None,
        email: None,
        profile_image_url: None,
        oauth_provider: "local".to_string(),
        role: role.to_string(),
    }
}

#[test]
fn required_fields_are_trimmed_and_bounded() {
    assert_eq!(validate_required("  hello  ", 1, 10, "summary").unwrap(), "hello");
    assert!(validate_required("   ", 1, 10, "summary").is_err());
    assert!(validate_required("0123456789x", 1, 10, "summary").is_err());
    assert_eq!(validate_required("0123456789", 1, 10, "summary").unwrap(), "0123456789");
}

#[test]
fn optional_fields_blank_out_or_reject() {
    assert_eq!(validate_optional(None, 10).unwrap(), None);
    assert_eq!(validate_optional(Some("   ".to_string()), 10).unwrap(), None);
    assert_eq!(validate_optional(Some(" x ".to_string()), 10).unwrap(), Some("x".to_string()));
    assert!(validate_optional(Some("0123456789x".to_string()), 10).is_err());
}

#[test]
fn email_shapes() {
    assert!(validate_email("a@b.c"));
    assert!(validate_email("  someone@example.com  "));
    assert!(!validate_email("ab.c"));
    assert!(!validate_email("aa@bc"));
    assert!(!validate_email("a@@b.c"));
    assert!(!validate_email("a@b."));
    // An empty local part still fits the accepted shape.
    assert!(validate_email("@b.cd"));
    let long_local = "x".repeat(200);
    assert!(!validate_email(&format!("{}@b.c", long_local)));
}

#[test]
fn kind_labels() {
    assert_eq!(kind_label("bug"), Some("バグ"));
    assert_eq!(kind_label("request"), Some("要望"));
    assert_eq!(kind_label("other"), Some("その他"));
    assert_eq!(kind_label("spam"), None);
}

#[test]
fn mime_extensions() {
    assert_eq!(get_extension_from_mime("image/jpeg"), "jpg");
    assert_eq!(get_extension_from_mime("image/png"), "png");
    assert_eq!(get_extension_from_mime("image/gif"), "gif");
    assert_eq!(get_extension_from_mime("image/webp"), "webp");
    assert_eq!(get_extension_from_mime("application/pdf"), "bin");
}

#[test]
fn banned_words_match_case_insensitively_by_default() {
    let words = vec!["Spam".to_string(), "scam".to_string()];
    assert!(contains_banned_word("this is sPAm indeed", &words, false));
    assert!(!contains_banned_word("this is sPAm indeed", &words, true));
    assert!(contains_banned_word("a Spam b", &words, true));
    assert!(!contains_banned_word("all clean here", &words, false));
    assert!(!contains_banned_word("anything", &vec![], false));
}

#[test]
fn admin_role_and_special_account() {
    assert!(is_admin(&user_with_role("ADMIN")));
    assert!(!is_admin(&user_with_role("USER")));
    assert!(is_special_admin("220618"));
    assert!(!is_special_admin("220619"));
    let _gate = BasicAuth::new();
}

#[test]
fn level_updates_are_validated_and_priced() {
    assert!(matches!(validate_level_update(0), Err(AppError::BadRequest(_))));
    assert!(validate_level_update(1001).is_err());
    assert_eq!(validate_level_update(1).unwrap(), (1, 0));
    assert_eq!(validate_level_update(50).unwrap(), (50, 104_860));
}

#[test]
fn pagination_arithmetic() {
    assert_eq!(page_stats(45, 0, 10), (5, true, false));
    assert_eq!(page_stats(45, 4, 10), (5, false, true));
    assert_eq!(page_stats(0, 0, 10), (0, false, false));
    assert_eq!(page_stats(50, 2, 10), (5, true, true));
}

#[test]
fn errors_carry_their_class_and_message() {
    let e = AppError::NotFound("record".to_string());
    assert_eq!(e.status_code(), 404);
    assert_eq!(e.message().as_str(), "record");
    assert_eq!(AppError::BadRequest(String::new()).status_code(), 400);
    assert_eq!(AppError::Unauthorized(String::new()).status_code(), 401);
    assert_eq!(AppError::Forbidden(String::new()).status_code(), 403);
    assert_eq!(AppError::InternalError(String::new()).status_code(), 500);
    assert_eq!(AppError::DatabaseError(String::new()).status_code(), 500);
}

#[test]
fn muscles_map_to_display_groups() {
    assert_eq!(map_muscle_to_group("胸"), Some("胸"));
    assert_eq!(map_muscle_to_group("大胸筋"), Some("胸"));
    assert_eq!(map_muscle_to_group("広背筋"), Some("背中"));
    assert_eq!(map_muscle_to_group("三角筋"), Some("肩"));
    assert_eq!(map_muscle_to_group("上腕三頭筋"), Some("腕"));
    assert_eq!(map_muscle_to_group("ハムストリングス"), Some("脚"));
    assert_eq!(map_muscle_to_group("腹斜筋"), Some("腹"));
    assert_eq!(map_muscle_to_group("mystery"), None);
}

#[test]
fn truncation_keeps_short_text_and_marks_long_text() {
    assert_eq!(truncate("hello", 10), "hello");
    assert_eq!(truncate("hello", 5), "hello");
    assert_eq!(truncate("hello world", 5), "hell…");
    assert_eq!(truncate("日本語のテキスト", 4), "日本語…");
    assert_eq!(truncate("abc", 0), "…");
}

fn config_with_frontend(frontend_url: &str) -> AppConfig {
    AppConfig {
        host: "127.0.0.1".to_string(),
        port: 5000,
        database_url: String::new(),
        session_secret: String::new(),
        google_maps_api_key: String::new(),
        google_client_id: String::new(),
        google_client_secret: String::new(),
        google_redirect_uri: String::new(),
        github_client_id: String::new(),
        github_client_secret: String::new(),
        github_redirect_uri: String::new(),
        microsoft_client_id: String::new(),
        microsoft_client_secret: String::new(),
        microsoft_redirect_uri: String::new(),
        frontend_url: frontend_url.to_string(),
        discord_webhook_url: String::new(),
    }
}

#[test]
fn redirects_join_the_frontend_origin_and_the_path() {
    let bare = config_with_frontend("");
    assert_eq!(get_redirect_url(&bare, "/login"), "/login");
    let plain = config_with_frontend("https://example.test");
    assert_eq!(get_redirect_url(&plain, "/login"), "https://example.test/login");
    let slashed = config_with_frontend("https://example.test///");
    assert_eq!(get_redirect_url(&slashed, "/login"), "https://example.test/login");
}
