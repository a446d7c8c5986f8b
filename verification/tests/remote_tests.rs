use task_reminder::errors::AppError;
use task_reminder::remote::{
    build_auth_header, build_base_url, build_url, connection_test_result, download_result,
    exists_from_status, is_success, lock_from_response, lock_write_result, may_acquire,
    strip_leading, strip_trailing, upload_result, LockInfo, LOCK_FILE_NAME, LOCK_TTL_SECONDS,
    REMOTE_DB_NAME,
};

fn rm_lock(device: &str, expires_at: i64) -> LockInfo {
    LockInfo { device_id: device.to_string(), expires_at }
}

#[test]
fn remote_names_are_fixed() {
    assert_eq!(REMOTE_DB_NAME, "taskreminder.db");
    assert_eq!(LOCK_FILE_NAME, "taskreminder.lock");
    assert_eq!(LOCK_TTL_SECONDS, 120);
}

#[test]
fn slashes_are_stripped() {
    assert_eq!(strip_trailing("a/b//", '/'), "a/b");
    assert_eq!(strip_trailing("///", '/'), "");
    assert_eq!(strip_trailing("", '/'), "");
    assert_eq!(strip_leading("//a/b/", '/'), "a/b/");
    assert_eq!(strip_leading("a", '/'), "a");
}

#[test]
fn base_url_joins_address_and_root() {
    assert_eq!(build_base_url(" https://dav.example.com/ ", " /notes/ "), "https://dav.example.com/notes");
    assert_eq!(build_base_url("https://dav.example.com", "notes/sub"), "https://dav.example.com/notes/sub");
    assert_eq!(build_base_url("https://dav.example.com//", ""), "https://dav.example.com");
    assert_eq!(build_base_url("https://dav.example.com", "   "), "https://dav.example.com");
    assert_eq!(build_base_url("https://dav.example.com", "/"), "https://dav.example.com");
    assert_eq!(build_base_url("https://dav.example.com", "//a//"), "https://dav.example.com//a");
}

#[test]
fn file_url_joins_base_and_name() {
    assert_eq!(build_url("https://h/root", "taskreminder.db"), "https://h/root/taskreminder.db");
    assert_eq!(build_url("https://h/root/", "/taskreminder.lock"), "https://h/root/taskreminder.lock");
    assert_eq!(build_url("https://h/root/", ""), "https://h/root/");
}

#[test]
fn auth_header_is_basic_base64() {
    assert_eq!(build_auth_header("user", "pass"), Some("Basic dXNlcjpwYXNz".to_string()));
    assert_eq!(
        build_auth_header("Aladdin", "open sesame"),
        Some("Basic QWxhZGRpbjpvcGVuIHNlc2FtZQ==".to_string())
    );
    assert_eq!(build_auth_header(" u ", ""), Some("Basic IHUgOg==".to_string()));
    assert_eq!(build_auth_header("", "pass"), None);
    assert_eq!(build_auth_header("   ", "pass"), None);
}

#[test]
fn status_codes_are_judged() {
    assert!(is_success(200) && is_success(204) && is_success(299));
    assert!(!is_success(199) && !is_success(300) && !is_success(404));
    assert!(exists_from_status(200));
    assert!(!exists_from_status(204) && !exists_from_status(404));
}

#[test]
fn connection_tests_are_judged() {
    assert_eq!(connection_test_result(207, "207 Multi-Status"), (true, "连接成功".to_string()));
    assert_eq!(connection_test_result(200, "200 OK"), (true, "连接成功".to_string()));
    assert_eq!(connection_test_result(401, "401 Unauthorized"), (false, "认证失败".to_string()));
    assert_eq!(connection_test_result(403, "403 Forbidden"), (false, "认证失败".to_string()));
    assert_eq!(
        connection_test_result(500, "500 Internal Server Error"),
        (false, "连接失败，状态码: 500 Internal Server Error".to_string())
    );
}

#[test]
fn transfers_fail_on_any_code_but_success() {
    assert_eq!(download_result(200, "200 OK"), Ok(()));
    assert_eq!(
        download_result(404, "404 Not Found"),
        Err(AppError::Sync("下载失败，状态码: 404 Not Found".to_string()))
    );
    assert_eq!(upload_result(201, "201 Created"), Ok(()));
    assert_eq!(
        upload_result(507, "507 Insufficient Storage"),
        Err(AppError::Sync("上传失败，状态码: 507 Insufficient Storage".to_string()))
    );
    assert_eq!(lock_write_result(204, "204 No Content"), Ok(true));
    assert_eq!(
        lock_write_result(423, "423 Locked"),
        Err(AppError::Sync("写入锁失败，状态码: 423 Locked".to_string()))
    );
}

#[test]
fn a_fresh_lock_runs_out_after_its_ttl() {
    let now = 1_700_000_000_000i64;
    let lock = LockInfo::new("device-a", now);
    assert_eq!(lock, rm_lock("device-a", now + 120_000));
    assert!(!lock.is_expired(now));
    assert!(!lock.is_expired(now + 119_999));
    assert!(lock.is_expired(now + 120_000));
    assert!(lock.is_expired(now + 500_000));
}

#[test]
fn small_expiry_values_are_seconds() {
    assert_eq!(rm_lock("d", 1_700_000_000).expires_at_millis(), 1_700_000_000_000);
    assert_eq!(rm_lock("d", 1_700_000_000_000).expires_at_millis(), 1_700_000_000_000);
    assert_eq!(rm_lock("d", 1_000_000_000_000).expires_at_millis(), 1_000_000_000_000_000);
    assert_eq!(rm_lock("d", 1_000_000_000_001).expires_at_millis(), 1_000_000_000_001);
    assert_eq!(rm_lock("d", 0).expires_at_millis(), 0);
    assert_eq!(rm_lock("d", -5).expires_at_millis(), -5000);
    assert_eq!(rm_lock("d", i64::MIN).expires_at_millis(), i64::MIN);
    assert!(rm_lock("d", i64::MIN).is_expired(0));
}

#[test]
fn only_a_live_lock_of_another_device_blocks() {
    let now = 1_700_000_000_000i64;
    assert!(may_acquire(&None, "me", now));
    assert!(may_acquire(&Some(rm_lock("me", now + 60_000)), "me", now));
    assert!(may_acquire(&Some(rm_lock("other", now)), "me", now));
    assert!(may_acquire(&Some(rm_lock("other", now - 1)), "me", now));
    assert!(!may_acquire(&Some(rm_lock("other", now + 1)), "me", now));
    assert!(!may_acquire(&Some(rm_lock("other", 1_700_000_100)), "me", now));
}

#[test]
fn the_lock_file_is_read_only_from_a_success() {
    let lock = rm_lock("other", 5);
    assert_eq!(lock_from_response(true, 200, Some(lock.clone())), Some(lock.clone()));
    assert_eq!(lock_from_response(true, 200, None), None);
    assert_eq!(lock_from_response(false, 200, Some(lock.clone())), None);
    assert_eq!(lock_from_response(true, 404, Some(lock.clone())), None);
    assert_eq!(lock_from_response(true, 500, Some(lock)), None);
}
