use command_shim::dialog::{
    multi_picker_response, multiple_requested, save_picker_response, single_picker_response,
};
use command_shim::error::{os_call_response, store_call_response, ShimError};
use command_shim::notify::notification_request;
use command_shim::os::{get_os, OsKind};
use command_shim::settings::{default_server_key, store_name, Settings, StoredValue};
use command_shim::update::{
    check_update, install_decision, install_response, InstallAction, UpdateCheckOutcome, UpdateInfo,
};

#[test]
fn os_names_are_the_fixed_enumeration() {
    assert_eq!(get_os(OsKind::Macos), "macos");
    assert_eq!(get_os(OsKind::Windows), "windows");
    assert_eq!(get_os(OsKind::Linux), "linux");
    assert_eq!(get_os(OsKind::Unknown), "unknown");
}

#[test]
fn os_name_is_never_empty() {
    for kind in [OsKind::Macos, OsKind::Windows, OsKind::Linux, OsKind::Unknown] {
        assert!(!get_os(kind).is_empty());
    }
}

#[test]
fn check_update_reports_pending_version() {
    let r = check_update(UpdateCheckOutcome::Found("1.2.3".to_string()));
    assert_eq!(
        r.unwrap(),
        UpdateInfo { update_available: true, version: Some("1.2.3".to_string()) }
    );
}

#[test]
fn check_update_reports_up_to_date() {
    let r = check_update(UpdateCheckOutcome::UpToDate);
    assert_eq!(r.unwrap(), UpdateInfo { update_available: false, version: None });
}

#[test]
fn check_update_failure_is_update_check_error() {
    let r = check_update(UpdateCheckOutcome::Failed("timed out".to_string()));
    match r {
        Err(ShimError::UpdateCheckError(m)) => assert_eq!(m, "timed out"),
        _ => panic!("expected an update-check error"),
    }
}

#[test]
fn install_with_nothing_pending_is_refused() {
    let a = install_decision(UpdateCheckOutcome::UpToDate);
    match a {
        InstallAction::Refuse(ShimError::NoUpdateAvailable) => {}
        _ => panic!("expected a refusal with the no-update error"),
    }
}

#[test]
fn install_after_failed_check_is_refused_with_check_error() {
    let a = install_decision(UpdateCheckOutcome::Failed("bad manifest".to_string()));
    match a {
        InstallAction::Refuse(ShimError::UpdateCheckError(m)) => assert_eq!(m, "bad manifest"),
        _ => panic!("expected a refusal with the update-check error"),
    }
}

#[test]
fn install_downloads_only_a_pending_update() {
    let a = install_decision(UpdateCheckOutcome::Found("2.0.0".to_string()));
    assert!(matches!(a, InstallAction::Download));
}

#[test]
fn install_failure_is_install_error() {
    match install_response(Err("disk full".to_string())) {
        Err(ShimError::InstallError(m)) => assert_eq!(m, "disk full"),
        _ => panic!("expected an install error"),
    }
    assert!(install_response(Ok(())).is_ok());
}

#[test]
fn cancelled_pickers_are_absent_not_errors() {
    assert_eq!(multi_picker_response(None).unwrap(), None);
    assert_eq!(single_picker_response(None).unwrap(), None);
    assert_eq!(save_picker_response(None).unwrap(), None);
}

#[test]
fn multi_picker_returns_the_chosen_paths() {
    let picked = vec!["/a".to_string(), "/b".to_string()];
    let r = multi_picker_response(Some(picked.clone()));
    assert_eq!(r.unwrap(), Some(picked));
}

#[test]
fn single_picker_wraps_the_path_in_a_list_of_one() {
    let r = single_picker_response(Some("/home/me".to_string()));
    assert_eq!(r.unwrap(), Some(vec!["/home/me".to_string()]));
}

#[test]
fn save_picker_returns_the_chosen_path() {
    let r = save_picker_response(Some("/tmp/out.txt".to_string()));
    assert_eq!(r.unwrap(), Some("/tmp/out.txt".to_string()));
}

#[test]
fn multiple_is_requested_only_explicitly() {
    assert!(multiple_requested(Some(true)));
    assert!(!multiple_requested(Some(false)));
    assert!(!multiple_requested(None));
}

#[test]
fn set_none_then_get_is_absent() {
    let mut s = Settings::new(Some(StoredValue::Text("http://old".to_string())));
    s.set_default_server_url(None);
    assert_eq!(s.get_default_server_url(), None);
}

#[test]
fn set_then_get_round_trips() {
    let mut s = Settings::new(None);
    s.set_default_server_url(Some("https://example.test".to_string()));
    assert_eq!(s.get_default_server_url(), Some("https://example.test".to_string()));
}

#[test]
fn sequential_sets_keep_only_the_last_value() {
    let mut s = Settings::new(None);
    s.set_default_server_url(Some("https://first".to_string()));
    s.set_default_server_url(Some("https://second".to_string()));
    s.set_default_server_url(Some("https://last".to_string()));
    assert_eq!(s.get_default_server_url(), Some("https://last".to_string()));
    s.set_default_server_url(None);
    s.set_default_server_url(Some("https://after-clear".to_string()));
    assert_eq!(s.get_default_server_url(), Some("https://after-clear".to_string()));
}

#[test]
fn non_string_stored_value_reads_as_absent() {
    let s = Settings::new(Some(StoredValue::Other));
    assert_eq!(s.get_default_server_url(), None);
}

#[test]
fn unset_key_reads_as_absent() {
    let s = Settings::new(None);
    assert_eq!(s.get_default_server_url(), None);
}

#[test]
fn store_layout_names_are_fixed() {
    assert_eq!(store_name(), "settings.json");
    assert_eq!(default_server_key(), "defaultServerUrl");
}

#[test]
fn os_call_failure_is_io_error() {
    match os_call_response(Err("denied".to_string())) {
        Err(ShimError::IoError(m)) => assert_eq!(m, "denied"),
        _ => panic!("expected an I/O error"),
    }
    assert!(os_call_response(Ok(())).is_ok());
}

#[test]
fn store_call_failure_is_store_error() {
    match store_call_response(Err("read-only file system".to_string())) {
        Err(ShimError::StoreError(m)) => assert_eq!(m, "read-only file system"),
        _ => panic!("expected a store error"),
    }
    assert!(store_call_response(Ok(())).is_ok());
}

#[test]
fn error_messages_are_surfaced_verbatim() {
    assert_eq!(ShimError::IoError("a".to_string()).message(), "a");
    assert_eq!(ShimError::UpdateCheckError("b".to_string()).message(), "b");
    assert_eq!(ShimError::InstallError("c".to_string()).message(), "c");
    assert_eq!(ShimError::StoreError("d".to_string()).message(), "d");
    assert_eq!(ShimError::NoUpdateAvailable.message(), "No update available");
}

#[test]
fn notification_keeps_title_and_body() {
    let n = notification_request("Hello".to_string(), Some("world".to_string()));
    assert_eq!(n.title, "Hello");
    assert_eq!(n.body, Some("world".to_string()));
    let n2 = notification_request("Hello".to_string(), None);
    assert_eq!(n2.body, None);
}
