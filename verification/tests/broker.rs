use flash_engine::auth::{
    auth_step, authorization_outcome, request_authorization, AuthEvent, AuthPhase, PromptOutcome,
};
use flash_engine::devices::BlockDevice;
use flash_engine::format::format_size;
use flash_engine::system::path_is_within;
use flash_engine::errors::EngineError;
use flash_engine::system::{find_binary, get_binary_search_paths, get_recommended_threads, Platform};

#[test]
fn deferred_consent_always_proceeds() {
    assert_eq!(request_authorization("/dev/sdb"), Ok(true));
    assert_eq!(
        authorization_outcome(Platform::Linux, PromptOutcome::Denied, false),
        Ok(true)
    );
}

#[test]
fn explicit_authorization_follows_the_operator() {
    assert_eq!(
        authorization_outcome(Platform::MacOs, PromptOutcome::Approved, false),
        Ok(true)
    );
    assert_eq!(
        authorization_outcome(Platform::MacOs, PromptOutcome::Denied, false),
        Ok(false)
    );
    assert_eq!(
        authorization_outcome(Platform::MacOs, PromptOutcome::Unavailable, false),
        Err(EngineError::AuthorizationUnavailable)
    );
}

#[test]
fn elevation_is_only_reported() {
    assert_eq!(
        authorization_outcome(Platform::Windows, PromptOutcome::Approved, false),
        Ok(false)
    );
    assert_eq!(
        authorization_outcome(Platform::Windows, PromptOutcome::Denied, true),
        Ok(true)
    );
}

#[test]
fn auth_phases_resolve_once() {
    let p = auth_step(AuthPhase::Idle, AuthEvent::PromptShown);
    assert_eq!(p, AuthPhase::Prompting);
    assert_eq!(auth_step(p, AuthEvent::OperatorDeclined), AuthPhase::Denied);
    assert_eq!(auth_step(p, AuthEvent::OperatorApproved), AuthPhase::Approved);
    assert_eq!(auth_step(p, AuthEvent::MechanismFailed), AuthPhase::Failed);
    // Resolved phases absorb further events.
    assert_eq!(
        auth_step(AuthPhase::Denied, AuthEvent::OperatorApproved),
        AuthPhase::Denied
    );
}

#[test]
fn search_paths_are_built_per_platform() {
    let linux = get_binary_search_paths(Platform::Linux, "xz");
    assert_eq!(linux, vec!["/usr/bin/xz", "/bin/xz", "/usr/local/bin/xz"]);
    let mac = get_binary_search_paths(Platform::MacOs, "xz");
    assert_eq!(
        mac,
        vec!["/opt/homebrew/bin/xz", "/usr/local/bin/xz", "/usr/bin/xz"]
    );
    let win = get_binary_search_paths(Platform::Windows, "xz");
    assert_eq!(
        win,
        vec![
            "C:\\Program Files\\xz\\xz.exe",
            "C:\\Program Files (x86)\\xz\\xz.exe"
        ]
    );
}

#[test]
fn find_binary_picks_the_first_hit() {
    let found = vec![false, true, true];
    assert_eq!(
        find_binary(Platform::Linux, "xz", &found),
        Some(String::from("/bin/xz"))
    );
    let none = vec![false, false, false];
    assert_eq!(find_binary(Platform::Linux, "xz", &none), None);
}

#[test]
fn test_get_recommended_threads() {
    let cores = 8;
    let threads = get_recommended_threads(cores);
    assert!(threads >= 1);
    assert!(threads <= cores);
    assert_eq!(get_recommended_threads(1), 1);
    assert_eq!(get_recommended_threads(2), 1);
    assert_eq!(get_recommended_threads(12), 6);
}

#[test]
fn path_containment_guards_deletion() {
    assert!(path_is_within("/home/u/.cache/app/images/a.img", "/home/u/.cache/app"));
    assert!(path_is_within("/home/u/.cache/app", "/home/u/.cache/app"));
    assert!(!path_is_within("/home/u/.cache/app-evil/a.img", "/home/u/.cache/app"));
    assert!(!path_is_within("/etc/passwd", "/home/u/.cache/app"));
    assert!(path_is_within("C:\\cache\\app\\a.img", "C:\\cache\\app"));
}

#[test]
fn system_disks_are_not_valid_targets() {
    let d = BlockDevice {
        path: String::from("\\\\.\\PhysicalDrive2"),
        name: String::from("Disk 2"),
        size: 31914983424,
        size_formatted: format_size(31914983424),
        model: String::from("SDHC Card"),
        is_removable: true,
        is_system: false,
    };
    assert!(d.is_valid_target());
    assert_eq!(d.size_formatted, "29.7 GB");
    let sys = BlockDevice { is_system: true, ..d };
    assert!(!sys.is_valid_target());
}
