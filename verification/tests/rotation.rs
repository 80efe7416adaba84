use tauri_log_plugin::{
    archive_file_in, decide_rotation, log_file_in, FileStatus, Rotation, RotationStrategy,
};

#[test]
fn missing_file_is_kept() {
    assert_eq!(decide_rotation(RotationStrategy::KeepAll, 40000, FileStatus::Missing), Rotation::Keep);
    assert_eq!(decide_rotation(RotationStrategy::KeepOne, 40000, FileStatus::Missing), Rotation::Keep);
    assert_eq!(decide_rotation(RotationStrategy::KeepOne, 0, FileStatus::Missing), Rotation::Keep);
}

#[test]
fn file_up_to_the_threshold_is_kept() {
    for strategy in vec![RotationStrategy::KeepAll, RotationStrategy::KeepOne] {
        assert_eq!(decide_rotation(strategy, 40000, FileStatus::Present(0)), Rotation::Keep);
        assert_eq!(decide_rotation(strategy, 40000, FileStatus::Present(39999)), Rotation::Keep);
        assert_eq!(decide_rotation(strategy, 40000, FileStatus::Present(40000)), Rotation::Keep);
        assert_eq!(decide_rotation(strategy, 0, FileStatus::Present(0)), Rotation::Keep);
        assert_eq!(
            decide_rotation(strategy, u128::MAX, FileStatus::Present(u64::MAX)),
            Rotation::Keep
        );
    }
}

#[test]
fn file_beyond_the_threshold_is_archived_under_keep_all() {
    assert_eq!(
        decide_rotation(RotationStrategy::KeepAll, 40000, FileStatus::Present(40001)),
        Rotation::Archive
    );
    assert_eq!(
        decide_rotation(RotationStrategy::KeepAll, 40000, FileStatus::Present(50000)),
        Rotation::Archive
    );
    assert_eq!(
        decide_rotation(RotationStrategy::KeepAll, 0, FileStatus::Present(1)),
        Rotation::Archive
    );
}

#[test]
fn file_beyond_the_threshold_is_removed_under_keep_one() {
    assert_eq!(
        decide_rotation(RotationStrategy::KeepOne, 40000, FileStatus::Present(40001)),
        Rotation::Remove
    );
    assert_eq!(
        decide_rotation(RotationStrategy::KeepOne, 2_000_000, FileStatus::Present(u64::MAX)),
        Rotation::Remove
    );
}

#[test]
fn log_file_is_app_log_in_the_directory() {
    assert_eq!(log_file_in("/var/cache/app"), "/var/cache/app/app.log");
    assert_eq!(log_file_in("logs"), "logs/app.log");
    assert_eq!(log_file_in("."), "./app.log");
}

#[test]
fn archive_holds_the_date() {
    assert_eq!(archive_file_in("/var/cache/app", "2024-02-29"), "/var/cache/app/app-2024-02-29.log");
    assert_eq!(archive_file_in("logs", "1999-12-31"), "logs/app-1999-12-31.log");
}

#[test]
fn archive_differs_from_the_log_file() {
    assert_ne!(archive_file_in("logs", ""), log_file_in("logs"));
    assert_ne!(archive_file_in("logs", "2024-02-29"), log_file_in("logs"));
}
