use interprocess::layout::BUFFER_BYTE_OFFSET;
use interprocess::options::{default_memory_dir, QueueOptions, LINUX_SHM_MEMORY_DIR};

const MM_SUBDIR: &str = ".cloudtoid/interprocess/mmf";

#[test]
fn default_memory_dir_linux_matches_shm_path() {
    let tmp = "/tmp".to_string();
    assert_eq!(default_memory_dir(None, true, &tmp), LINUX_SHM_MEMORY_DIR.to_string());
}

#[test]
fn default_memory_dir_non_linux_unix_uses_temp_subdir() {
    let tmp = "/tmp".to_string();
    let d = default_memory_dir(None, false, &tmp);
    assert!(
        d.starts_with(&tmp) && d.contains(MM_SUBDIR),
        "expected path under temp containing {MM_SUBDIR}, got {d:?}"
    );
}

#[test]
fn default_memory_dir_windows_uses_temp_subdir() {
    let tmp = "/var/tmp".to_string();
    let d = default_memory_dir(None, false, &tmp);
    assert!(
        d.starts_with(&tmp) && d.contains(MM_SUBDIR),
        "expected path under temp containing {MM_SUBDIR}, got {d:?}"
    );
}

#[test]
fn queue_options_new_paths_default_memory_dir() {
    let dir = default_memory_dir(None, true, "/tmp");
    let o = QueueOptions::new("q", 4096, &dir).expect("valid");
    assert_eq!(o.path, dir);
}

#[test]
fn default_memory_dir_override_wins() {
    let d = default_memory_dir(Some("/custom/dir".to_string()), true, "/tmp");
    assert_eq!(d, "/custom/dir");
    let d = default_memory_dir(Some("/custom/dir".to_string()), false, "/tmp");
    assert_eq!(d, "/custom/dir");
}

#[test]
fn default_memory_dir_temp_layout() {
    assert_eq!(
        default_memory_dir(None, false, "/tmp"),
        "/tmp/.cloudtoid/interprocess/mmf"
    );
}

#[test]
fn capacity_at_lower_bound_is_rejected() {
    assert_eq!(
        QueueOptions::validate_capacity(17),
        Err("capacity must be greater than 17 (got 17)".to_string())
    );
    assert_eq!(
        QueueOptions::validate_capacity(16),
        Err("capacity must be greater than 17 (got 16)".to_string())
    );
}

#[test]
fn negative_capacity_is_rejected_with_its_sign() {
    assert_eq!(
        QueueOptions::validate_capacity(-4096),
        Err("capacity must be greater than 17 (got -4096)".to_string())
    );
    assert_eq!(
        QueueOptions::validate_capacity(i64::MIN),
        Err("capacity must be greater than 17 (got -9223372036854775808)".to_string())
    );
}

#[test]
fn unaligned_capacity_is_rejected() {
    assert_eq!(
        QueueOptions::validate_capacity(20),
        Err("capacity must be a multiple of 8 bytes (got 20)".to_string())
    );
    assert_eq!(
        QueueOptions::validate_capacity(i64::MAX),
        Err("capacity must be a multiple of 8 bytes (got 9223372036854775807)".to_string())
    );
}

#[test]
fn aligned_capacities_are_accepted() {
    assert_eq!(QueueOptions::validate_capacity(24), Ok(()));
    assert_eq!(QueueOptions::validate_capacity(4096), Ok(()));
}

#[test]
fn constructors_fill_the_fields() {
    let o = QueueOptions::with_path_and_destroy("events", "/run/q", 1024, true).expect("valid");
    assert_eq!(o.memory_view_name, "events");
    assert_eq!(o.path, "/run/q");
    assert_eq!(o.capacity, 1024);
    assert!(o.destroy_on_dispose);

    let o = QueueOptions::with_path("events", "/run/q", 1024).expect("valid");
    assert!(!o.destroy_on_dispose);
    assert_eq!(o.path, "/run/q");

    let o = QueueOptions::with_destroy("events", 1024, true, "/dev/shm/x").expect("valid");
    assert!(o.destroy_on_dispose);
    assert_eq!(o.path, "/dev/shm/x");

    let o = QueueOptions::new("events", 1024, "/dev/shm/x").expect("valid");
    assert!(!o.destroy_on_dispose);
    assert_eq!(o.memory_view_name, "events");
}

#[test]
fn constructors_reject_invalid_capacity() {
    let e = QueueOptions::with_path("events", "/run/q", 100).err().expect("invalid");
    assert_eq!(e, "capacity must be a multiple of 8 bytes (got 100)");
    let e = QueueOptions::new("events", 8, "/run/q").err().expect("invalid");
    assert_eq!(e, "capacity must be greater than 17 (got 8)");
    assert!(QueueOptions::with_destroy("events", 0, true, "/run/q").is_err());
    assert!(QueueOptions::with_path_and_destroy("events", "/run/q", 9, false).is_err());
}

#[test]
fn storage_size_adds_the_header() {
    let o = QueueOptions::with_path("q", "/tmp", 4096).expect("valid");
    assert_eq!(o.actual_storage_size(), 4096 + BUFFER_BYTE_OFFSET as i64);
    assert_eq!(o.actual_storage_size(), 4128);
}

#[test]
fn file_path_joins_directory_and_name() {
    let o = QueueOptions::with_path("renderer", "/dev/shm/q", 64).expect("valid");
    assert_eq!(o.file_path(), "/dev/shm/q/renderer.qu");
    let o = QueueOptions::with_path("renderer", "/dev/shm/q/", 64).expect("valid");
    assert_eq!(o.file_path(), "/dev/shm/q/renderer.qu");
}

#[test]
fn posix_semaphore_name_prefixes_the_queue_name() {
    let o = QueueOptions::with_path("renderer", "/dev/shm/q", 64).expect("valid");
    assert_eq!(o.posix_semaphore_name(), "/ct.ip.renderer");
}
