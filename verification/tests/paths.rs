use homogrape::utils::{get_download_dir, get_media_path, get_profile_photo_path_and_count};

#[test]
fn download_dir_holds_the_chat_id() {
    assert_eq!(get_download_dir(42), "/data/storage/el2/base/downloads//42/");
    assert_eq!(get_download_dir(-7), "/data/storage/el2/base/downloads//-7/");
    assert_eq!(get_download_dir(0), "/data/storage/el2/base/downloads//0/");
}

#[test]
fn download_dir_of_extreme_chat_ids() {
    assert_eq!(
        get_download_dir(i64::MIN),
        format!("/data/storage/el2/base/downloads//{}/", i64::MIN)
    );
    assert_eq!(
        get_download_dir(i64::MAX),
        format!("/data/storage/el2/base/downloads//{}/", i64::MAX)
    );
}

#[test]
fn media_path_holds_chat_and_message_id() {
    assert_eq!(
        get_media_path(100, 5),
        "/data/storage/el2/base/downloads//100/5.jpg"
    );
    assert_eq!(
        get_media_path(-100, -5),
        "/data/storage/el2/base/downloads//-100/-5.jpg"
    );
}

#[test]
fn profile_photo_path_of_empty_directory() {
    let path = get_profile_photo_path_and_count(9, 0);
    assert_eq!(path.dir, "/data/storage/el2/base/downloads//9/profile_photos/");
    assert_eq!(path.current, None);
    assert_eq!(
        path.next,
        "/data/storage/el2/base/downloads//9/profile_photos/1.jpg"
    );
    assert_eq!(path.count, 0);
}

#[test]
fn profile_photo_path_counts_on() {
    let path = get_profile_photo_path_and_count(9, 12);
    assert_eq!(
        path.current.as_deref(),
        Some("/data/storage/el2/base/downloads//9/profile_photos/12.jpg")
    );
    assert_eq!(
        path.next,
        "/data/storage/el2/base/downloads//9/profile_photos/13.jpg"
    );
    assert_eq!(path.count, 12);
}
