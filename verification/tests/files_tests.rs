use boardgame_tracker::backups::{
    backup_file_name, backup_path, human_size, is_safe_backup_filename, snapshot_path,
    sort_newest_first, text_less, BackupRow,
};
use boardgame_tracker::photos::{
    content_type_for, is_plain_photo_name, needs_resize, photo_dir, photo_path, photo_slot_free,
    photo_url, prepare_upload, profile_photo_path, upload_file_name, MAX_PHOTOS_PER_PLAY,
    PLAY_PHOTO_MAX_SIDE, PROFILE_PHOTO_MAX_SIDE,
};

#[test]
fn content_types_follow_the_extension_in_any_case() {
    assert_eq!(content_type_for("a.PNG"), "image/png");
    assert_eq!(content_type_for("b.gif"), "image/gif");
    assert_eq!(content_type_for("c.WebP"), "image/webp");
    assert_eq!(content_type_for("d.jpeg"), "image/jpeg");
    assert_eq!(content_type_for("no_extension"), "image/jpeg");
}

#[test]
fn photo_paths_and_urls() {
    assert_eq!(profile_photo_path(42), "data/profile_photos/42.jpg");
    assert_eq!(photo_dir(7), "data/photos/7");
    assert_eq!(photo_path(7, "x.jpg"), "data/photos/7/x.jpg");
    assert_eq!(photo_url(7, "data/photos/7/123_0.jpg"), "/photos/7/123_0.jpg");
    assert_eq!(photo_url(7, "plain.jpg"), "/photos/7/plain.jpg");
    assert_eq!(upload_file_name(1700000000123456789, 2), "1700000000123456789_2.jpg");
}

#[test]
fn photo_requests_must_stay_in_the_play_directory() {
    assert!(is_plain_photo_name("123_0.jpg"));
    assert!(!is_plain_photo_name("../secret"));
    assert!(!is_plain_photo_name("a/b.jpg"));
    assert!(!is_plain_photo_name("a\\b.jpg"));
    assert!(!is_plain_photo_name("x..jpg"));
}

#[test]
fn photo_limits() {
    assert_eq!(MAX_PHOTOS_PER_PLAY, 5);
    assert!(photo_slot_free(4));
    assert!(!photo_slot_free(5));
    assert!(needs_resize(1601, 10, PLAY_PHOTO_MAX_SIDE));
    assert!(!needs_resize(1600, 1600, PLAY_PHOTO_MAX_SIDE));
}

#[test]
fn sizes_are_shown_in_binary_units() {
    assert_eq!(human_size(0), "0 B");
    assert_eq!(human_size(1023), "1023 B");
    assert_eq!(human_size(1024), "1.0 KB");
    assert_eq!(human_size(1536), "1.5 KB");
    assert_eq!(human_size(1331), "1.3 KB");
    assert_eq!(human_size(999 * 1024 + 512), "999.5 KB");
    assert_eq!(human_size(1023 * 1024 + 512), "1023.5 KB");
    assert_eq!(human_size(10 * 1024 * 1024 + 52429), "10.1 MB");
    assert_eq!(human_size(1024 * 1024 * 1024 * 3 / 2), "1.5 GB");
    assert_eq!(human_size(u64::MAX), "17179869184.0 GB");
}

#[test]
fn size_ties_round_to_even() {
    assert_eq!(human_size(1280), "1.2 KB");
    assert_eq!(human_size(1792), "1.8 KB");
    assert_eq!(human_size(1024 * 1024 * 5 / 4), "1.2 MB");
}

#[test]
fn backup_names() {
    assert!(is_safe_backup_filename("backup-20240101-120000.zip"));
    assert!(!is_safe_backup_filename("backup-../x.zip"));
    assert!(!is_safe_backup_filename("tmp-1.db"));
    assert!(!is_safe_backup_filename("backup-a\\b.zip"));
    assert!(!is_safe_backup_filename("backup-1.tar"));
    let name = backup_file_name("20240101-120000");
    assert_eq!(name, "backup-20240101-120000.zip");
    assert!(is_safe_backup_filename(&name));
    assert_eq!(backup_path(&name), "data/backups/backup-20240101-120000.zip");
    assert_eq!(snapshot_path("20240101-120000"), "data/backups/tmp-20240101-120000.db");
}

#[test]
fn backups_are_listed_newest_first() {
    let row = |n: &str, s: &str| BackupRow {
        filename: n.to_string(),
        size_display: s.to_string(),
        created_display: String::new(),
    };
    let sorted = sort_newest_first(vec![
        row("backup-20240101-000000.zip", "a"),
        row("backup-20240301-000000.zip", "b"),
        row("backup-20240201-000000.zip", "c"),
        row("backup-20240301-000000.zip", "d"),
    ]);
    let order: Vec<&str> = sorted.iter().map(|r| r.size_display.as_str()).collect();
    assert_eq!(order, vec!["b", "d", "c", "a"]);
    assert!(text_less("abc", "abd"));
    assert!(text_less("ab", "abc"));
    assert!(!text_less("abc", "abc"));
    assert!(!text_less("b", "a"));
    assert!(text_less("Z", "a"));
}

fn png_of_size(width: u32, height: u32) -> Vec<u8> {
    let img = image::RgbImage::from_pixel(width, height, image::Rgb([200, 30, 30]));
    let mut out = std::io::Cursor::new(Vec::new());
    img.write_to(&mut out, image::ImageFormat::Png).unwrap();
    out.into_inner()
}

fn size_of_jpeg(bytes: &[u8]) -> (u32, u32) {
    assert_eq!(image::guess_format(bytes).unwrap(), image::ImageFormat::Jpeg);
    let img = image::load_from_memory(bytes).unwrap();
    (img.width(), img.height())
}

#[test]
fn uploads_are_stored_as_jpeg_and_scaled_to_fit() {
    let small = png_of_size(40, 30);
    let stored = prepare_upload(&small, PLAY_PHOTO_MAX_SIDE).unwrap();
    assert_ne!(stored, small);
    assert_eq!(size_of_jpeg(&stored), (40, 30));

    let wide = png_of_size(2000, 100);
    let stored = prepare_upload(&wide, PLAY_PHOTO_MAX_SIDE).unwrap();
    assert_eq!(size_of_jpeg(&stored), (1600, 80));

    let tall = png_of_size(100, 1000);
    let stored = prepare_upload(&tall, PROFILE_PHOTO_MAX_SIDE).unwrap();
    assert_eq!(size_of_jpeg(&stored), (80, 800));
}

#[test]
fn uploads_that_are_not_images_are_refused() {
    assert_eq!(prepare_upload(&vec![], PLAY_PHOTO_MAX_SIDE), None);
    assert_eq!(prepare_upload(&b"just some text".to_vec(), PLAY_PHOTO_MAX_SIDE), None);
}
