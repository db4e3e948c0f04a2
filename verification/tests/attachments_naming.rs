use grok_desktop::attachments::{
    attachment_kind, check_attachment_header, check_attachment_path, check_decoded_image,
    check_image_file, check_image_path, classify_attachment, decode_image_payload,
    extension_for_mime, image_file_name_for, image_import_ext, is_allowed_image_mime,
    is_dangerous_attachment_ext, looks_like_image, mime_for_attachment, mime_for_extension,
    new_attachment_name, new_image_name, new_import_name, parse_payload,
    sanitize_attachment_filename, sanitize_filename, unique_file_name,
    validate_managed_attachment,
};

const PNG: [u8; 8] = [0x89, b'P', b'N', b'G', 0x0d, 0x0a, 0x1a, 0x0a];

#[test]
fn classifies_common_media_and_blocks_executables() {
    assert_eq!(attachment_kind("png"), "image");
    assert_eq!(attachment_kind("mp4"), "video");
    assert_eq!(attachment_kind("mp3"), "audio");
    assert_eq!(attachment_kind("pdf"), "file");
    assert!(is_dangerous_attachment_ext("exe"));
    assert!(is_dangerous_attachment_ext("lnk"));
    assert!(!is_dangerous_attachment_ext("rs"));
}

#[test]
fn sanitizes_hostile_attachment_names() {
    assert_eq!(
        sanitize_attachment_filename("../../hello<>.txt"),
        "_.._hello__.txt"
    );
}

#[test]
fn attachment_names_fall_back_and_are_capped() {
    assert_eq!(sanitize_attachment_filename(" . "), "attachment");
    assert_eq!(sanitize_attachment_filename("plan (final).md"), "plan _final_.md");
    assert_eq!(sanitize_attachment_filename(&"a".repeat(200)).len(), 120);
}

#[test]
fn media_types_by_extension() {
    assert_eq!(mime_for_attachment("jpeg"), "image/jpeg");
    assert_eq!(mime_for_attachment("mkv"), "video/x-matroska");
    assert_eq!(mime_for_attachment("log"), "text/plain");
    assert_eq!(mime_for_attachment("bin"), "application/octet-stream");
    assert_eq!(mime_for_extension("jpg"), "image/jpeg");
    assert_eq!(mime_for_extension("tiff"), "application/octet-stream");
    assert_eq!(extension_for_mime("IMAGE/JPEG"), "jpg");
    assert_eq!(extension_for_mime("image/webp"), "webp");
    assert_eq!(extension_for_mime("text/plain"), "png");
    assert!(is_allowed_image_mime("Image/PNG"));
    assert!(!is_allowed_image_mime("image/svg+xml"));
}

#[test]
fn image_signatures() {
    assert!(looks_like_image(&PNG));
    assert!(looks_like_image(&[0xff, 0xd8, 0xff, 0xe0]));
    assert!(looks_like_image(b"GIF89a"));
    assert!(looks_like_image(b"BM\0\0"));
    assert!(looks_like_image(b"RIFF\0\0\0\0WEBP"));
    assert!(!looks_like_image(b"RIFF\0\0\0\0WAVE"));
    assert!(!looks_like_image(b"BM"));
    assert!(!looks_like_image(b"%PDF-1.7"));
}

#[test]
fn suggested_image_names_are_made_safe() {
    assert_eq!(sanitize_filename("../../evil.exe.png", "png"), "evil.png");
    assert_eq!(sanitize_filename("...", "jpg"), "image.jpg");
    assert_eq!(sanitize_filename("my photo!.jpeg", "jpg"), "my_photo_.jpg");
    assert_eq!(sanitize_filename(&"x".repeat(100), "png").len(), 84);
}

#[test]
fn pasted_image_names() {
    let id = "019f5829-8992-7622-8c5d-72e56c32e489";
    assert_eq!(image_file_name_for(None, "png", "20260101_101010", id), "img_20260101_101010_019f5829.png");
    assert_eq!(image_file_name_for(Some("  ".into()), "png", "s", id), "img_s_019f5829.png");
    assert_eq!(image_file_name_for(Some("shot.png".into()), "gif", "s", id), "shot.gif");
    let (fresh, name) = new_image_name(None, "png", "s");
    assert_eq!(fresh.len(), 36);
    assert_eq!(name, format!("img_s_{}.png", &fresh[..8]));
    let (fresh, name) = new_import_name("bmp", "t");
    assert_eq!(name, format!("img_t_{}.bmp", &fresh[..8]));
    let (fresh, safe, name) = new_attachment_name(Some("a b?.md"), "t");
    assert_eq!(safe, "a b_.md");
    assert_eq!(name, format!("file_t_{}_a b_.md", &fresh[..8]));
    let (_, safe, _) = new_attachment_name(None, "t");
    assert_eq!(safe, "attachment");
}

#[test]
fn payloads_are_parsed() {
    let (mime, text) = parse_payload(" data:image/gif;base64,R0lG ", None).expect("data URL");
    assert_eq!(mime, "image/gif");
    assert_eq!(text, "R0lG");
    let (mime, _) = parse_payload("data:;base64,AA", None).expect("data URL");
    assert_eq!(mime, "image/png");
    assert_eq!(parse_payload("data:image/png", None).err().as_deref(), Some("Malformed data URL"));
    assert_eq!(
        parse_payload("data:image/png,AAAA", None).err().as_deref(),
        Some("Only base64 data URLs are supported")
    );
    let (mime, text) = parse_payload(" AAAA ", Some("image/webp".into())).expect("raw");
    assert_eq!(mime, "image/webp");
    assert_eq!(text, "AAAA");
}

#[test]
fn pasted_images_are_decoded_and_checked() {
    // A PNG signature, base64-encoded.
    let (mime, bytes) = decode_image_payload("data:image/png;base64,iVBORw0KGgo=", None).expect("png");
    assert_eq!(mime, "image/png");
    assert_eq!(bytes, PNG.to_vec());
    assert_eq!(
        decode_image_payload("data:text/plain;base64,aGk=", None).err().as_deref(),
        Some("Unsupported image type: text/plain")
    );
    assert!(decode_image_payload("data:image/png;base64,!!!", None)
        .err()
        .unwrap()
        .starts_with("Invalid base64 image data: "));
    assert_eq!(
        decode_image_payload("data:image/png;base64,", None).err().as_deref(),
        Some("Empty image payload")
    );
    assert_eq!(
        decode_image_payload("aGVsbG8=", None).err().as_deref(),
        Some("Payload does not look like a supported image")
    );
    assert_eq!(
        check_decoded_image("image/png".into(), Err("bad".into())).err().as_deref(),
        Some("Invalid base64 image data: bad")
    );
}

#[test]
fn chosen_files_are_checked() {
    assert!(check_attachment_path("/tmp/a.md").is_ok());
    assert_eq!(check_attachment_path("  ").err().as_deref(), Some("Invalid attachment path"));
    assert!(check_attachment_path("a\0b").is_err());
    assert!(check_attachment_path(&"a".repeat(4097)).is_err());
    assert_eq!(check_image_path("").err().as_deref(), Some("Invalid image path"));
    assert_eq!(image_import_ext("PNG").as_deref(), Ok("png"));
    assert_eq!(
        image_import_ext("svg").err().as_deref(),
        Some("Unsupported image extension '.svg' (allowed: png, jpg, jpeg, gif, webp, bmp)")
    );
    assert_eq!(check_image_file(20 * 1024 * 1024 + 1, &PNG).err().as_deref(), Some("Image exceeds 20 MB limit"));
    assert_eq!(
        check_image_file(10, b"text").err().as_deref(),
        Some("File does not look like a supported image")
    );
    assert!(check_image_file(10, &PNG).is_ok());
    assert_eq!(classify_attachment(0, "md").err().as_deref(), Some("Attachment is empty"));
    assert_eq!(
        classify_attachment(200 * 1024 * 1024 + 1, "md").err().as_deref(),
        Some("Attachment exceeds the 200 MB limit")
    );
    assert_eq!(
        classify_attachment(5, "EXE").err().as_deref(),
        Some("Executable attachment '.exe' is not allowed")
    );
    let (ext, kind) = classify_attachment(5, "PNG").expect("image");
    assert_eq!((ext.as_str(), kind), ("png", "image"));
    assert!(check_attachment_header("image", &PNG).is_ok());
    assert!(check_attachment_header("image", b"text").is_err());
    assert!(check_attachment_header("file", b"text").is_ok());
}

#[test]
fn managed_attachments_stay_inside_the_folder() {
    let root = vec!["/".to_string(), "data".to_string(), "temp_images".to_string()];
    let inside = vec!["/".to_string(), "data".to_string(), "temp_images".to_string(), "a.png".to_string()];
    let outside = vec!["/".to_string(), "data".to_string(), "secrets".to_string()];
    assert!(validate_managed_attachment("/data/temp_images/a.png", &root, &inside, true).is_ok());
    assert_eq!(
        validate_managed_attachment("/data/secrets", &root, &outside, true).err().as_deref(),
        Some("Attachment is not a managed file")
    );
    assert!(validate_managed_attachment("/data/temp_images/a.png", &root, &inside, false).is_err());
    assert_eq!(
        validate_managed_attachment("", &root, &inside, true).err().as_deref(),
        Some("Invalid attachment path")
    );
}

#[test]
fn unique_names_skip_taken_ones() {
    let taken = ["img.png", "img_1.png"];
    let name = unique_file_name("img.png", |n: &String| taken.contains(&n.as_str())).expect("free");
    assert_eq!(name, "img_2.png");
    assert_eq!(unique_file_name("notes", |_n: &String| false).as_deref(), Ok("notes"));
    assert_eq!(
        unique_file_name("notes", |n: &String| n == "notes").as_deref(),
        Ok("notes_1.png")
    );
    assert_eq!(
        unique_file_name("a.b", |_n: &String| true).err().as_deref(),
        Some("Could not allocate unique image filename")
    );
}
