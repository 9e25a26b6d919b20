use context_menu::util::{
    from_base64, image_source, metadata_plan, to_base64, ImageSource, MetadataPlan, OutputFormat,
    RotateArgs, RotatePlan, ToBufferArgs,
};

#[test]
fn base64_encodes_with_padding() {
    assert_eq!(to_base64(b""), "");
    assert_eq!(to_base64(b"hello"), "aGVsbG8=");
    assert_eq!(to_base64(b"hello world~"), "aGVsbG8gd29ybGR+");
    assert_eq!(to_base64(&[0xff, 0xfe]), "//4=");
}

#[test]
fn base64_decodes_what_it_encoded() {
    assert_eq!(from_base64("aGVsbG8="), Some(b"hello".to_vec()));
    assert_eq!(from_base64("aGVsbG8gd29ybGR+Cg=="), Some(b"hello world~\n".to_vec()));
    let bytes: Vec<u8> = (0..=255).collect();
    assert_eq!(from_base64(&to_base64(&bytes)), Some(bytes));
}

#[test]
fn base64_refuses_malformed_text() {
    assert_eq!(from_base64("aGVsbG8"), None);
    assert_eq!(from_base64("not base64!"), None);
}

#[test]
fn image_source_prefers_the_file() {
    let src = image_source(Some("a.png".to_string()), Some("aGVsbG8=".to_string()));
    assert!(matches!(src, Some(ImageSource::File(p)) if p == "a.png"));
    let src = image_source(None, Some("aGVsbG8=".to_string()));
    assert!(matches!(src, Some(ImageSource::Buffer(b)) if b == b"hello"));
    assert!(image_source(None, Some("***".to_string())).is_none());
    assert!(image_source(None, None).is_none());
}

#[test]
fn jpeg_is_rotated_by_its_orientation_tag() {
    let args = RotateArgs { file_path: "a.jpg".to_string(), orientation: 6, degree: 90 };
    assert_eq!(args.plan(&"jpg".to_string()), RotatePlan::SetOrientation(6));
    assert_eq!(args.plan(&"jpeg".to_string()), RotatePlan::SetOrientation(6));
    assert_eq!(args.plan(&"png".to_string()), RotatePlan::Turn(90));
    assert_eq!(args.plan(&"JPG".to_string()), RotatePlan::Turn(90));
}

#[test]
fn output_format_defaults_to_jpeg() {
    let args = |format: &str| ToBufferArgs { file_path: "a".to_string(), format: format.to_string() };
    assert_eq!(args("png").output_format(), OutputFormat::Png);
    assert_eq!(args("jpeg").output_format(), OutputFormat::Jpeg);
    assert_eq!(args("webp").output_format(), OutputFormat::Jpeg);
}

#[test]
fn icons_are_told_by_their_extension() {
    assert_eq!(metadata_plan(None), MetadataPlan::Nothing);
    assert_eq!(metadata_plan(Some("ico")), MetadataPlan::Icon);
    assert_eq!(metadata_plan(Some("ICO")), MetadataPlan::Icon);
    assert_eq!(metadata_plan(Some("xIcO")), MetadataPlan::Icon);
    assert_eq!(metadata_plan(Some("png")), MetadataPlan::Image);
    assert_eq!(metadata_plan(Some("co")), MetadataPlan::Image);
    assert_eq!(metadata_plan(Some("icon")), MetadataPlan::Image);
    assert_eq!(metadata_plan(Some("")), MetadataPlan::Image);
}
