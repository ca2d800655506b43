use starrail_graphics::document::{
    encode_setting_json, parse_setting_json, trim_nul_bytes, update_graphics_setting, BlobError,
    EditError,
};
use starrail_graphics::setting::GraphicsSetting;

const STORED: &str = "{\"AAMode\":1,\"BloomQuality\":1,\"CharacterQuality\":3,\"EnableVSync\":true,\"FPS\":60,\"LightQuality\":3,\"ReflectionQuality\":3,\"RenderScale\":1.0,\"ResolutionQuality\":3,\"ShadowQuality\":3}";

fn stored_blob() -> Vec<u8> {
    let mut b = STORED.as_bytes().to_vec();
    b.push(0);
    b
}

fn stored_doc() -> serde_json::Value {
    parse_setting_json(true, &stored_blob()).unwrap()
}

#[test]
fn trims_nul_padding() {
    assert_eq!(trim_nul_bytes(&[0, 0, b'a', 0, b'b', 0, 0]), &[b'a', 0, b'b']);
    assert_eq!(trim_nul_bytes(&[b'x']), &[b'x']);
    assert!(trim_nul_bytes(&[0, 0, 0]).is_empty());
    assert!(trim_nul_bytes(&[]).is_empty());
}

#[test]
fn parses_stored_blob() {
    let doc = stored_doc();
    assert_eq!(doc.get("FPS").and_then(|v| v.as_u64()), Some(60));
    assert_eq!(doc.get("EnableVSync").and_then(|v| v.as_bool()), Some(true));
    assert_eq!(doc.get("AAMode").and_then(|v| v.as_u64()), Some(1));
}

#[test]
fn parses_blob_without_terminator() {
    let doc = parse_setting_json(true, STORED.as_bytes()).unwrap();
    assert_eq!(doc.get("BloomQuality").and_then(|v| v.as_u64()), Some(1));
}

#[test]
fn rejects_value_that_is_not_binary() {
    assert_eq!(parse_setting_json(false, &stored_blob()).err(), Some(BlobError::NotBinary));
}

#[test]
fn rejects_invalid_utf8() {
    assert_eq!(parse_setting_json(true, &[b'{', 0xff, b'}', 0]).err(), Some(BlobError::NotUtf8));
}

#[test]
fn rejects_text_that_is_not_json() {
    assert_eq!(parse_setting_json(true, b"{FPS:60}\0").err(), Some(BlobError::InvalidJson));
    assert_eq!(parse_setting_json(true, b"\0\0").err(), Some(BlobError::InvalidJson));
}

#[test]
fn encodes_with_nul_terminator() {
    let doc = parse_setting_json(true, b"{\"FPS\":60}\0").unwrap();
    assert_eq!(encode_setting_json(&doc), b"{\"FPS\":60}\0".to_vec());
}

#[test]
fn stored_blob_round_trips() {
    assert_eq!(encode_setting_json(&stored_doc()), stored_blob());
}

#[test]
fn updates_frame_rate() {
    let mut doc = stored_doc();
    let blob = update_graphics_setting(&mut doc, GraphicsSetting::Fps, "90").unwrap();
    assert_eq!(doc.get("FPS").and_then(|v| v.as_u64()), Some(90));
    assert_eq!(doc.get("AAMode").and_then(|v| v.as_u64()), Some(1));
    assert_eq!(blob, stored_blob_with("\"FPS\":60", "\"FPS\":90"));
}

#[test]
fn updates_vsync() {
    let mut doc = stored_doc();
    let blob = update_graphics_setting(&mut doc, GraphicsSetting::EnableVSync, "false").unwrap();
    assert_eq!(doc.get("EnableVSync").and_then(|v| v.as_bool()), Some(false));
    assert_eq!(blob, stored_blob_with("\"EnableVSync\":true", "\"EnableVSync\":false"));
}

#[test]
fn updates_render_scale() {
    let mut doc = stored_doc();
    let blob = update_graphics_setting(&mut doc, GraphicsSetting::RenderScale, "1.4").unwrap();
    assert_eq!(blob, stored_blob_with("\"RenderScale\":1.0", "\"RenderScale\":1.4"));
}

#[test]
fn updates_anti_aliasing() {
    let mut doc = stored_doc();
    let blob = update_graphics_setting(&mut doc, GraphicsSetting::AAMode, "FXAA").unwrap();
    assert_eq!(doc.get("AAMode").and_then(|v| v.as_u64()), Some(2));
    assert_eq!(blob, stored_blob_with("\"AAMode\":1", "\"AAMode\":2"));
}

#[test]
fn updates_quality_level() {
    let mut doc = stored_doc();
    update_graphics_setting(&mut doc, GraphicsSetting::ShadowQuality, "关").unwrap();
    assert_eq!(doc.get("ShadowQuality").and_then(|v| v.as_u64()), Some(0));
    update_graphics_setting(&mut doc, GraphicsSetting::BloomQuality, "非常高").unwrap();
    assert_eq!(doc.get("BloomQuality").and_then(|v| v.as_u64()), Some(5));
    assert_eq!(doc.get("LightQuality").and_then(|v| v.as_u64()), Some(3));
}

#[test]
fn missing_member_leaves_document() {
    let mut doc = parse_setting_json(true, b"{\"FPS\":60}\0").unwrap();
    let before = doc.clone();
    assert_eq!(
        update_graphics_setting(&mut doc, GraphicsSetting::AAMode, "TAA"),
        Err(EditError::MissingField)
    );
    assert_eq!(doc, before);
}

#[test]
fn document_that_is_not_an_object() {
    let mut doc = parse_setting_json(true, b"[1,2]\0").unwrap();
    assert_eq!(
        update_graphics_setting(&mut doc, GraphicsSetting::Fps, "60"),
        Err(EditError::MissingField)
    );
}

#[test]
fn rejected_entry_leaves_document() {
    let mut doc = stored_doc();
    let before = doc.clone();
    assert_eq!(
        update_graphics_setting(&mut doc, GraphicsSetting::Fps, "240"),
        Err(EditError::InvalidInput)
    );
    assert_eq!(
        update_graphics_setting(&mut doc, GraphicsSetting::CharacterQuality, "关"),
        Err(EditError::InvalidInput)
    );
    assert_eq!(doc, before);
}

fn stored_blob_with(from: &str, to: &str) -> Vec<u8> {
    let mut b = STORED.replace(from, to).into_bytes();
    b.push(0);
    b
}
