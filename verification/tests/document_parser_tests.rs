use uicontrol::document_parser::{
    chat_completions_url, decode_image_base64, detect_mime_type, encode_image_base64, image_data_url,
    vision_reply_content,
};
use uicontrol::json::JsonValue;

fn obj(fields: Vec<(&str, JsonValue)>) -> JsonValue {
    JsonValue::Object(fields.into_iter().map(|(k, v)| (k.to_string(), v)).collect())
}

#[test]
fn mime_type_follows_the_extension() {
    assert_eq!(detect_mime_type("a/b.PNG"), "image/png");
    assert_eq!(detect_mime_type("photo.jpeg"), "image/jpeg");
    assert_eq!(detect_mime_type("photo.JPG"), "image/jpeg");
    assert_eq!(detect_mime_type("anim.gif"), "image/gif");
    assert_eq!(detect_mime_type("x.webp"), "image/webp");
    assert_eq!(detect_mime_type("noext"), "image/png");
    assert_eq!(detect_mime_type(".hidden"), "image/png");
    assert_eq!(detect_mime_type("scan.tiff"), "image/png");
}

#[test]
fn base64_uses_the_standard_padded_alphabet() {
    assert_eq!(encode_image_base64(b"hello"), "aGVsbG8=");
    assert_eq!(encode_image_base64(b""), "");
    assert_eq!(encode_image_base64(&[0xfb, 0xff]), "+/8=");
    assert_eq!(encode_image_base64(b"abc"), "YWJj");
}

#[test]
fn endpoint_drops_trailing_slashes() {
    assert_eq!(chat_completions_url("https://x/v1//"), "https://x/v1/chat/completions");
    assert_eq!(chat_completions_url("https://x/v1"), "https://x/v1/chat/completions");
}

#[test]
fn data_url_names_mime_and_encoding() {
    assert_eq!(image_data_url("image/gif", "R0lG"), "data:image/gif;base64,R0lG");
}

#[test]
fn reply_text_is_the_first_choice_content() {
    let body = obj(vec![(
        "choices",
        JsonValue::Array(vec![obj(vec![("message", obj(vec![("content", JsonValue::String("# 标题".to_string()))]))])]),
    )]);
    assert_eq!(vision_reply_content(&body).as_deref(), Some("# 标题"));
    let empty = obj(vec![("choices", JsonValue::Array(Vec::new()))]);
    assert_eq!(vision_reply_content(&empty), None);
    let null = obj(vec![(
        "choices",
        JsonValue::Array(vec![obj(vec![("message", obj(vec![("content", JsonValue::Null)]))])]),
    )]);
    assert_eq!(vision_reply_content(&null), None);
}

#[test]
fn base64_decoding_undoes_encoding_and_rejects_the_rest() {
    assert_eq!(decode_image_base64("aGk="), Some(b"hi".to_vec()));
    assert_eq!(decode_image_base64(""), Some(Vec::new()));
    let bytes = vec![0u8, 255, 16, 32, 7];
    assert_eq!(decode_image_base64(&encode_image_base64(&bytes)), Some(bytes));
    assert_eq!(decode_image_base64("aGk"), None);
    assert_eq!(decode_image_base64("a*k="), None);
    assert_eq!(decode_image_base64("aGl="), None);
}
