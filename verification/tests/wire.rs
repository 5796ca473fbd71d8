use rust_ray::json::serialize_request;
use rust_ray::message::{
    RayCharles, RayClearAll, RayColor, RayColors, RayConfetti, RayContentType, RayHtml, RayLog,
    RayMessage, RayMessageType, RayNewScreen, RayText,
};
use rust_ray::{Ray, RayContent, RayMeta, RayOrigin, RayPayload, default_endpoint};

fn fixed_request(payloads: Vec<RayContent>) -> RayPayload {
    RayPayload {
        uuid: "abc".to_string(),
        payloads,
        meta: RayMeta {
            rustc_version: "rustc 1.75.0".to_string(),
            package_version: "0.1.0".to_string(),
        },
    }
}

fn entry(content_type: String, content: RayMessage) -> RayContent {
    RayContent {
        content_type,
        content,
        origin: RayOrigin::new(),
    }
}

const ORIGIN_JSON: &str =
    "{\"function_name\":\"ray\",\"file\":\"\",\"line_number\":0,\"hostname\":\"localhost\"}";

#[test]
fn serializes_empty_request_exactly() {
    let request = fixed_request(vec![]);
    assert_eq!(
        serialize_request(&request),
        "{\"uuid\":\"abc\",\"payloads\":[],\"meta\":{\"rustc_version\":\"rustc 1.75.0\",\"package_version\":\"0.1.0\"}}"
    );
}

#[test]
fn serializes_text_entry_exactly() {
    let message = RayMessage::Text(RayText {
        label: RayMessageType::Text,
        content: "hi".to_string(),
    });
    let request = fixed_request(vec![entry(RayText::get_type(), message)]);
    let expected = format!(
        "{{\"uuid\":\"abc\",\"payloads\":[{{\"type\":\"custom\",\"content\":{{\"label\":\"Text\",\"content\":\"hi\"}},\"origin\":{}}}],\"meta\":{{\"rustc_version\":\"rustc 1.75.0\",\"package_version\":\"0.1.0\"}}}}",
        ORIGIN_JSON
    );
    assert_eq!(serialize_request(&request), expected);
}

#[test]
fn serializes_log_values_in_order() {
    let message = RayMessage::Log(RayLog {
        label: RayMessageType::Log,
        values: vec!["x".to_string(), "y".to_string(), "z".to_string()],
    });
    let request = fixed_request(vec![entry(RayLog::get_type(), message)]);
    let body = serialize_request(&request);
    assert!(body.contains("{\"label\":\"Log\",\"values\":[\"x\",\"y\",\"z\"]}"));
    assert!(body.contains("\"type\":\"log\""));
}

#[test]
fn serializes_color_entry_as_its_carried_name() {
    let message = RayMessage::Color(RayColor {
        color: RayColors::from("GREEN".to_string()),
    });
    let request = fixed_request(vec![entry(RayColor::get_type(), message)]);
    let body = serialize_request(&request);
    assert!(body.contains("\"type\":\"color\""));
    assert!(body.contains("{\"color\":\"green\"}"));
}

#[test]
fn serializes_tag_only_payloads() {
    let clear = RayMessage::ClearAll(RayClearAll {
        label: RayMessageType::ClearAll,
    });
    let confetti = RayMessage::Confetti(RayConfetti {
        label: RayMessageType::Confetti,
    });
    let request = fixed_request(vec![
        entry(RayClearAll::get_type(), clear),
        entry(RayConfetti::get_type(), confetti),
    ]);
    let body = serialize_request(&request);
    assert!(body.contains("{\"type\":\"clear_all\",\"content\":{\"label\":\"ClearAll\"}"));
    assert!(body.contains("{\"type\":\"confetti\",\"content\":{\"label\":\"Confetti\"}"));
}

#[test]
fn serializes_new_screen_name() {
    let message = RayMessage::NewScreen(RayNewScreen {
        label: RayMessageType::NewScreen,
        name: "board".to_string(),
    });
    let request = fixed_request(vec![entry(RayNewScreen::get_type(), message)]);
    let body = serialize_request(&request);
    assert!(body.contains("{\"type\":\"new_screen\",\"content\":{\"label\":\"NewScreen\",\"name\":\"board\"}"));
}

#[test]
fn escapes_quotes_backslashes_and_control_characters() {
    let message = RayMessage::Text(RayText {
        label: RayMessageType::Text,
        content: "a\"b\\c\nd\te".to_string(),
    });
    let request = fixed_request(vec![entry(RayText::get_type(), message)]);
    let body = serialize_request(&request);
    assert!(body.contains("\"content\":\"a\\\"b\\\\c\\u000ad\\u0009e\""));
}

#[test]
fn passes_unicode_through_unescaped() {
    let message = RayMessage::Charles(RayCharles {
        content: "🎶 🎹 🎷 🕺".to_string(),
    });
    let request = fixed_request(vec![entry(RayCharles::get_type(), message)]);
    let body = serialize_request(&request);
    assert!(body.contains("{\"content\":\"🎶 🎹 🎷 🕺\"}"));
}

#[test]
fn writes_line_numbers_in_decimal() {
    let message = RayMessage::Text(RayText {
        label: RayMessageType::Text,
        content: "hi".to_string(),
    });
    let mut content = entry(RayText::get_type(), message);
    content.origin.line_number = 1207;
    let request = fixed_request(vec![content]);
    let body = serialize_request(&request);
    assert!(body.contains("\"line_number\":1207"));
}

#[test]
fn clear_screen_entry_equals_new_screen_without_name() {
    let mut a = Ray::new();
    a.clear_screen();
    let mut b = Ray::new();
    b.new_screen(None);
    assert_eq!(a.request.payloads.len(), 1);
    assert_eq!(b.request.payloads.len(), 1);

    a.request.uuid = "same".to_string();
    b.request.uuid = "same".to_string();
    let meta = RayMeta {
        rustc_version: "r".to_string(),
        package_version: "p".to_string(),
    };
    a.request.meta = meta.clone();
    b.request.meta = meta;
    assert_eq!(serialize_request(&a.request), serialize_request(&b.request));
}

#[test]
fn dispatch_body_matches_serialized_request() {
    let mut ray = Ray::new();
    let body = ray.text("A").expect("enabled session must dispatch");
    assert_eq!(body, serialize_request(&ray.request));
}

#[test]
fn wire_kind_strings() {
    assert_eq!(RayLog::get_type(), "log");
    assert_eq!(RayText::get_type(), "custom");
    assert_eq!(RayHtml::get_type(), "custom");
    assert_eq!(RayCharles::get_type(), "custom");
    assert_eq!(RayColor::get_type(), "color");
    assert_eq!(RayClearAll::get_type(), "clear_all");
    assert_eq!(RayConfetti::get_type(), "confetti");
    assert_eq!(RayNewScreen::get_type(), "new_screen");
    assert_eq!(RayContentType::Log.to_string(), "log");
    assert_eq!(RayContentType::Custom.to_string(), "custom");
    assert_eq!(RayContentType::Color.to_string(), "color");
    assert_eq!(RayContentType::ClearAll.to_string(), "clear_all");
    assert_eq!(RayContentType::Confetti.to_string(), "confetti");
    assert_eq!(RayContentType::NewScreen.to_string(), "new_screen");
}

#[test]
fn default_endpoint_is_the_local_inspector() {
    assert_eq!(default_endpoint(), "http://localhost:23517");
}
