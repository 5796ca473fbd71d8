use rust_ray::{Ray, RayError, RayMeta};

#[derive(Debug, Clone)]
struct TestStruct {
    name: String,
    age: i32,
}

#[test]
fn test_ray_macro_no_args() {
    let ray = Ray::new();
    assert_eq!(ray.request.payloads.len(), 0);
}

#[test]
fn test_ray_macro_with_one_arg() {
    let mut ray = Ray::new();
    let mut vec = Vec::new();
    vec.push(format!("{:#?}", "Hello, Ray Macro"));
    ray.log(vec);
    assert_eq!(ray.request.payloads.len(), 1);
}

#[test]
fn test_ray_macro_with_multiple_args() {
    let mut ray = Ray::new();
    let mut vec = Vec::new();
    vec.push(format!("{:#?}", "Hello"));
    vec.push(format!("{:#?}", "Ray Macro"));
    ray.log(vec);
    assert_eq!(ray.request.payloads.len(), 1);
}

#[test]
fn test_ray_macro_with_struct() {
    let test_struct = TestStruct {
        name: "John".to_string(),
        age: 30,
    };

    let mut ray = Ray::new();
    let mut vec = Vec::new();
    vec.push(format!("{:#?}", test_struct));
    ray.log(vec);
    assert_eq!(ray.request.payloads.len(), 1);
    assert!(ray.request.payloads.len() == 1 && test_struct.age == 30 && test_struct.name == "John");
}

#[test]
fn test_ray_log_function() {
    let mut ray = Ray::new();
    ray.log(vec!["Hello, Log!".to_string()]);
    assert_eq!(ray.request.payloads.len(), 1);
}

#[test]
fn test_ray_text_function() {
    let mut ray = Ray::new();
    ray.text("Hello, Text!");
    assert_eq!(ray.request.payloads.len(), 1);
}

#[test]
fn test_ray_color_function() {
    let mut ray = Ray::new();
    ray.text("Hello, Color");
    ray.color("green");
    assert_eq!(ray.request.payloads.len(), 2);
}

#[test]
fn test_ray_html_function() {
    let mut ray = Ray::new();
    ray.html("<strong>Hello, HTML!</strong>");
    assert_eq!(ray.request.payloads.len(), 1);
}

#[test]
fn test_ray_clear_all_function() {
    let mut ray = Ray::new();
    ray.clear_all();
    assert_eq!(ray.request.payloads.len(), 1);
}

#[test]
fn test_ray_confetti_function() {
    let mut ray = Ray::new();
    ray.confetti();
    assert_eq!(ray.request.payloads.len(), 1);
}

#[test]
fn test_ray_charles_function() {
    let mut ray = Ray::new();
    ray.charles();
    assert_eq!(ray.request.payloads.len(), 1);
}

#[test]
fn test_ray_new_screen_function() {
    let mut ray = Ray::new();
    ray.new_screen(None);
    assert_eq!(ray.request.payloads.len(), 1);
}

#[test]
fn test_ray_new_screen_with_name_function() {
    let mut ray = Ray::new();
    ray.new_screen(Some("Hello, New Screen!"));
    assert_eq!(ray.request.payloads.len(), 1);
}

#[test]
fn test_ray_disable() {
    let mut ray = Ray::new();
    ray.disable();
    assert_eq!(ray.disabled(), true);
    assert_eq!(ray.enabled(), false);
}

#[test]
fn test_ray_enabled() {
    let mut ray = Ray::new();
    ray.enable();
    assert_eq!(ray.enabled(), true);
    assert_eq!(ray.disabled(), false);
}

#[test]
fn entries_grow_one_per_emitting_call() {
    let mut ray = Ray::new();
    ray.text("one");
    ray.disable();
    ray.color("red");
    ray.enable();
    ray.html("<i>three</i>");
    ray.confetti();
    assert_eq!(ray.request.payloads.len(), 4);
}

#[test]
fn disabled_session_accumulates_but_does_not_dispatch() {
    let mut ray = Ray::new();
    ray.disable();
    let sent = ray.log(vec!["quiet".to_string()]);
    assert!(sent.is_none());
    assert_eq!(ray.request.payloads.len(), 1);
}

#[test]
fn enabled_session_dispatches_whole_request() {
    let mut ray = Ray::new();
    let first = ray.text("A").expect("enabled session must dispatch");
    let second = ray.text("B").expect("enabled session must dispatch");
    assert!(first.contains("\"content\":\"A\""));
    assert!(second.contains("\"content\":\"A\""));
    assert!(second.contains("\"content\":\"B\""));
    assert!(!first.contains("\"content\":\"B\""));
}

#[test]
fn reenabled_session_dispatches_again() {
    let mut ray = Ray::new();
    ray.disable();
    assert!(ray.text("quiet").is_none());
    ray.enable();
    assert!(ray.text("loud").is_some());
}

#[test]
fn sessions_get_distinct_identifiers() {
    let a = Ray::new();
    let b = Ray::new();
    assert_eq!(a.request.uuid.len(), 36);
    assert_eq!(b.request.uuid.len(), 36);
    assert_ne!(a.request.uuid, b.request.uuid);
}

#[test]
fn scenario_text_color_html_kinds() {
    let mut ray = Ray::new();
    ray.text("A");
    ray.color("green");
    ray.html("<b>B</b>");
    assert_eq!(ray.request.payloads.len(), 3);
    assert_eq!(ray.request.payloads[0].content_type, "custom");
    assert_eq!(ray.request.payloads[1].content_type, "color");
    assert_eq!(ray.request.payloads[2].content_type, "custom");
}

#[test]
fn metadata_carries_source_answer_or_placeholder() {
    let answered = RayMeta::of_runtime(Some("rustc 1.75.0".to_string()));
    assert_eq!(answered.rustc_version, "rustc 1.75.0");
    assert_eq!(answered.package_version, "0.1.0");

    let unanswered = RayMeta::of_runtime(None);
    assert_eq!(unanswered.rustc_version, "🤷");
    assert_eq!(unanswered.package_version, "0.1.0");
}

#[test]
fn reserved_surface_reports_unsupported() {
    let mut ray = Ray::new();
    assert_eq!(ray.count("calls"), Err(RayError::UnsupportedOperation));
    assert_eq!(ray.counter_value(), Err(RayError::UnsupportedOperation));
    assert_eq!(ray.json(), Err(RayError::UnsupportedOperation));
    assert_eq!(ray.table(), Err(RayError::UnsupportedOperation));
    assert_eq!(ray.conceal(), Err(RayError::UnsupportedOperation));
    assert_eq!(ray.only_if(), Err(RayError::UnsupportedOperation));
    assert_eq!(ray.request.payloads.len(), 0);
    assert!(ray.enabled());
}
