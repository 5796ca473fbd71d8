use rust_ray::message::RayColors;

#[test]
fn resolves_each_canonical_name() {
    assert!(matches!(RayColors::from("green".to_string()), RayColors::Green(s) if s == "green"));
    assert!(matches!(RayColors::from("orange".to_string()), RayColors::Orange(s) if s == "orange"));
    assert!(matches!(RayColors::from("red".to_string()), RayColors::Red(s) if s == "red"));
    assert!(matches!(RayColors::from("purple".to_string()), RayColors::Purple(s) if s == "purple"));
    assert!(matches!(RayColors::from("blue".to_string()), RayColors::Blue(s) if s == "blue"));
    assert!(matches!(RayColors::from("gray".to_string()), RayColors::Gray(s) if s == "gray"));
}

#[test]
fn resolution_is_case_insensitive() {
    assert!(matches!(RayColors::from("GREEN".to_string()), RayColors::Green(s) if s == "green"));
    assert!(matches!(RayColors::from("GrEeN".to_string()), RayColors::Green(s) if s == "green"));
    assert!(matches!(RayColors::from("Purple".to_string()), RayColors::Purple(s) if s == "purple"));
}

#[test]
fn grey_is_a_synonym_for_gray() {
    assert!(matches!(RayColors::from("grey".to_string()), RayColors::Gray(s) if s == "gray"));
    assert!(matches!(RayColors::from("GREY".to_string()), RayColors::Gray(s) if s == "gray"));
}

#[test]
fn unknown_names_fall_back_to_gray() {
    assert!(matches!(RayColors::from("chartreuse".to_string()), RayColors::Gray(s) if s == "gray"));
    assert!(matches!(RayColors::from("".to_string()), RayColors::Gray(s) if s == "gray"));
    assert!(matches!(RayColors::from("greenish".to_string()), RayColors::Gray(s) if s == "gray"));
}
