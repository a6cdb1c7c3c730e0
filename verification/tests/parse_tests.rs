use local_store::parse::{parse_old_projects, parse_old_string_array, ParseError, Project};
use local_store::text::u64_to_string;

fn demo_projects() -> Vec<Project> {
    vec![
        Project { id: String::from("p1"), name: String::from("Demo") },
        Project { id: String::from("p2"), name: String::from("Other") },
    ]
}

#[test]
fn projects_bare_array_shape() {
    let r = parse_old_projects(r#"[{"id":"p1","name":"Demo"},{"id":"p2","name":"Other"}]"#);
    assert_eq!(r, Ok(demo_projects()));
}

#[test]
fn projects_enveloped_shape() {
    let r = parse_old_projects(
        r#"{"version":1,"data":{"projects":[{"id":"p1","name":"Demo"},{"id":"p2","name":"Other"}]}}"#,
    );
    assert_eq!(r, Ok(demo_projects()));
}

#[test]
fn projects_top_level_field_shape() {
    let r = parse_old_projects(
        r#"{"projects":[{"id":"p1","name":"Demo"},{"id":"p2","name":"Other"}]}"#,
    );
    assert_eq!(r, Ok(demo_projects()));
}

#[test]
fn projects_three_shapes_agree() {
    let a = parse_old_projects(r#"[{"id":"x","name":"y"}]"#);
    let b = parse_old_projects(r#"{"data":{"projects":[{"id":"x","name":"y"}]}}"#);
    let c = parse_old_projects(r#"{"projects":[{"id":"x","name":"y"}]}"#);
    assert_eq!(a, b);
    assert_eq!(b, c);
}

#[test]
fn projects_data_field_takes_priority() {
    let r = parse_old_projects(
        r#"{"data":{"projects":[{"id":"a","name":"A"}]},"projects":[{"id":"b","name":"B"}]}"#,
    );
    assert_eq!(r, Ok(vec![Project { id: String::from("a"), name: String::from("A") }]));
}

#[test]
fn projects_invalid_json_is_an_error() {
    assert_eq!(parse_old_projects("not json at all"), Err(ParseError::InvalidJson));
}

#[test]
fn projects_unrecognized_shape_is_an_error() {
    assert_eq!(parse_old_projects(r#"{"other":true}"#), Err(ParseError::UnrecognizedShape));
}

#[test]
fn projects_malformed_element_is_an_error() {
    assert_eq!(parse_old_projects(r#"[42]"#), Err(ParseError::BadElement));
    assert_eq!(parse_old_projects(r#"{"projects":[{"id":"a"}]}"#), Err(ParseError::BadElement));
    assert_eq!(parse_old_projects(r#"{"projects":7}"#), Err(ParseError::BadElement));
}

#[test]
fn string_array_three_shapes_agree() {
    let a = parse_old_string_array(r#"["x","y"]"#, "labels");
    let b = parse_old_string_array(r#"{"data":{"labels":["x","y"]}}"#, "labels");
    let c = parse_old_string_array(r#"{"labels":["x","y"]}"#, "labels");
    assert_eq!(a, Ok(vec![String::from("x"), String::from("y")]));
    assert_eq!(a, b);
    assert_eq!(b, c);
}

#[test]
fn string_array_unmatched_shape_decodes_empty() {
    let r = parse_old_string_array(r#"{"other":true}"#, "labels");
    assert_eq!(r, Ok(Vec::new()));
}

#[test]
fn string_array_invalid_json_is_an_error() {
    assert_eq!(parse_old_string_array("{oops", "labels"), Err(ParseError::InvalidJson));
}

#[test]
fn string_array_malformed_element_is_an_error() {
    assert_eq!(parse_old_string_array(r#"{"labels":[1]}"#, "labels"), Err(ParseError::BadElement));
    assert_eq!(parse_old_string_array(r#"{"labels":5}"#, "labels"), Err(ParseError::BadElement));
}

#[test]
fn string_array_respects_field_name() {
    let r = parse_old_string_array(r#"{"categories":["c1"]}"#, "categories");
    assert_eq!(r, Ok(vec![String::from("c1")]));
    let other = parse_old_string_array(r#"{"labels":["c1"]}"#, "categories");
    assert_eq!(other, Ok(Vec::new()));
}

#[test]
fn decimal_rendering_is_exact() {
    assert_eq!(u64_to_string(0), String::from("0"));
    assert_eq!(u64_to_string(7), String::from("7"));
    assert_eq!(u64_to_string(10), String::from("10"));
    assert_eq!(u64_to_string(42), String::from("42"));
    assert_eq!(u64_to_string(1234567890), String::from("1234567890"));
    assert_eq!(u64_to_string(u64::MAX), String::from("18446744073709551615"));
}
