#[test]
fn should_not_be_applicable_to_non_enum_types() {}
