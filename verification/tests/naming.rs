use srcmerge::utils::name_conventions::NamingConventions;

#[test]
fn from_camel_case() {
    let value = NamingConventions::parse("CamelCase");
    assert_eq!(vec!["camel".to_string(), "case".to_string()], value.tokens);
}

#[test]
fn from_pascal_case() {
    let value = NamingConventions::parse("pascalCase");
    assert_eq!(vec!["pascal".to_string(), "case".to_string()], value.tokens);
}

#[test]
fn from_kebab_case() {
    let value = NamingConventions::parse("kebab-case");
    assert_eq!(vec!["kebab".to_string(), "case".to_string()], value.tokens);
}

#[test]
fn from_snake_case() {
    let value = NamingConventions::parse("snake_case");
    assert_eq!(vec!["snake".to_string(), "case".to_string()], value.tokens);
}

#[test]
fn from_screaming_snake_case() {
    let value = NamingConventions::parse("SNAKE_CASE");
    assert_eq!(vec!["snake".to_string(), "case".to_string()], value.tokens);
}

#[test]
fn to_camel_case() {
    assert_eq!("RustIsAwesome", NamingConventions::to_camel_case("RustIsAwesome"));
}

#[test]
fn to_pascal_case() {
    assert_eq!("rustIsAwesome", NamingConventions::to_pascal_case("RustIsAwesome"));
}

#[test]
fn to_kebab_case() {
    assert_eq!("rust-is-awesome", NamingConventions::to_kebab_case("RustIsAwesome"));
}

#[test]
fn to_snake_case() {
    assert_eq!("rust_is_awesome", NamingConventions::to_snake_case("RustIsAwesome"));
}

#[test]
fn to_screaming_snake_case() {
    assert_eq!("RUST_IS_AWESOME", NamingConventions::to_screaming_snake_case("RustIsAwesome"));
}

#[test]
fn to_camel_case_single_token() {
    assert_eq!("Alpha", NamingConventions::to_camel_case("alpha"));
}

#[test]
fn to_snake_case_from_kebab() {
    assert_eq!("one_two", NamingConventions::to_snake_case("one-two"));
}
