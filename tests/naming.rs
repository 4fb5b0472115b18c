use hime_output::naming::{
    get_namespace_java, get_namespace_net, get_namespace_rust, get_namespace_u3d, to_lower_camel_case,
    to_snake_case, to_upper_camel_case, to_upper_case,
};

#[test]
fn test_upper_camel_case() {
    assert_eq!("", to_upper_camel_case(""));
    assert_eq!("UpperCamelCase", to_upper_camel_case("upper_camel_case"));
    assert_eq!("UpperCamelCase", to_upper_camel_case("UPPER_CAMEL_CASE"));
    assert_eq!("UpperCamelCase", to_upper_camel_case("UpperCamelCase"));
    assert_eq!("UpperCamelCase", to_upper_camel_case("upperCamelCase"));
    assert_eq!("UpperCamelCase", to_upper_camel_case("Upper Camel Case"));
}

#[test]
fn test_lower_camel_case() {
    assert_eq!("", to_lower_camel_case(""));
    assert_eq!("lowerCamelCase", to_lower_camel_case("lower_camel_case"));
    assert_eq!("lowerCamelCase", to_lower_camel_case("LOWER_CAMEL_CASE"));
    assert_eq!("lowerCamelCase", to_lower_camel_case("LowerCamelCase"));
    assert_eq!("lowerCamelCase", to_lower_camel_case("lowerCamelCase"));
    assert_eq!("lowerCamelCase", to_lower_camel_case("Lower Camel Case"));
}

#[test]
fn test_upper_case() {
    assert_eq!("", to_upper_case(""));
    assert_eq!("UPPER_CASE", to_upper_case("upper_case"));
    assert_eq!("UPPER_CASE", to_upper_case("UPPER_CASE"));
    assert_eq!("UPPER_CASE", to_upper_case("UpperCase"));
    assert_eq!("UPPER_CASE", to_upper_case("upperCase"));
    assert_eq!("UPPER_CASE", to_upper_case("Upper Case"));
}

#[test]
fn test_snake_case() {
    assert_eq!("", to_snake_case(""));
    assert_eq!("snake_case", to_snake_case("snake_case"));
    assert_eq!("snake_case", to_snake_case("SNAKE_CASE"));
    assert_eq!("snake_case", to_snake_case("SnakeCase"));
    assert_eq!("snake_case", to_snake_case("snakeCase"));
    assert_eq!("snake_case", to_snake_case("Snake Case"));
}

#[test]
fn leading_digits_and_separators() {
    assert_eq!("_1Abc", to_upper_camel_case("1abc"));
    assert_eq!("_1Abc", to_lower_camel_case("1abc"));
    assert_eq!("_1ABC", to_upper_case("1abc"));
    assert_eq!("_1abc", to_snake_case("1abc"));
    assert_eq!("abc", to_lower_camel_case("_Abc"));
    assert_eq!("Abc", to_upper_camel_case("_abc"));
    assert_eq!("_ABC", to_upper_case("_abc"));
    assert_eq!("a2_b", to_snake_case("a2B"));
}

#[test]
fn non_ascii_bytes_are_separators() {
    assert_eq!("AB", to_upper_camel_case("a\u{e9}b"));
    assert_eq!("A__B", to_upper_case("a\u{e9}b"));
    assert_eq!("a__b", to_snake_case("a\u{e9}b"));
}

#[test]
fn namespaces_with_double_colon() {
    assert_eq!("MyLib.SubMod", get_namespace_net("my_lib::sub_mod"));
    assert_eq!("MyLib.SubMod", get_namespace_u3d("my_lib::::sub_mod::"));
    assert_eq!("my_lib.sub_mod", get_namespace_java("MyLib::SubMod"));
    assert_eq!("my_lib::sub_mod", get_namespace_rust("MyLib::SubMod"));
    assert_eq!("AX.B", get_namespace_net("a.x::b"));
}

#[test]
fn namespaces_with_dots() {
    assert_eq!("Org.Example.Parser", get_namespace_net("org.example.parser"));
    assert_eq!("org.example", get_namespace_java(".Org..Example."));
    assert_eq!("org::example_parser", get_namespace_rust("org.ExampleParser"));
}

#[test]
fn namespaces_without_separator() {
    assert_eq!("MathExp", get_namespace_net("math_exp"));
    assert_eq!("math_exp", get_namespace_java("MathExp"));
    assert_eq!("math_exp", get_namespace_rust("mathExp"));
    assert_eq!("", get_namespace_rust(""));
}
