use prisma_pothos_generator::schema::FieldType;

#[test]
fn graphql_names_of_types() {
    assert_eq!(FieldType::String.to_graphql_type(), "String");
    assert_eq!(FieldType::Int.to_graphql_type(), "Int");
    assert_eq!(FieldType::Float.to_graphql_type(), "Float");
    assert_eq!(FieldType::Boolean.to_graphql_type(), "Boolean");
    assert_eq!(FieldType::DateTime.to_graphql_type(), "DateTime");
    assert_eq!(FieldType::Json.to_graphql_type(), "JSON");
    assert_eq!(FieldType::Decimal.to_graphql_type(), "Decimal");
    assert_eq!(FieldType::BigInt.to_graphql_type(), "BigInt");
    assert_eq!(FieldType::Bytes.to_graphql_type(), "Bytes");
    assert_eq!(FieldType::Enum("Role".to_string()).to_graphql_type(), "Role");
    assert_eq!(FieldType::Model("Post".to_string()).to_graphql_type(), "Post");
}

#[test]
fn typescript_names_of_types() {
    assert_eq!(FieldType::String.to_typescript_type(), "string");
    assert_eq!(FieldType::Int.to_typescript_type(), "number");
    assert_eq!(FieldType::Float.to_typescript_type(), "number");
    assert_eq!(FieldType::Boolean.to_typescript_type(), "boolean");
    assert_eq!(FieldType::DateTime.to_typescript_type(), "Date");
    assert_eq!(FieldType::Json.to_typescript_type(), "Prisma.JsonValue");
    assert_eq!(FieldType::Decimal.to_typescript_type(), "Prisma.Decimal");
    assert_eq!(FieldType::BigInt.to_typescript_type(), "bigint");
    assert_eq!(FieldType::Bytes.to_typescript_type(), "Buffer");
    assert_eq!(FieldType::Enum("Role".to_string()).to_typescript_type(), "Role");
    assert_eq!(FieldType::Model("Post".to_string()).to_typescript_type(), "Post");
}

#[test]
fn only_a_model_is_no_scalar() {
    assert!(FieldType::String.is_scalar());
    assert!(FieldType::Bytes.is_scalar());
    assert!(FieldType::Enum("Role".to_string()).is_scalar());
    assert!(!FieldType::Model("Post".to_string()).is_scalar());
}
