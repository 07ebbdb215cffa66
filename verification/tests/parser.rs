use prisma_pothos_generator::parser::{
    parse_field, parse_relation, parse_schema, split_blocks, BlockKind,
};
use prisma_pothos_generator::schema::{Field, FieldType, PrimaryKey, Relation};

fn names(list: &[&str]) -> Vec<String> {
    list.iter().map(|s| s.to_string()).collect()
}

fn field(line: &str) -> Option<Field> {
    parse_field(line, "Owner", &names(&["Role"]), &names(&["User", "Post"]))
}

fn scalars() -> Vec<(&'static str, FieldType)> {
    vec![
        ("String", FieldType::String),
        ("Int", FieldType::Int),
        ("Float", FieldType::Float),
        ("Boolean", FieldType::Boolean),
        ("DateTime", FieldType::DateTime),
        ("Json", FieldType::Json),
        ("Decimal", FieldType::Decimal),
        ("BigInt", FieldType::BigInt),
        ("Bytes", FieldType::Bytes),
    ]
}

#[test]
fn scalar_field_is_required_and_no_list() {
    for (token, expected) in scalars() {
        let f = field(&format!("f {}", token)).unwrap();
        assert_eq!(f.name, "f");
        assert_eq!(f.field_type, expected);
        assert!(f.is_required);
        assert!(!f.is_list);
        assert!(!f.is_id);
        assert!(!f.is_unique);
        assert!(!f.is_updated_at);
        assert_eq!(f.default_value, None);
        assert_eq!(f.relation, None);
    }
}

#[test]
fn optional_and_list_markers() {
    for (token, expected) in scalars() {
        let f = field(&format!("f {}?", token)).unwrap();
        assert_eq!(f.field_type, expected);
        assert!(!f.is_required);
        assert!(!f.is_list);
        let f = field(&format!("f {}[]", token)).unwrap();
        assert_eq!(f.field_type, expected);
        assert!(!f.is_required);
        assert!(f.is_list);
    }
}

#[test]
fn only_one_marker_is_taken_off() {
    let f = field("f Int?[]").unwrap();
    assert!(f.is_list);
    assert!(!f.is_required);
    assert_eq!(f.field_type, FieldType::String);
    let f = field("f Int[]?").unwrap();
    assert!(!f.is_list);
    assert!(!f.is_required);
    assert_eq!(f.field_type, FieldType::String);
    let f = field("f Int[][]").unwrap();
    assert!(f.is_list);
    assert_eq!(f.field_type, FieldType::String);
}

#[test]
fn known_model_gives_a_relation() {
    let f = field("author User").unwrap();
    assert_eq!(f.field_type, FieldType::Model("User".to_string()));
    assert_eq!(
        f.relation,
        Some(Relation {
            name: None,
            fields: vec![],
            references: vec![],
            related_model: "User".to_string(),
            on_delete: None,
            on_update: None,
        })
    );
    let f = field("posts Post[]").unwrap();
    assert_eq!(f.field_type, FieldType::Model("Post".to_string()));
    assert!(f.is_list);
    assert!(f.relation.is_some());
    let f = field("friend User?").unwrap();
    assert_eq!(f.field_type, FieldType::Model("User".to_string()));
    assert!(!f.is_required);
    assert_eq!(f.relation.unwrap().related_model, "User");
}

#[test]
fn known_enum_and_unknown_type() {
    let f = field("role Role @default(USER)").unwrap();
    assert_eq!(f.field_type, FieldType::Enum("Role".to_string()));
    assert_eq!(f.relation, None);
    assert_eq!(f.default_value, Some("USER".to_string()));
    let f = field("x Mystery").unwrap();
    assert_eq!(f.field_type, FieldType::String);
    assert_eq!(f.relation, None);
    let f = field("x string").unwrap();
    assert_eq!(f.field_type, FieldType::String);
}

#[test]
fn an_enum_goes_before_a_model_of_the_same_name() {
    let f = parse_field("x Both", "M", &names(&["Both"]), &names(&["Both"])).unwrap();
    assert_eq!(f.field_type, FieldType::Enum("Both".to_string()));
    assert_eq!(f.relation, None);
    let f = parse_field("x Int", "M", &names(&[]), &names(&["Int"])).unwrap();
    assert_eq!(f.field_type, FieldType::Int);
    assert_eq!(f.relation, None);
}

#[test]
fn id_and_unique_together() {
    let f = field("id Int @id @unique").unwrap();
    assert!(f.is_id);
    assert!(f.is_unique);
    let f = field("id Int @unique @id").unwrap();
    assert!(f.is_id);
    assert!(f.is_unique);
    let f = field("id Int @id").unwrap();
    assert!(f.is_id);
    assert!(!f.is_unique);
    let f = field("id Int @unique").unwrap();
    assert!(!f.is_id);
    assert!(f.is_unique);
    let f = field("at DateTime @updatedAt").unwrap();
    assert!(f.is_updated_at);
}

#[test]
fn too_few_tokens_declare_nothing() {
    assert_eq!(field(""), None);
    assert_eq!(field("   "), None);
    assert_eq!(field("lonely"), None);
    assert_eq!(field("  lonely  "), None);
    assert_eq!(field("{"), None);
}

#[test]
fn default_is_the_text_up_to_the_matching_parenthesis() {
    assert_eq!(field("a Int @default(5)").unwrap().default_value, Some("5".to_string()));
    assert_eq!(
        field("a String @default(\"x y\")").unwrap().default_value,
        Some("\"x y\"".to_string())
    );
    assert_eq!(
        field("id Int @id @default(autoincrement())").unwrap().default_value,
        Some("autoincrement()".to_string())
    );
    let f = field("createdAt DateTime @default(now())").unwrap();
    assert_eq!(f.field_type, FieldType::DateTime);
    assert_eq!(f.default_value, Some("now()".to_string()));
    assert_eq!(
        field("a String @default(dbgenerated(\"f(g(1), 2)\")) @unique").unwrap().default_value,
        Some("dbgenerated(\"f(g(1), 2)\")".to_string())
    );
    assert_eq!(field("a Int @default(5) @map(\"x\")").unwrap().default_value, Some("5".to_string()));
    assert_eq!(field("a Int @default()").unwrap().default_value, Some("".to_string()));
    assert_eq!(field("a Int @default(5").unwrap().default_value, None);
    assert_eq!(field("a Int @default(now()").unwrap().default_value, None);
    assert_eq!(field("a Int @default((1)").unwrap().default_value, None);
    assert_eq!(field("a Int @default").unwrap().default_value, None);
    assert_eq!(field("a Int").unwrap().default_value, None);
}

#[test]
fn relation_clause_with_fields_and_references() {
    let r = parse_relation("author User @relation(fields: [authorId], references: [id])", "User");
    assert_eq!(r.name, None);
    assert_eq!(r.fields, vec!["authorId"]);
    assert_eq!(r.references, vec!["id"]);
    assert_eq!(r.related_model, "User");
    assert_eq!(r.on_delete, None);
    assert_eq!(r.on_update, None);
    let r = parse_relation("a B @relation(fields: [ x , y,, ], references: [p,q])", "B");
    assert_eq!(r.fields, vec!["x", "y"]);
    assert_eq!(r.references, vec!["p", "q"]);
}

#[test]
fn relation_name_in_both_forms() {
    let r = parse_relation("posts Post[] @relation(\"UserPosts\")", "Post");
    assert_eq!(r.name, Some("UserPosts".to_string()));
    assert!(r.fields.is_empty());
    assert!(r.references.is_empty());
    let r = parse_relation(
        "a B @relation(name: \"Rel\", fields: [x], references: [id])",
        "B",
    );
    assert_eq!(r.name, Some("Rel".to_string()));
    assert_eq!(r.fields, vec!["x"]);
    assert_eq!(r.references, vec!["id"]);
    let r = parse_relation("a B @relation(name: Rel)", "B");
    assert_eq!(r.name, Some("Rel".to_string()));
    let r = parse_relation("a B @relation(\"open)", "B");
    assert_eq!(r.name, None);
    let r = parse_relation("a B @relation(  \"Spaced\" , fields: [x])", "B");
    assert_eq!(r.name, Some("Spaced".to_string()));
    assert_eq!(r.fields, vec!["x"]);
}

#[test]
fn a_string_that_does_not_lead_the_clause_is_no_name() {
    let r = parse_relation(
        "author User @relation(fields: [authorId], references: [id], map: \"fk_author\")",
        "User",
    );
    assert_eq!(r.name, None);
    assert_eq!(r.fields, vec!["authorId"]);
    assert_eq!(r.references, vec!["id"]);
    let r = parse_relation("a B @relation(fields: [x], \"Late\")", "B");
    assert_eq!(r.name, None);
    let r = parse_relation("a B @relation()", "B");
    assert_eq!(r.name, None);
}

#[test]
fn relation_without_a_clause_is_the_other_side() {
    let r = parse_relation("posts Post[]", "Post");
    assert_eq!(r.name, None);
    assert!(r.fields.is_empty());
    assert!(r.references.is_empty());
    assert_eq!(r.related_model, "Post");
    let r = parse_relation("a B @relation(fields: [x]", "B");
    assert!(r.fields.is_empty());
    let r = parse_relation("a B @relation(fields: x, references: [y)", "B");
    assert!(r.fields.is_empty());
    assert!(r.references.is_empty());
}

const SCHEMA: &str = "// a comment
generator client {
  provider = \"x\"
}

model User {
  id    Int    @id @default(autoincrement())
  email String @unique
  // a comment in a body
  role  Role   @default(USER)

  posts Post[]
  @@map(\"users\")
}

enum Role {
  USER
  ADMIN // the second
  // a comment
}

model Post {
  id       Int  @id
  author   User @relation(fields: [authorId], references: [id])
  authorId Int
}
";

#[test]
fn whole_schema() {
    let schema = parse_schema(SCHEMA);
    assert_eq!(schema.enums.len(), 1);
    assert_eq!(schema.enums[0].name, "Role");
    let values: Vec<&str> = schema.enums[0].values.iter().map(|v| v.name.as_str()).collect();
    assert_eq!(values, vec!["USER", "ADMIN"]);
    assert!(schema.enums[0].values.iter().all(|v| v.db_name.is_none()));
    assert_eq!(schema.models.len(), 2);
    let user = &schema.models[0];
    assert_eq!(user.name, "User");
    assert_eq!(user.db_name, None);
    assert!(user.unique_fields.is_empty());
    let fields: Vec<&str> = user.fields.iter().map(|f| f.name.as_str()).collect();
    assert_eq!(fields, vec!["id", "email", "role", "posts"]);
    assert_eq!(
        user.primary_key,
        Some(PrimaryKey { fields: vec!["id".to_string()], name: None })
    );
    assert_eq!(user.fields[2].field_type, FieldType::Enum("Role".to_string()));
    assert_eq!(user.fields[3].field_type, FieldType::Model("Post".to_string()));
    assert!(user.fields[3].relation.is_some());
    let post = &schema.models[1];
    assert_eq!(post.name, "Post");
    assert_eq!(post.fields.len(), 3);
    assert_eq!(post.fields[1].field_type, FieldType::Model("User".to_string()));
    let relation = post.fields[1].relation.clone().unwrap();
    assert_eq!(relation.fields, vec!["authorId"]);
    assert_eq!(relation.references, vec!["id"]);
    assert_eq!(relation.related_model, "User");
}

#[test]
fn every_field_has_a_relation_exactly_when_it_is_a_model() {
    let schema = parse_schema(SCHEMA);
    for model in &schema.models {
        for f in &model.fields {
            match &f.field_type {
                FieldType::Model(name) => {
                    assert_eq!(&f.relation.as_ref().unwrap().related_model, name)
                }
                _ => assert!(f.relation.is_none()),
            }
        }
    }
}

#[test]
fn no_identifier_no_primary_key() {
    let schema = parse_schema("model Log {\n  message String\n  level Int @unique\n}\n");
    assert_eq!(schema.models.len(), 1);
    assert_eq!(schema.models[0].fields.len(), 2);
    assert_eq!(schema.models[0].primary_key, None);
    let schema = parse_schema("model Empty {\n}\n");
    assert_eq!(schema.models[0].primary_key, None);
    assert!(schema.models[0].fields.is_empty());
}

#[test]
fn first_identifier_is_the_key() {
    let schema = parse_schema("model M {\n  a Int\n  b Int @id\n  c Int @id\n}\n");
    assert_eq!(
        schema.models[0].primary_key,
        Some(PrimaryKey { fields: vec!["b".to_string()], name: None })
    );
}

#[test]
fn unterminated_enum_runs_to_the_end() {
    let schema = parse_schema("enum Color {\n  RED\n  GREEN");
    assert_eq!(schema.enums.len(), 1);
    assert_eq!(schema.enums[0].name, "Color");
    let values: Vec<&str> = schema.enums[0].values.iter().map(|v| v.name.as_str()).collect();
    assert_eq!(values, vec!["RED", "GREEN"]);
    assert!(schema.models.is_empty());
    let schema = parse_schema("enum Color {");
    assert_eq!(schema.enums.len(), 1);
    assert!(schema.enums[0].values.is_empty());
}

#[test]
fn unterminated_model_runs_to_the_end() {
    let schema = parse_schema("model A {\n  id Int @id\nmodel B {\n  x Int\n");
    assert_eq!(schema.models.len(), 1);
    assert_eq!(schema.models[0].name, "A");
    let fields: Vec<&str> = schema.models[0].fields.iter().map(|f| f.name.as_str()).collect();
    assert_eq!(fields, vec!["id", "model", "x"]);
    assert_eq!(schema.models[0].fields[1].field_type, FieldType::Model("B".to_string()));
}

#[test]
fn forward_reference_resolves() {
    let schema = parse_schema("model A {\n  b B\n  c C\n}\nmodel B {\n  id Int @id\n}\nenum C {\n X\n}\n");
    assert_eq!(schema.models[0].fields[0].field_type, FieldType::Model("B".to_string()));
    assert_eq!(schema.models[0].fields[1].field_type, FieldType::Enum("C".to_string()));
}

#[test]
fn header_forms() {
    let schema = parse_schema("model A{\n  id Int @id\n}\nmodel B\n{\n  id Int @id\n}\n  model   C   {\n}\n");
    let found: Vec<&str> = schema.models.iter().map(|m| m.name.as_str()).collect();
    assert_eq!(found, vec!["A", "B", "C"]);
    assert_eq!(schema.models[1].fields.len(), 1);
    let schema = parse_schema("enum E\n{\n  X\n}\n");
    let values: Vec<&str> = schema.enums[0].values.iter().map(|v| v.name.as_str()).collect();
    assert_eq!(values, vec!["{", "X"]);
}

#[test]
fn a_header_without_a_name_declares_nothing() {
    let schema = parse_schema("model {\n  id Int @id\n}\nenum  {\n  X\n}\nmodel Real {\n}\n");
    assert!(schema.enums.is_empty());
    let found: Vec<&str> = schema.models.iter().map(|m| m.name.as_str()).collect();
    assert_eq!(found, vec!["Real"]);
}

#[test]
fn empty_and_foreign_text() {
    let schema = parse_schema("");
    assert!(schema.models.is_empty());
    assert!(schema.enums.is_empty());
    let schema = parse_schema("datasource db {\n  url = \"x\"\n}\n}\n\n");
    assert!(schema.models.is_empty());
    assert!(schema.enums.is_empty());
}

#[test]
fn windows_line_ends() {
    let schema = parse_schema("enum Role {\r\n  USER\r\n  ADMIN\r\n}\r\nmodel U {\r\n  id Int @id\r\n  role Role\r\n}\r\n");
    assert_eq!(schema.enums[0].name, "Role");
    assert_eq!(schema.enums[0].values.len(), 2);
    assert_eq!(schema.enums[0].values[1].name, "ADMIN");
    assert_eq!(schema.models[0].fields[1].field_type, FieldType::Enum("Role".to_string()));
}

#[test]
fn blocks_of_a_text() {
    let blocks = split_blocks("x\nenum A {\n  ONE\n\n}\nmodel B {\n  id Int\n");
    assert_eq!(blocks.len(), 2);
    assert_eq!(blocks[0].kind, BlockKind::Enum);
    assert_eq!(blocks[0].name, "A");
    assert_eq!(blocks[0].body, vec!["  ONE", ""]);
    assert_eq!(blocks[1].kind, BlockKind::Model);
    assert_eq!(blocks[1].name, "B");
    assert_eq!(blocks[1].body, vec!["  id Int"]);
    assert!(split_blocks("").is_empty());
    let blocks = split_blocks("enum A {\r\n  ONE\r\n}\r\n");
    assert_eq!(blocks[0].name, "A");
    assert_eq!(blocks[0].body, vec!["  ONE"]);
}
