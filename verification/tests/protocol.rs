use prisma_pothos_generator::generator::generate;
use prisma_pothos_generator::json::Json;
use prisma_pothos_generator::parser::parse_schema;
use prisma_pothos_generator::protocol::{handle_request, Action, DEFAULT_OUTPUT};
use prisma_pothos_generator::scanner::ManualResolvers;

fn text(s: &str) -> Json {
    Json::Text(s.to_string())
}

fn object(members: Vec<(&str, Json)>) -> Json {
    Json::Object(members.into_iter().map(|(k, v)| (k.to_string(), v)).collect())
}

fn document() -> Json {
    object(vec![(
        "datamodel",
        object(vec![
            ("enums", Json::Array(vec![])),
            (
                "models",
                Json::Array(vec![object(vec![
                    ("name", text("Post")),
                    ("primaryKey", Json::Null),
                    (
                        "fields",
                        Json::Array(vec![object(vec![
                            ("name", text("id")),
                            ("kind", text("scalar")),
                            ("type", text("Int")),
                            ("isRequired", Json::Bool(true)),
                            ("isId", Json::Bool(true)),
                        ])]),
                    ),
                ])]),
            ),
        ]),
    )])
}

#[test]
fn manifest_request() {
    let request = object(vec![("jsonrpc", text("2.0")), ("id", Json::Null), ("method", text("getManifest"))]);
    assert!(matches!(handle_request(&request), Action::SendManifest));
}

#[test]
fn unknown_requests_are_ignored() {
    assert!(matches!(handle_request(&object(vec![("method", text("other"))])), Action::Ignore));
    assert!(matches!(handle_request(&object(vec![("method", Json::Bool(true))])), Action::Ignore));
    assert!(matches!(handle_request(&object(vec![])), Action::Ignore));
    assert!(matches!(handle_request(&Json::Null), Action::Ignore));
    assert!(matches!(handle_request(&text("generate")), Action::Ignore));
}

#[test]
fn generate_without_a_document_only_answers() {
    assert!(matches!(handle_request(&object(vec![("method", text("generate"))])), Action::SendResult));
    let request = object(vec![("method", text("generate")), ("params", object(vec![]))]);
    assert!(matches!(handle_request(&request), Action::SendResult));
    let request = object(vec![("method", text("generate")), ("params", Json::Null)]);
    assert!(matches!(handle_request(&request), Action::SendResult));
}

#[test]
fn generate_with_a_document() {
    let request = object(vec![
        ("method", text("generate")),
        (
            "params",
            object(vec![
                ("dmmf", document()),
                ("generator", object(vec![("output", object(vec![("value", text("./out"))]))])),
            ]),
        ),
    ]);
    match handle_request(&request) {
        Action::Generate { output, files } => {
            assert_eq!(output, "./out");
            let expected = generate(&parse_schema("model Post {\n  id Int @id\n}\n"), &ManualResolvers::new());
            assert_eq!(files, expected);
        }
        other => panic!("unexpected action: {:?}", other),
    }
}

#[test]
fn output_defaults() {
    assert_eq!(DEFAULT_OUTPUT, "./src/generated");
    for generator in [
        None,
        Some(Json::Null),
        Some(object(vec![])),
        Some(object(vec![("output", object(vec![]))])),
        Some(object(vec![("output", object(vec![("value", Json::Null)]))])),
    ] {
        let mut params = vec![("dmmf", Json::Null)];
        if let Some(g) = generator {
            params.push(("generator", g));
        }
        let request = object(vec![("method", text("generate")), ("params", object(params))]);
        match handle_request(&request) {
            Action::Generate { output, files } => {
                assert_eq!(output, "./src/generated");
                assert_eq!(files.len(), 6);
            }
            other => panic!("unexpected action: {:?}", other),
        }
    }
}
