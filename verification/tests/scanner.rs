use prisma_pothos_generator::text::has_name;
use prisma_pothos_generator::scanner::{
    insert_name, insert_names, mutation_field_pattern, query_field_pattern,
    names_of, scan_content, scan_with, ManualResolvers, Matches, ScanError,
};

#[test]
fn new_resolvers_hold_nothing() {
    let r = ManualResolvers::new();
    assert!(r.queries.is_empty());
    assert!(r.mutations.is_empty());
    assert!(!r.contains_query("users"));
    assert!(!r.contains_mutation("users"));
    let d = ManualResolvers::default();
    assert!(d.queries.is_empty());
    assert!(d.mutations.is_empty());
}

#[test]
fn queries_and_mutations_are_kept_apart() {
    let mut r = ManualResolvers::new();
    assert!(r.insert_query("users".to_string()));
    assert!(!r.insert_query("users".to_string()));
    assert!(r.insert_mutation("createOneUser".to_string()));
    assert!(r.contains_query("users"));
    assert!(!r.contains_query("createOneUser"));
    assert!(r.contains_mutation("createOneUser"));
    assert!(!r.contains_mutation("users"));
    assert_eq!(r.queries, vec!["users"]);
    assert_eq!(r.mutations, vec!["createOneUser"]);
}

#[test]
fn a_name_is_held_once() {
    let mut names = vec!["a".to_string()];
    assert!(!insert_name(&mut names, "a".to_string()));
    assert!(insert_name(&mut names, "b".to_string()));
    assert_eq!(names, vec!["a", "b"]);
    insert_names(&mut names, &vec![Some("c".to_string()), None, Some("a".to_string()), Some("c".to_string())]);
    assert_eq!(names, vec!["a", "b", "c"]);
    assert!(has_name(&names, "c"));
    assert!(!has_name(&names, "d"));
    let mut r = ManualResolvers::new();
    r.record(&vec![Some("q".to_string()), Some("q".to_string())], &vec![None, Some("m".to_string())]);
    assert_eq!(r.queries, vec!["q"]);
    assert_eq!(r.mutations, vec!["m"]);
}

#[test]
fn definitions_are_found_in_a_file() {
    let content = "import { builder } from './builder';
builder.queryField(\"users\", (t) => t.field({}));
builder . queryField ( 'posts' , (t) => t.field({}));
builder
  .mutationField(
    `createOneUser`, (t) => t.field({}));
builder.queryField(\"users\", again);
builder.queryType({});
other.queryField(\"notOurs\");
";
    let mut r = ManualResolvers::new();
    let found = scan_content(content, &mut r).unwrap();
    assert!(found.scanned);
    assert_eq!(found.queries, vec!["users", "posts", "users"]);
    assert_eq!(found.mutations, vec!["createOneUser"]);
    assert_eq!(r.queries, vec!["users", "posts"]);
    assert_eq!(r.mutations, vec!["createOneUser"]);
    assert!(r.contains_query("posts"));
    assert!(!r.contains_query("notOurs"));
    assert!(r.contains_mutation("createOneUser"));
    let found = scan_content("builder.mutationField('users')", &mut r).unwrap();
    assert_eq!(found.mutations, vec!["users"]);
    assert!(found.queries.is_empty());
    assert_eq!(r.queries, vec!["users", "posts"]);
    assert_eq!(r.mutations, vec!["createOneUser", "users"]);
}

#[test]
fn a_file_without_the_builder_adds_nothing() {
    let mut r = ManualResolvers::new();
    let unsearched = Matches { scanned: false, queries: vec![], mutations: vec![] };
    let empty = Matches { scanned: true, queries: vec![], mutations: vec![] };
    assert_eq!(scan_content("const x = 1;\n", &mut r), Ok(unsearched.clone()));
    assert_eq!(scan_content("", &mut r), Ok(unsearched));
    assert_eq!(scan_content("builder.queryField()", &mut r), Ok(empty.clone()));
    assert_eq!(scan_content("builder.queryField(\"\")", &mut r), Ok(empty));
    assert!(r.queries.is_empty());
    assert!(r.mutations.is_empty());
}

#[test]
fn the_patterns_compile() {
    assert!(regex::Regex::new(query_field_pattern()).is_ok());
    assert!(regex::Regex::new(mutation_field_pattern()).is_ok());
    assert!(query_field_pattern().contains("queryField"));
    assert!(mutation_field_pattern().contains("mutationField"));
}

#[test]
fn a_pattern_that_does_not_compile_fails_the_scan() {
    let mut r = ManualResolvers::new();
    r.insert_query("kept".to_string());
    assert_eq!(
        scan_with("builder.queryField('a')", "(", mutation_field_pattern(), &mut r),
        Err(ScanError::InvalidPattern)
    );
    assert_eq!(
        scan_with("builder.queryField('a')", query_field_pattern(), "[", &mut r),
        Err(ScanError::InvalidPattern)
    );
    assert_eq!(r.queries, vec!["kept"]);
    assert!(r.mutations.is_empty());
    assert!(!scan_with("no such word", "(", "[", &mut r).unwrap().scanned);
    let found = scan_with("builder x1 y22 x1", "x([0-9]+)", "y([0-9]+)|(z)", &mut r).unwrap();
    assert_eq!(found.queries, vec!["1", "1"]);
    assert_eq!(found.mutations, vec!["22"]);
    assert_eq!(r.queries, vec!["kept", "1"]);
    assert_eq!(r.mutations, vec!["22"]);
    let found = scan_with("builder z", "q", "y([0-9]+)|(z)", &mut r).unwrap();
    assert!(found.scanned);
    assert!(found.mutations.is_empty());
    assert_eq!(r.mutations, vec!["22"]);
    assert_eq!(
        names_of(&vec![Some("a".to_string()), None, Some("a".to_string())]),
        vec!["a", "a"]
    );
}
