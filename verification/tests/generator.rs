use prisma_pothos_generator::generator::enums::{generate_base_enums, generate_schema_enums, BASE_ENUMS_TEXT};
use prisma_pothos_generator::generator::filters::{generate_filters, FILTERS_TEXT};
use prisma_pothos_generator::generator::helpers::{generate_helpers, BUILDER_TEXT};
use prisma_pothos_generator::generator::inputs::{
    collect_enum_types, collect_foreign_keys, generate_create_input, generate_input_field,
    generate_inputs, generate_order_by_input, generate_relation_create_input,
    generate_update_input, generate_where_input, generate_where_unique_input,
    generate_where_unique_input_for_relations, get_filter_type, relation_input_name_of,
};
use prisma_pothos_generator::generator::models::{generate_field_code, generate_model};
use prisma_pothos_generator::generator::relations::{
    collect_relation_inputs, generate_all_relation_inputs,
};
use prisma_pothos_generator::generator::resolvers::{
    aggregate, create_many, create_one, find_many, find_unique, generate_resolvers, update_one,
};
use prisma_pothos_generator::generator::{append_files, generate, generate_index, GeneratedFile};
use prisma_pothos_generator::names::capitalize_first;
use prisma_pothos_generator::parser::parse_schema;
use prisma_pothos_generator::scanner::ManualResolvers;
use prisma_pothos_generator::schema::{Field, FieldType, ParsedSchema};

const SCHEMA: &str = "enum Status {
  DRAFT
  PUBLISHED
}

model User {
  id    Int    @id
  email String @unique
  posts Post[]
}

model Post {
  id Int @id @default(autoincrement())
  title String
  tags String[]
  status Status @default(DRAFT)
  author User @relation(fields: [authorId], references: [id])
  authorId Int
  comments Comment[]
  updatedAt DateTime @updatedAt
}

model Comment {
  id Int @id
  post Post? @relation(fields: [postId], references: [id])
  postId Int?
}
";

fn schema() -> ParsedSchema {
    parse_schema(SCHEMA)
}

fn plain(name: &str, field_type: FieldType, required: bool, list: bool) -> Field {
    Field {
        name: name.to_string(),
        field_type,
        is_required: required,
        is_list: list,
        is_id: false,
        is_unique: false,
        is_updated_at: false,
        default_value: None,
        relation: None,
    }
}

#[test]
fn input_field_of_each_type() {
    let e = FieldType::Enum("Role".to_string());
    let m = FieldType::Model("User".to_string());
    assert_eq!(generate_input_field(&FieldType::String, "a", false, ""), "a: t.string({})");
    assert_eq!(
        generate_input_field(&FieldType::String, "a", false, "required: true"),
        "a: t.string({required: true})"
    );
    assert_eq!(generate_input_field(&FieldType::String, "a", true, ""), "a: t.stringList({})");
    assert_eq!(generate_input_field(&FieldType::Int, "a", false, ""), "a: t.int({})");
    assert_eq!(
        generate_input_field(&FieldType::Int, "a", true, "required: true"),
        "a: t.intList({required: true})"
    );
    assert_eq!(generate_input_field(&FieldType::Float, "a", false, ""), "a: t.float({})");
    assert_eq!(
        generate_input_field(&FieldType::Float, "a", true, ""),
        "a: t.field({ type: [\"Float\"]})"
    );
    assert_eq!(
        generate_input_field(&FieldType::Float, "a", true, "required: true"),
        "a: t.field({ type: [\"Float\"], required: true})"
    );
    assert_eq!(generate_input_field(&FieldType::Boolean, "a", false, ""), "a: t.boolean({})");
    assert_eq!(generate_input_field(&FieldType::Boolean, "a", true, ""), "a: t.booleanList({})");
    assert_eq!(
        generate_input_field(&FieldType::DateTime, "a", false, "required: true"),
        "a: t.field({ type: \"DateTime\", required: true})"
    );
    assert_eq!(
        generate_input_field(&FieldType::DateTime, "a", true, ""),
        "a: t.field({ type: [\"DateTime\"]})"
    );
    assert_eq!(
        generate_input_field(&FieldType::Json, "a", false, ""),
        "a: t.field({ type: \"JSON\"})"
    );
    assert_eq!(
        generate_input_field(&FieldType::Json, "a", true, "required: true"),
        "a: t.field({ type: [\"JSON\"], required: true})"
    );
    assert_eq!(generate_input_field(&FieldType::Decimal, "a", false, ""), "a: t.float({})");
    assert_eq!(
        generate_input_field(&FieldType::Decimal, "a", true, ""),
        "a: t.field({ type: [\"Float\"]})"
    );
    assert_eq!(generate_input_field(&FieldType::BigInt, "a", false, ""), "a: t.string({})");
    assert_eq!(generate_input_field(&FieldType::BigInt, "a", true, ""), "a: t.stringList({})");
    assert_eq!(generate_input_field(&FieldType::Bytes, "a", false, ""), "a: t.string({})");
    assert_eq!(generate_input_field(&FieldType::Bytes, "a", true, ""), "a: t.stringList({})");
    assert_eq!(generate_input_field(&e, "a", false, ""), "a: t.field({ type: Role})");
    assert_eq!(
        generate_input_field(&e, "a", false, "required: true"),
        "a: t.field({ type: Role, required: true})"
    );
    assert_eq!(
        generate_input_field(&e, "a", true, "required: true"),
        "a: t.field({ type: [Role], required: true})"
    );
    assert_eq!(generate_input_field(&m, "a", true, "required: true"), "a: t.string({required: true})");
}

#[test]
fn filter_of_each_type() {
    assert_eq!(get_filter_type(&FieldType::String), "StringFilter");
    assert_eq!(get_filter_type(&FieldType::Int), "IntFilter");
    assert_eq!(get_filter_type(&FieldType::Float), "FloatFilter");
    assert_eq!(get_filter_type(&FieldType::Boolean), "BoolFilter");
    assert_eq!(get_filter_type(&FieldType::DateTime), "DateTimeFilter");
    assert_eq!(get_filter_type(&FieldType::Json), "\"JSON\"");
    assert_eq!(get_filter_type(&FieldType::Decimal), "FloatFilter");
    assert_eq!(get_filter_type(&FieldType::BigInt), "StringFilter");
    assert_eq!(get_filter_type(&FieldType::Bytes), "StringFilter");
    assert_eq!(get_filter_type(&FieldType::Enum("E".to_string())), "StringFilter");
    assert_eq!(get_filter_type(&FieldType::Model("M".to_string())), "StringFilter");
}

#[test]
fn object_field_of_each_type() {
    let code = |t: FieldType, required: bool, list: bool| {
        generate_field_code(&plain("a", t, required, list))
    };
    assert_eq!(code(FieldType::String, true, false), "a: t.exposeString(\"a\", { nullable: false })");
    assert_eq!(code(FieldType::String, false, false), "a: t.exposeString(\"a\", { nullable: true })");
    assert_eq!(code(FieldType::String, false, true), "a: t.exposeStringList(\"a\", { nullable: true })");
    assert_eq!(code(FieldType::String, true, true), "a: t.exposeStringList(\"a\", {  })");
    assert_eq!(code(FieldType::Int, true, false), "a: t.exposeInt(\"a\", { nullable: false })");
    assert_eq!(code(FieldType::Int, false, true), "a: t.exposeIntList(\"a\", { nullable: true })");
    assert_eq!(code(FieldType::Float, false, false), "a: t.exposeFloat(\"a\", { nullable: true })");
    assert_eq!(code(FieldType::Float, false, true), "a: t.exposeFloatList(\"a\", { nullable: true })");
    assert_eq!(code(FieldType::Boolean, true, false), "a: t.exposeBoolean(\"a\", { nullable: false })");
    assert_eq!(code(FieldType::Boolean, false, true), "a: t.exposeBooleanList(\"a\", { nullable: true })");
    assert_eq!(
        code(FieldType::DateTime, true, false),
        "a: t.field({ type: \"DateTime\", resolve: (parent) => parent.a, nullable: false })"
    );
    assert_eq!(
        code(FieldType::DateTime, false, true),
        "a: t.field({ type: [\"DateTime\"], resolve: (parent) => parent.a, nullable: true })"
    );
    assert_eq!(
        code(FieldType::Json, false, false),
        "a: t.field({ type: \"JSON\", resolve: (parent) => parent.a, nullable: true })"
    );
    assert_eq!(
        code(FieldType::Json, true, true),
        "a: t.field({ type: [\"JSON\"], resolve: (parent) => parent.a,  })"
    );
    assert_eq!(
        code(FieldType::Decimal, true, false),
        "a: t.field({ type: \"String\", resolve: (parent) => parent.a?.toString(), nullable: false })"
    );
    assert_eq!(
        code(FieldType::Decimal, false, true),
        "a: t.field({ type: [\"String\"], resolve: (parent) => parent.a?.map(d => d.toString()), nullable: true })"
    );
    assert_eq!(
        code(FieldType::BigInt, false, false),
        "a: t.field({ type: \"String\", resolve: (parent) => parent.a?.toString(), nullable: true })"
    );
    assert_eq!(
        code(FieldType::BigInt, false, true),
        "a: t.field({ type: [\"String\"], resolve: (parent) => parent.a?.map(b => b.toString()), nullable: true })"
    );
    assert_eq!(
        code(FieldType::Bytes, true, false),
        "a: t.field({ type: \"String\", resolve: (parent) => parent.a?.toString('base64'), nullable: false })"
    );
    assert_eq!(
        code(FieldType::Bytes, false, true),
        "a: t.field({ type: [\"String\"], resolve: (parent) => parent.a?.map(b => b.toString('base64')), nullable: true })"
    );
    assert_eq!(
        code(FieldType::Enum("Role".to_string()), true, false),
        "a: t.field({ type: Role, resolve: (parent) => parent.a, nullable: false })"
    );
    assert_eq!(
        code(FieldType::Enum("Role".to_string()), false, true),
        "a: t.field({ type: [Role], resolve: (parent) => parent.a, nullable: true })"
    );
    assert_eq!(
        code(FieldType::Model("User".to_string()), false, true),
        "a: t.exposeString(\"a\", { nullable: true })"
    );
}

#[test]
fn what_a_model_uses() {
    let s = schema();
    let post = &s.models[1];
    assert_eq!(collect_enum_types(post), vec!["Status"]);
    assert_eq!(collect_foreign_keys(post), vec!["authorId"]);
    assert_eq!(collect_foreign_keys(&s.models[0]), Vec::<String>::new());
    assert_eq!(relation_input_name_of("Post", "User", false), "PostUserRelationInput");
    assert_eq!(relation_input_name_of("Post", "Comment", true), "PostCommentListRelationInput");
    let twice = parse_schema("enum E {\n A\n}\nenum F {\n B\n}\nmodel M {\n a E\n b F\n c E\n}\n");
    assert_eq!(collect_enum_types(&twice.models[0]), vec!["E", "F"]);
}

#[test]
fn create_input_of_a_model() {
    let s = schema();
    let file = generate_create_input(&s.models[1], "PostCreateInput");
    assert_eq!(file.path, "inputs/PostCreateInput.ts");
    assert_eq!(
        file.content,
        "import { builder } from \"../builder\";
import { Status } from \"../enums\";
import { PostUserRelationInput, PostCommentListRelationInput } from \"./relations\";

export const PostCreateInput = builder.inputType(\"PostCreateInput\", {
  fields: (t) => ({
    id: t.int({}),
    title: t.string({required: true}),
    tags: t.stringList({}),
    status: t.field({ type: Status}),
    author: t.field({ type: PostUserRelationInput, required: true }),
  }),
});
"
    );
    let file = generate_relation_create_input(&s.models[2]);
    assert_eq!(file.path, "inputs/CommentRelationCreateInput.ts");
    assert_eq!(
        file.content,
        "import { builder } from \"../builder\";
import { CommentPostRelationInput } from \"./relations\";

export const CommentRelationCreateInput = builder.inputType(\"CommentRelationCreateInput\", {
  fields: (t) => ({
    id: t.int({}),
    post: t.field({ type: CommentPostRelationInput }),
  }),
});
"
    );
}

#[test]
fn update_input_of_a_model() {
    let s = schema();
    let file = generate_update_input(&s.models[1]);
    assert_eq!(file.path, "inputs/PostUpdateInput.ts");
    assert_eq!(
        file.content,
        "import { builder } from \"../builder\";
import { Status } from \"../enums\";
import { PostUserRelationInput, PostCommentListRelationInput } from \"./relations\";

export const PostUpdateInput = builder.inputType(\"PostUpdateInput\", {
  fields: (t) => ({
    title: t.string({}),
    tags: t.stringList({}),
    status: t.field({ type: Status}),
    author: t.field({ type: PostUserRelationInput }),
    updatedAt: t.field({ type: \"DateTime\"}),
  }),
});
"
    );
}

#[test]
fn where_inputs_of_a_model() {
    let s = schema();
    let file = generate_where_input(&s.models[1]);
    assert_eq!(file.path, "inputs/PostWhereInput.ts");
    assert_eq!(
        file.content,
        "import { builder } from \"../builder\";
import { StringFilter, IntFilter, FloatFilter, BoolFilter, DateTimeFilter } from \"./filters\";

export const PostWhereInput = builder.inputType(\"PostWhereInput\", {
  fields: (t) => ({
    AND: t.field({ type: ['PostWhereInput'] as any }),
    OR: t.field({ type: ['PostWhereInput'] as any }),
    NOT: t.field({ type: ['PostWhereInput'] as any }),
    id: t.field({ type: IntFilter }),
    title: t.field({ type: StringFilter }),
    tags: t.field({ type: StringFilter }),
    status: t.field({ type: StringFilter }),
    authorId: t.field({ type: IntFilter }),
    updatedAt: t.field({ type: DateTimeFilter }),
  }),
});
"
    );
    let file = generate_where_unique_input(&s.models[0]);
    assert_eq!(file.path, "inputs/UserWhereUniqueInput.ts");
    assert_eq!(
        file.content,
        "import { builder } from \"../builder\";

export const UserWhereUniqueInput = builder.inputType(\"UserWhereUniqueInput\", {
  fields: (t) => ({
    id: t.int({required: true}),
    email: t.string({required: true}),
  }),
});
"
    );
    let file = generate_where_unique_input_for_relations(&s.models[0]);
    assert_eq!(file.path, "inputs/UserWhereUniqueRelationInput.ts");
    assert_eq!(
        file.content,
        "import { builder } from \"../builder\";

export const UserWhereUniqueRelationInput = builder.inputType(\"UserWhereUniqueRelationInput\", {
  fields: (t) => ({
    id: t.int({}),
    email: t.string({}),
  }),
});
"
    );
    let file = generate_order_by_input(&s.models[0]);
    assert_eq!(file.path, "inputs/UserOrderByInput.ts");
    assert_eq!(
        file.content,
        "import { builder } from \"../builder\";
import { SortOrder } from \"../enums\";

export const UserOrderByInput = builder.inputType(\"UserOrderByInput\", {
  fields: (t) => ({
    id: t.field({ type: SortOrder }),
    email: t.field({ type: SortOrder }),
  }),
});
"
    );
}

#[test]
fn seven_input_files_for_a_model() {
    let s = schema();
    let files = generate_inputs(&s.models[0]);
    let paths: Vec<&str> = files.iter().map(|f| f.path.as_str()).collect();
    assert_eq!(
        paths,
        vec![
            "inputs/UserCreateInput.ts",
            "inputs/UserUpdateInput.ts",
            "inputs/UserWhereInput.ts",
            "inputs/UserWhereUniqueInput.ts",
            "inputs/UserOrderByInput.ts",
            "inputs/UserWhereUniqueRelationInput.ts",
            "inputs/UserRelationCreateInput.ts",
        ]
    );
    assert_eq!(files[0], generate_create_input(&s.models[0], "UserCreateInput"));
    assert_eq!(files[6], generate_relation_create_input(&s.models[0]));
}

#[test]
fn object_type_of_a_model() {
    let s = schema();
    let file = generate_model(&s.models[2]);
    assert_eq!(file.path, "models/Comment.ts");
    assert_eq!(
        file.content,
        "import { builder } from \"../builder\";
import { PostWhereInput } from \"../inputs/PostWhereInput\";
import { PostOrderByInput } from \"../inputs/PostOrderByInput\";

export const Comment = builder.prismaObject(\"Comment\", {
  fields: (t) => ({
    id: t.exposeInt(\"id\", { nullable: false }),
    postId: t.exposeInt(\"postId\", { nullable: true }),
    post: t.relation(\"post\", {
      nullable: true,
      query: (args) => ({
        where: args.where,
      }),
      args: {
        where: t.arg({ type: PostWhereInput }),
      },
    }),
  }),
});
"
    );
    let file = generate_model(&s.models[0]);
    assert_eq!(
        file.content,
        "import { builder } from \"../builder\";
import { PostWhereInput } from \"../inputs/PostWhereInput\";
import { PostOrderByInput } from \"../inputs/PostOrderByInput\";

export const User = builder.prismaObject(\"User\", {
  fields: (t) => ({
    id: t.exposeInt(\"id\", { nullable: false }),
    email: t.exposeString(\"email\", { nullable: false }),
    posts: t.relation(\"posts\", {
      query: (args) => ({
        where: args.where,
        take: args.first,
        skip: args.last ? -args.last : undefined,
        orderBy: args.orderBy,
      }),
      args: {
        where: t.arg({ type: PostWhereInput }),
        first: t.arg.int(),
        last: t.arg.int(),
        orderBy: t.arg({ type: [PostOrderByInput] }),
      },
    }),
  }),
});
"
    );
    let file = generate_model(&s.models[1]);
    assert!(file.content.starts_with(
        "import { builder } from \"../builder\";\nimport { Status } from \"../enums\";\nimport { UserWhereInput } from \"../inputs/UserWhereInput\";\nimport { UserOrderByInput } from \"../inputs/UserOrderByInput\";\nimport { CommentWhereInput } from \"../inputs/CommentWhereInput\";\nimport { CommentOrderByInput } from \"../inputs/CommentOrderByInput\";\n\nexport const Post = "
    ));
    assert!(file.content.contains("    author: t.relation(\"author\", {\n      query: (args) => ({\n"));
}

#[test]
fn relation_inputs_of_a_schema() {
    let s = schema();
    let inputs = collect_relation_inputs(&s.models);
    let found: Vec<(&str, &str, &str, bool)> = inputs
        .iter()
        .map(|i| (i.name.as_str(), i.model.as_str(), i.related_model.as_str(), i.is_list))
        .collect();
    assert_eq!(
        found,
        vec![
            ("UserPostListRelationInput", "User", "Post", true),
            ("PostUserRelationInput", "Post", "User", false),
            ("PostCommentListRelationInput", "Post", "Comment", true),
            ("CommentPostRelationInput", "Comment", "Post", false),
        ]
    );
    let file = generate_all_relation_inputs(&s);
    assert_eq!(file.path, "inputs/relations.ts");
    assert!(file.content.starts_with(
        "import { builder } from \"../builder\";
import { PostWhereUniqueRelationInput } from \"./PostWhereUniqueRelationInput\";
import { PostRelationCreateInput } from \"./PostRelationCreateInput\";
import { UserWhereUniqueRelationInput } from \"./UserWhereUniqueRelationInput\";
import { UserRelationCreateInput } from \"./UserRelationCreateInput\";
import { CommentWhereUniqueRelationInput } from \"./CommentWhereUniqueRelationInput\";
import { CommentRelationCreateInput } from \"./CommentRelationCreateInput\";

export const UserPostListRelationInput = builder.inputType(\"UserPostListRelationInput\", {
  fields: (t) => ({
    connect: t.field({ type: [PostWhereUniqueRelationInput] }),
    create: t.field({ type: [PostRelationCreateInput] }),
    disconnect: t.field({ type: [PostWhereUniqueRelationInput] }),
  }),
});

export const PostUserRelationInput = builder.inputType(\"PostUserRelationInput\", {
  fields: (t) => ({
    connect: t.field({ type: UserWhereUniqueRelationInput }),
    create: t.field({ type: UserRelationCreateInput }),
    disconnect: t.field({ type: UserWhereUniqueRelationInput }),
  }),
});

"
    ));
    let none = generate_all_relation_inputs(&parse_schema(""));
    assert_eq!(none.content, "import { builder } from \"../builder\";\n\n");
}

#[test]
fn enums_file_of_a_schema() {
    let base = generate_base_enums();
    assert_eq!(base.path, "enums/index.ts");
    assert_eq!(base.content, BASE_ENUMS_TEXT);
    assert!(BASE_ENUMS_TEXT.starts_with("import { builder } from \"../builder\";\n\n// SortOrder enum\n"));
    assert!(BASE_ENUMS_TEXT.ends_with("  values: [\"default\", \"insensitive\"] as const,\n});\n"));
    let file = generate_schema_enums(&schema(), "BASE");
    assert_eq!(file.path, "enums/index.ts");
    assert_eq!(
        file.content,
        "BASE\n// Status enum\nexport const Status = builder.enumType(\"Status\", {\n  values: [\"DRAFT\", \"PUBLISHED\"] as const,\n});\n"
    );
    let file = generate_schema_enums(&parse_schema("enum A {\n}\nenum B {\n X\n}\n"), "");
    assert_eq!(
        file.content,
        "\n// A enum\nexport const A = builder.enumType(\"A\", {\n  values: [] as const,\n});\n\n// B enum\nexport const B = builder.enumType(\"B\", {\n  values: [\"X\"] as const,\n});\n"
    );
}

#[test]
fn shared_files() {
    let filters = generate_filters();
    assert_eq!(filters.path, "inputs/filters.ts");
    assert_eq!(filters.content, FILTERS_TEXT);
    assert!(FILTERS_TEXT.contains("export const NestedDateTimeFilter = builder.inputType(\"NestedDateTimeFilter\", {"));
    assert_eq!(FILTERS_TEXT.matches("export const ").count(), 10);
    let builder = generate_helpers();
    assert_eq!(builder.path, "builder.ts");
    assert_eq!(builder.content, BUILDER_TEXT);
    assert!(BUILDER_TEXT.starts_with("import SchemaBuilder from \"@pothos/core\";\n"));
    assert!(BUILDER_TEXT.ends_with("builder.queryType({});\nbuilder.mutationType({});\n"));
}

#[test]
fn resolver_of_each_operation() {
    let s = schema();
    let post = &s.models[1];
    let file = create_one::generate(post);
    assert_eq!(file.path, "resolvers/createOnePost.ts");
    assert_eq!(
        file.content,
        "import { builder } from \"../builder\";
import { Post } from \"../models/Post\";
import { PostCreateInput } from \"../inputs/PostCreateInput\";

builder.mutationField(\"createOnePost\", (t) =>
  t.prismaField({
    nullable: false,
    type: \"Post\",
    args: {
      data: t.arg({ type: PostCreateInput, required: true }),
    },
    resolve: async (query, _root, args, ctx) => {
      return ctx.prisma.post.create({
        ...query,
        data: args.data,
      });
    },
  })
);
"
    );
    let file = find_many::generate(post);
    assert_eq!(file.path, "resolvers/findManyPost.ts");
    assert!(file.content.contains("builder.queryField(\"posts\", (t) =>\n"));
    assert!(file.content.contains("      return ctx.prisma.post.findMany({\n"));
    assert!(file.content.contains("      orderBy: t.arg({ type: [PostOrderByInput] }),\n"));
    let file = find_unique::generate(post);
    assert_eq!(file.path, "resolvers/findUniquePost.ts");
    assert!(file.content.contains("builder.queryField(\"post\", (t) =>\n"));
    assert!(file.content.contains("      return ctx.prisma.post.findUnique({\n"));
    let file = update_one::generate(post);
    assert_eq!(file.path, "resolvers/updateOnePost.ts");
    assert!(file.content.contains("builder.mutationField(\"updateOnePost\", (t) =>\n"));
    assert!(file.content.contains("      data: t.arg({ type: PostUpdateInput, required: true }),\n"));
    let file = aggregate::generate(post);
    assert_eq!(file.path, "resolvers/aggregatePost.ts");
    assert!(file.content.contains("const PostAggregateResult = builder.simpleObject(\"AggregatePost\", {\n"));
    assert!(file.content.contains("builder.queryField(\"aggregatePost\", (t) =>\n"));
    assert!(file.content.contains("      const result = await ctx.prisma.post.aggregate({\n"));
    let file = create_many::generate(post);
    assert_eq!(file.path, "resolvers/createManyPost.ts");
    assert!(file.content.contains("import { PostCreateManyInput } from \"../inputs/PostCreateManyInput\";\n"));
    assert!(file.content.contains("builder.mutationField(\"createManyPost\", (t) =>\n"));
    assert!(file.content.contains("      const result = await ctx.prisma.post.createMany({\n"));
}

#[test]
fn the_two_spellings_in_a_resolver() {
    let s = parse_schema("model user_profile {\n  id Int @id\n}\n");
    let file = find_many::generate(&s.models[0]);
    assert_eq!(file.path, "resolvers/findManyuser_profile.ts");
    assert!(file.content.contains("builder.queryField(\"userProfiles\", (t) =>\n"));
    assert!(file.content.contains("      return ctx.prisma.user_profile.findMany({\n"));
    let file = aggregate::generate(&s.models[0]);
    assert!(file.content.contains("builder.queryField(\"aggregateUser_profile\", (t) =>\n"));
    assert_eq!(capitalize_first("user"), "User");
    assert_eq!(capitalize_first(""), "");
}

#[test]
fn resolvers_defined_by_hand_are_left_out() {
    let s = schema();
    let post = &s.models[1];
    let paths = |manual: &ManualResolvers| -> Vec<String> {
        generate_resolvers(post, &s, manual).iter().map(|f| f.path.clone()).collect()
    };
    let mut manual = ManualResolvers::new();
    assert_eq!(
        paths(&manual),
        vec![
            "resolvers/createOnePost.ts",
            "resolvers/findManyPost.ts",
            "resolvers/findUniquePost.ts",
            "resolvers/aggregatePost.ts",
            "resolvers/updateOnePost.ts",
        ]
    );
    manual.insert_query("posts".to_string());
    manual.insert_mutation("updateOnePost".to_string());
    manual.insert_mutation("post".to_string());
    assert_eq!(
        paths(&manual),
        vec![
            "resolvers/createOnePost.ts",
            "resolvers/findUniquePost.ts",
            "resolvers/aggregatePost.ts",
        ]
    );
    manual.insert_mutation("createOnePost".to_string());
    manual.insert_query("post".to_string());
    manual.insert_query("aggregatePost".to_string());
    assert_eq!(paths(&manual), Vec::<String>::new());
}

#[test]
fn index_of_a_schema() {
    let s = parse_schema("model Post {\n  id Int @id\n}\n");
    let mut manual = ManualResolvers::new();
    let file = generate_index(&s, &manual);
    assert_eq!(file.path, "index.ts");
    assert_eq!(
        file.content,
        "// Auto-generated by prisma-pothos-generator
// DO NOT EDIT MANUALLY

// Builder (must be imported first)
import { builder, prisma } from './builder';
export { builder, prisma };

// Enums
export * from './enums';

// Filters
export * from './inputs/filters';

// Models
export * from './models/Post';

// Inputs
export * from './inputs/PostCreateInput';
export * from './inputs/PostCreateManyInput';
export * from './inputs/PostUpdateInput';
export * from './inputs/PostWhereInput';
export * from './inputs/PostWhereUniqueInput';
export * from './inputs/PostOrderByInput';

// Resolvers
export * from './resolvers/createOnePost';
export * from './resolvers/createManyPost';
export * from './resolvers/findManyPost';
export * from './resolvers/findUniquePost';
export * from './resolvers/aggregatePost';
export * from './resolvers/updateOnePost';

// Build schema
export const schema = builder.toSchema();
"
    );
    manual.insert_mutation("createManyPost".to_string());
    manual.insert_query("posts".to_string());
    let file = generate_index(&s, &manual);
    assert!(file.content.contains(
        "// Resolvers\nexport * from './resolvers/createOnePost';\nexport * from './resolvers/findUniquePost';\nexport * from './resolvers/aggregatePost';\nexport * from './resolvers/updateOnePost';\n\n// Build schema\n"
    ));
}

#[test]
fn all_files_in_order() {
    let s = schema();
    let manual = ManualResolvers::new();
    let files = generate(&s, &manual);
    let paths: Vec<&str> = files.iter().map(|f| f.path.as_str()).collect();
    let mut expected = vec!["builder.ts", "enums/index.ts", "enums/index.ts", "inputs/filters.ts"];
    let per_model: Vec<String> = ["User", "Post", "Comment"]
        .iter()
        .flat_map(|m| {
            vec![
                format!("models/{}.ts", m),
                format!("inputs/{}CreateInput.ts", m),
                format!("inputs/{}UpdateInput.ts", m),
                format!("inputs/{}WhereInput.ts", m),
                format!("inputs/{}WhereUniqueInput.ts", m),
                format!("inputs/{}OrderByInput.ts", m),
                format!("inputs/{}WhereUniqueRelationInput.ts", m),
                format!("inputs/{}RelationCreateInput.ts", m),
                format!("resolvers/createOne{}.ts", m),
                format!("resolvers/findMany{}.ts", m),
                format!("resolvers/findUnique{}.ts", m),
                format!("resolvers/aggregate{}.ts", m),
                format!("resolvers/updateOne{}.ts", m),
            ]
        })
        .collect();
    expected.extend(per_model.iter().map(|p| p.as_str()));
    expected.push("inputs/relations.ts");
    expected.push("index.ts");
    assert_eq!(paths, expected);
    assert_eq!(files[1].content, BASE_ENUMS_TEXT);
    assert!(files[2].content.starts_with(BASE_ENUMS_TEXT));
    assert!(files[2].content.ends_with("  values: [\"DRAFT\", \"PUBLISHED\"] as const,\n});\n"));
    assert_eq!(files[4], generate_model(&s.models[0]));
    let empty = generate(&parse_schema(""), &manual);
    assert_eq!(empty.len(), 6);
}

#[test]
fn files_are_appended_in_order() {
    let file = |p: &str| GeneratedFile { path: p.to_string(), content: p.to_uppercase() };
    let mut files = vec![file("a")];
    append_files(&mut files, vec![file("b"), file("c")]);
    assert_eq!(files, vec![file("a"), file("b"), file("c")]);
    append_files(&mut files, vec![]);
    assert_eq!(files.len(), 3);
}
