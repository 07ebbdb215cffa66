//! The emission layer: from a schema to the text of the files of the GraphQL
//! layer. Every function here computes text; none writes a file.

pub mod enums;
pub mod filters;
pub mod helpers;
pub mod inputs;
pub mod models;
pub mod relations;
pub mod resolvers;

use crate::names::{derived_names, get_prisma_name};
use crate::scanner::{ManualResolvers, ManualResolversView};
use crate::schema::{Model, ModelView, ParsedSchema, ParsedSchemaView};
use crate::text::{glue3, lemma_view_all_push, view_all};
use vstd::prelude::*;

verus! {

/// A file of the layer: its path below the output directory, and its text.
#[derive(Debug, Clone, PartialEq, Eq)]
pub struct GeneratedFile {
    pub path: String,
    pub content: String,
}

/// The view of a [`GeneratedFile`].
pub struct GeneratedFileView {
    pub path: Seq<char>,
    pub content: Seq<char>,
}

impl View for GeneratedFile {
    type V = GeneratedFileView;

    open spec fn view(&self) -> GeneratedFileView {
        GeneratedFileView { path: self.path@, content: self.content@ }
    }
}

/// What the index file begins with.
pub const INDEX_HEAD: &'static str =
    r#"// Auto-generated by prisma-pothos-generator
// DO NOT EDIT MANUALLY

// Builder (must be imported first)
import { builder, prisma } from './builder';
export { builder, prisma };

// Enums
export * from './enums';

// Filters
export * from './inputs/filters';

// Models
"#;

/// The line that exports `name` from the directory `dir`.
pub open spec fn export_line(dir: Seq<char>, name: Seq<char>) -> Seq<char> {
    "export * from './"@ + dir + name + "';\n"@
}

/// The line that exports the object type of `m`.
pub open spec fn model_export(m: ModelView) -> Seq<char> {
    export_line("models/"@, m.name)
}

/// The lines that export the input types of `m`.
pub open spec fn input_exports(m: ModelView) -> Seq<char> {
    let names = derived_names(m.name);
    export_line("inputs/"@, names.create_input) + export_line("inputs/"@, names.create_many_input)
        + export_line("inputs/"@, names.update_input) + export_line("inputs/"@, names.where_input)
        + export_line("inputs/"@, names.where_unique_input) + export_line(
        "inputs/"@,
        names.order_by_input,
    )
}

/// The line that exports the resolver `operation` of the model `model`,
/// unless `skip` holds.
pub open spec fn resolver_export(skip: bool, operation: Seq<char>, model: Seq<char>) -> Seq<char> {
    if skip {
        Seq::empty()
    } else {
        export_line("resolvers/"@, operation + model)
    }
}

/// The lines that export the resolvers of `m`: one for each of its six
/// operations that `manual` does not hold under the name of the operation.
pub open spec fn resolver_exports(m: ModelView, manual: ManualResolversView) -> Seq<char> {
    let names = derived_names(m.name);
    resolver_export(manual.mutations.contains(names.create), "createOne"@, m.name)
        + resolver_export(manual.mutations.contains(names.create_many), "createMany"@, m.name)
        + resolver_export(manual.queries.contains(names.find_many), "findMany"@, m.name)
        + resolver_export(manual.queries.contains(names.find), "findUnique"@, m.name)
        + resolver_export(manual.queries.contains(names.aggregate), "aggregate"@, m.name)
        + resolver_export(manual.mutations.contains(names.update), "updateOne"@, m.name)
}

/// The lines of `models`, one after the other, where `lines` gives those of
/// one model.
pub open spec fn model_lines(models: Seq<ModelView>, lines: spec_fn(ModelView) -> Seq<char>) -> Seq<
    char,
>
    decreases models.len(),
{
    if models.len() == 0 {
        Seq::empty()
    } else {
        model_lines(models.drop_last(), lines) + lines(models.last())
    }
}

/// The text of the index file.
pub open spec fn index_text(models: Seq<ModelView>, manual: ManualResolversView) -> Seq<char> {
    INDEX_HEAD@ + model_lines(models, |m: ModelView| model_export(m)) + "\n// Inputs\n"@
        + model_lines(models, |m: ModelView| input_exports(m)) + "\n// Resolvers\n"@ + model_lines(
        models,
        |m: ModelView| resolver_exports(m, manual),
    ) + "\n// Build schema\nexport const schema = builder.toSchema();\n"@
}

/// The index file.
pub open spec fn index_file(models: Seq<ModelView>, manual: ManualResolversView) -> GeneratedFileView {
    GeneratedFileView { path: "index.ts"@, content: index_text(models, manual) }
}

/// The files of one model: its object type, its input types, its resolvers.
pub open spec fn files_of_model(m: ModelView, manual: ManualResolversView) -> Seq<
    GeneratedFileView,
> {
    seq![models::model_file(m)] + inputs::input_files(m) + resolvers::resolver_files(m, manual)
}

/// The files of `models`, model after model.
pub open spec fn files_of_models(models: Seq<ModelView>, manual: ManualResolversView) -> Seq<
    GeneratedFileView,
>
    decreases models.len(),
{
    if models.len() == 0 {
        Seq::empty()
    } else {
        files_of_models(models.drop_last(), manual) + files_of_model(models.last(), manual)
    }
}

/// The files that every schema shares, and the enums of `schema`.
pub open spec fn opening_files(schema: ParsedSchemaView) -> Seq<GeneratedFileView> {
    seq![
        helpers::generate_helpers_file(),
        enums::base_enums_file(),
        enums::schema_enums_file(schema.enums, enums::BASE_ENUMS_TEXT@),
        filters::generate_filters_file(),
    ]
}

/// The files that are made once all models are known.
pub open spec fn closing_files(schema: ParsedSchemaView, manual: ManualResolversView) -> Seq<
    GeneratedFileView,
> {
    seq![relations::relations_file(schema.models), index_file(schema.models, manual)]
}

/// All files of the layer for `schema`, in the order in which they are to be
/// written: a later file replaces an earlier one of the same path.
pub open spec fn generated_files(schema: ParsedSchemaView, manual: ManualResolversView) -> Seq<
    GeneratedFileView,
> {
    opening_files(schema) + files_of_models(schema.models, manual) + closing_files(schema, manual)
}

/// Puts the files of `more` after those of `files`.
pub fn append_files(files: &mut Vec<GeneratedFile>, more: Vec<GeneratedFile>)
    ensures
        view_all(final(files)@) == view_all(old(files)@) + view_all(more@),
{
    let ghost before = view_all(files@);
    let mut i: usize = 0;
    proof {
        assert(before + view_all(more@).take(0) =~= before);
    }
    while i < more.len()
        invariant
            i <= more.len(),
            view_all(files@) == before + view_all(more@).take(i as int),
        decreases more.len() - i,
    {
        let file = GeneratedFile { path: more[i].path.clone(), content: more[i].content.clone() };
        proof {
            lemma_view_all_push(files@, file);
            assert((before + view_all(more@).take(i as int)).push(file@) =~= before + view_all(
                more@,
            ).take(i + 1));
        }
        files.push(file);
        i += 1;
    }
    proof {
        assert(view_all(more@).take(i as int) =~= view_all(more@));
    }
}

fn export_line_of(dir: &str, name: &str) -> (r: String)
    ensures
        r@ == export_line(dir@, name@),
{
    let mut out = glue3("export * from './", dir, name);
    out.append("';\n");
    out
}

fn input_exports_of(model: &Model) -> (r: String)
    ensures
        r@ == input_exports(model@),
{
    let names = get_prisma_name(model.name.as_str());
    let mut out = export_line_of("inputs/", names.create_input.as_str());
    out.append(export_line_of("inputs/", names.create_many_input.as_str()).as_str());
    out.append(export_line_of("inputs/", names.update_input.as_str()).as_str());
    out.append(export_line_of("inputs/", names.where_input.as_str()).as_str());
    out.append(export_line_of("inputs/", names.where_unique_input.as_str()).as_str());
    out.append(export_line_of("inputs/", names.order_by_input.as_str()).as_str());
    out
}

fn resolver_export_of(skip: bool, operation: &str, model: &str) -> (r: String)
    ensures
        r@ == resolver_export(skip, operation@, model@),
{
    if skip {
        String::new()
    } else {
        let name = crate::text::glue2(operation, model);
        export_line_of("resolvers/", name.as_str())
    }
}

fn resolver_exports_of(model: &Model, manual: &ManualResolvers) -> (r: String)
    ensures
        r@ == resolver_exports(model@, manual@),
{
    let names = get_prisma_name(model.name.as_str());
    let name = model.name.as_str();
    let mut out = resolver_export_of(
        manual.contains_mutation(names.create.as_str()),
        "createOne",
        name,
    );
    out.append(
        resolver_export_of(
            manual.contains_mutation(names.create_many.as_str()),
            "createMany",
            name,
        ).as_str(),
    );
    out.append(
        resolver_export_of(manual.contains_query(names.find_many.as_str()), "findMany", name).as_str(),
    );
    out.append(
        resolver_export_of(manual.contains_query(names.find.as_str()), "findUnique", name).as_str(),
    );
    out.append(
        resolver_export_of(manual.contains_query(names.aggregate.as_str()), "aggregate", name).as_str(),
    );
    out.append(
        resolver_export_of(manual.contains_mutation(names.update.as_str()), "updateOne", name).as_str(),
    );
    out
}

/// The index file: what the layer exports, leaving out the resolvers that
/// `manual_resolvers` holds.
pub fn generate_index(schema: &ParsedSchema, manual_resolvers: &ManualResolvers) -> (r:
    GeneratedFile)
    ensures
        r@ == index_file(schema@.models, manual_resolvers@),
{
    let ghost all = view_all(schema.models@);
    let ghost manual = manual_resolvers@;
    let ghost to_model = |m: ModelView| model_export(m);
    let ghost to_inputs = |m: ModelView| input_exports(m);
    let ghost to_resolvers = |m: ModelView| resolver_exports(m, manual);
    let mut exported_models = String::new();
    let mut exported_inputs = String::new();
    let mut exported_resolvers = String::new();
    let mut i: usize = 0;
    proof {
        assert(all.take(0).len() == 0);
    }
    while i < schema.models.len()
        invariant
            i <= schema.models.len(),
            all == view_all(schema.models@),
            manual == manual_resolvers@,
            to_model == |m: ModelView| model_export(m),
            to_inputs == |m: ModelView| input_exports(m),
            to_resolvers == |m: ModelView| resolver_exports(m, manual),
            exported_models@ == model_lines(all.take(i as int), to_model),
            exported_inputs@ == model_lines(all.take(i as int), to_inputs),
            exported_resolvers@ == model_lines(all.take(i as int), to_resolvers),
        decreases schema.models.len() - i,
    {
        proof {
            assert(all.take(i + 1).drop_last() =~= all.take(i as int));
            assert(all.take(i + 1).last() == schema.models@[i as int]@);
        }
        let model = &schema.models[i];
        exported_models.append(export_line_of("models/", model.name.as_str()).as_str());
        exported_inputs.append(input_exports_of(model).as_str());
        exported_resolvers.append(resolver_exports_of(model, manual_resolvers).as_str());
        i += 1;
    }
    proof {
        assert(all.take(i as int) =~= all);
    }
    let mut content = INDEX_HEAD.to_owned();
    content.append(exported_models.as_str());
    content.append("\n// Inputs\n");
    content.append(exported_inputs.as_str());
    content.append("\n// Resolvers\n");
    content.append(exported_resolvers.as_str());
    content.append("\n// Build schema\nexport const schema = builder.toSchema();\n");
    GeneratedFile { path: "index.ts".to_owned(), content: content }
}

/// The files of one model.
pub fn generate_for_model(model: &Model, schema: &ParsedSchema, manual_resolvers: &ManualResolvers) -> (r:
    Vec<GeneratedFile>)
    ensures
        view_all(r@) == files_of_model(model@, manual_resolvers@),
{
    let mut files: Vec<GeneratedFile> = Vec::new();
    let object = models::generate_model(model);
    proof {
        lemma_view_all_push(files@, object);
        assert(view_all(files@).push(object@) =~= seq![object@]);
    }
    files.push(object);
    append_files(&mut files, inputs::generate_inputs(model));
    append_files(&mut files, resolvers::generate_resolvers(model, schema, manual_resolvers));
    files
}

fn generate_opening(schema: &ParsedSchema) -> (r: Vec<GeneratedFile>)
    ensures
        view_all(r@) == opening_files(schema@),
{
    let mut files: Vec<GeneratedFile> = Vec::new();
    files.push(helpers::generate_helpers());
    files.push(enums::generate_base_enums());
    files.push(enums::generate_schema_enums(schema, enums::BASE_ENUMS_TEXT));
    files.push(filters::generate_filters());
    proof {
        assert(view_all(files@) =~= opening_files(schema@));
    }
    files
}

fn generate_closing(schema: &ParsedSchema, manual_resolvers: &ManualResolvers) -> (r: Vec<
    GeneratedFile,
>)
    ensures
        view_all(r@) == closing_files(schema@, manual_resolvers@),
{
    let mut files: Vec<GeneratedFile> = Vec::new();
    files.push(relations::generate_all_relation_inputs(schema));
    files.push(generate_index(schema, manual_resolvers));
    proof {
        assert(view_all(files@) =~= closing_files(schema@, manual_resolvers@));
    }
    files
}

fn generate_for_models(schema: &ParsedSchema, manual_resolvers: &ManualResolvers) -> (r: Vec<
    GeneratedFile,
>)
    ensures
        view_all(r@) == files_of_models(schema@.models, manual_resolvers@),
{
    let mut files: Vec<GeneratedFile> = Vec::new();
    let mut i: usize = 0;
    let ghost all = view_all(schema.models@);
    let ghost manual = manual_resolvers@;
    proof {
        assert(all.take(0).len() == 0);
        assert(view_all(files@) =~= Seq::<GeneratedFileView>::empty());
    }
    while i < schema.models.len()
        invariant
            i <= schema.models.len(),
            all == view_all(schema.models@),
            manual == manual_resolvers@,
            view_all(files@) == files_of_models(all.take(i as int), manual),
        decreases schema.models.len() - i,
    {
        proof {
            assert(all.take(i + 1).drop_last() =~= all.take(i as int));
            assert(all.take(i + 1).last() == schema.models@[i as int]@);
        }
        append_files(&mut files, generate_for_model(&schema.models[i], schema, manual_resolvers));
        i += 1;
    }
    proof {
        assert(all.take(i as int) =~= all);
    }
    files
}

/// All files of the layer for `schema`, in the order in which they are to be
/// written, leaving out the resolvers that `manual_resolvers` holds.
pub fn generate(schema: &ParsedSchema, manual_resolvers: &ManualResolvers) -> (r: Vec<GeneratedFile>)
    ensures
        view_all(r@) == generated_files(schema@, manual_resolvers@),
{
    let mut files = generate_opening(schema);
    append_files(&mut files, generate_for_models(schema, manual_resolvers));
    append_files(&mut files, generate_closing(schema, manual_resolvers));
    files
}

} // verus!
