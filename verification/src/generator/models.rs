//! The object type of a model: its scalar fields, exposed one by one, and its
//! relations, each with the arguments by which it is loaded.

use crate::generator::inputs::{field_lines, import_line};
use crate::generator::{GeneratedFile, GeneratedFileView};
use crate::names::{derived_names, get_prisma_name};
use crate::schema::{Field, FieldType, FieldTypeView, FieldView, Model, ModelView};
use crate::text::{glue3, glue5, has_name, join_with, lemma_view_all_push, view_all};
use vstd::prelude::*;

verus! {

/// The option that marks a field that is not required.
pub open spec fn nullable_option(f: FieldView) -> Seq<char> {
    if f.is_required {
        Seq::empty()
    } else {
        "nullable: true"@
    }
}

/// The code of a field that is exposed as it is, by the method `method` for a
/// single value and its list form for a list.
pub open spec fn exposed_code(f: FieldView, method: Seq<char>) -> Seq<char> {
    if f.is_list {
        f.name + ": t."@ + method + "List(\""@ + f.name + "\", { "@ + nullable_option(f) + " })"@
    } else {
        f.name + ": t."@ + method + "(\""@ + f.name + "\""@ + (if f.is_required {
            ", { nullable: false }"@
        } else {
            ", { nullable: true }"@
        }) + ")"@
    }
}

/// The code of a field that is resolved from its parent: `ty` is its type in
/// the layer, `in_list` and `single` what is applied to the value of the
/// parent for a list and for a single value.
pub open spec fn resolved_code(f: FieldView, ty: Seq<char>, in_list: Seq<char>, single: Seq<char>) -> Seq<
    char,
> {
    if f.is_list {
        f.name + ": t.field({ type: ["@ + ty + "], resolve: (parent) => parent."@ + f.name
            + in_list + ", "@ + nullable_option(f) + " })"@
    } else {
        f.name + ": t.field({ type: "@ + ty + ", resolve: (parent) => parent."@ + f.name + single
            + (if f.is_required {
            ", nullable: false"@
        } else {
            ", nullable: true"@
        }) + " })"@
    }
}

/// The code of a field of an object type.
pub open spec fn field_code(f: FieldView) -> Seq<char> {
    match f.field_type {
        FieldTypeView::String => exposed_code(f, "exposeString"@),
        FieldTypeView::Int => exposed_code(f, "exposeInt"@),
        FieldTypeView::Float => exposed_code(f, "exposeFloat"@),
        FieldTypeView::Boolean => exposed_code(f, "exposeBoolean"@),
        FieldTypeView::DateTime => resolved_code(
            f,
            "\"DateTime\""@,
            Seq::empty(),
            Seq::empty(),
        ),
        FieldTypeView::Json => resolved_code(f, "\"JSON\""@, Seq::empty(), Seq::empty()),
        FieldTypeView::Decimal => resolved_code(
            f,
            "\"String\""@,
            "?.map(d => d.toString())"@,
            "?.toString()"@,
        ),
        FieldTypeView::BigInt => resolved_code(
            f,
            "\"String\""@,
            "?.map(b => b.toString())"@,
            "?.toString()"@,
        ),
        FieldTypeView::Bytes => resolved_code(
            f,
            "\"String\""@,
            "?.map(b => b.toString('base64'))"@,
            "?.toString('base64')"@,
        ),
        FieldTypeView::Enum(name) => resolved_code(f, name, Seq::empty(), Seq::empty()),
        FieldTypeView::Model(_) => f.name + ": t.exposeString(\""@ + f.name + "\""@ + (
        if f.is_required {
            ", { nullable: false }"@
        } else {
            ", { nullable: true }"@
        }) + ")"@,
    }
}

/// The enums that the fields use, with or without a relation, each once, in
/// the order in which they first occur.
pub open spec fn all_enum_types_used(fields: Seq<FieldView>) -> Seq<Seq<char>>
    decreases fields.len(),
{
    if fields.len() == 0 {
        Seq::empty()
    } else {
        let before = all_enum_types_used(fields.drop_last());
        match fields.last().field_type {
            FieldTypeView::Enum(name) => if before.contains(name) {
                before
            } else {
                before.push(name)
            },
            _ => before,
        }
    }
}

/// The models that the fields are related to, each once, in the order in
/// which they first occur.
pub open spec fn related_models(fields: Seq<FieldView>) -> Seq<Seq<char>>
    decreases fields.len(),
{
    if fields.len() == 0 {
        Seq::empty()
    } else {
        let before = related_models(fields.drop_last());
        match (fields.last().relation, fields.last().field_type) {
            (Some(_), FieldTypeView::Model(related)) => if before.contains(related) {
                before
            } else {
                before.push(related)
            },
            _ => before,
        }
    }
}

/// The two lines that import the input types of the model `related`.
pub open spec fn related_import(related: Seq<char>) -> Seq<char> {
    let names = derived_names(related);
    "import { "@ + names.where_input + " } from \"../inputs/"@ + names.where_input
        + "\";\nimport { "@ + names.order_by_input + " } from \"../inputs/"@
        + names.order_by_input + "\";\n"@
}

/// The imports of the input types of all of `models`.
pub open spec fn related_imports(models: Seq<Seq<char>>) -> Seq<char>
    decreases models.len(),
{
    if models.len() == 0 {
        Seq::empty()
    } else {
        related_imports(models.drop_last()) + related_import(models.last())
    }
}

/// The line of a field without a relation; nothing for one with a relation.
pub open spec fn scalar_line(f: FieldView) -> Seq<char> {
    if f.relation is Some {
        Seq::empty()
    } else {
        "    "@ + field_code(f) + ",\n"@
    }
}

/// The lines of a field with a relation to a model; nothing for any other.
pub open spec fn relation_lines(f: FieldView) -> Seq<char> {
    match (f.relation, f.field_type) {
        (Some(_), FieldTypeView::Model(related)) => {
            let names = derived_names(related);
            if f.is_list {
                "    "@ + f.name + ": t.relation(\""@ + f.name
                    + r#"", {
      query: (args) => ({
        where: args.where,
        take: args.first,
        skip: args.last ? -args.last : undefined,
        orderBy: args.orderBy,
      }),
      args: {
        where: t.arg({ type: "#@
                    + names.where_input
                    + r#" }),
        first: t.arg.int(),
        last: t.arg.int(),
        orderBy: t.arg({ type: ["#@
                    + names.order_by_input + "] }),\n      },\n    }),\n"@
            } else {
                "    "@ + f.name + ": t.relation(\""@ + f.name + "\", {\n"@ + (if f.is_required {
                    Seq::empty()
                } else {
                    "      nullable: true,\n"@
                })
                    + r#"      query: (args) => ({
        where: args.where,
      }),
      args: {
        where: t.arg({ type: "#@
                    + names.where_input + " }),\n      },\n    }),\n"@
            }
        },
        _ => Seq::empty(),
    }
}

/// The text of the object type of `m`.
pub open spec fn model_text(m: ModelView) -> Seq<char> {
    "import { builder } from \"../builder\";\n"@ + import_line(
        all_enum_types_used(m.fields),
        "../enums"@,
    ) + related_imports(related_models(m.fields)) + "\nexport const "@ + m.name
        + " = builder.prismaObject(\""@ + m.name + "\", {\n  fields: (t) => ({\n"@ + field_lines(
        m.fields,
        |f: FieldView| scalar_line(f),
    ) + field_lines(m.fields, |f: FieldView| relation_lines(f)) + "  }),\n});\n"@
}

/// The file of the object type of `m`.
pub open spec fn model_file(m: ModelView) -> GeneratedFileView {
    GeneratedFileView { path: "models/"@ + m.name + ".ts"@, content: model_text(m) }
}

fn nullable_option_of(f: &Field) -> (r: &'static str)
    ensures
        r@ == nullable_option(f@),
{
    if f.is_required {
        proof {
            reveal_strlit("");
            assert(""@ =~= Seq::<char>::empty());
        }
        ""
    } else {
        "nullable: true"
    }
}

fn exposed_code_of(f: &Field, method: &str) -> (r: String)
    ensures
        r@ == exposed_code(f@, method@),
{
    let name = f.name.as_str();
    if f.is_list {
        let mut out = glue5(name, ": t.", method, "List(\"", name);
        out.append("\", { ");
        out.append(nullable_option_of(f));
        out.append(" })");
        out
    } else {
        let mut out = glue5(name, ": t.", method, "(\"", name);
        out.append("\"");
        if f.is_required {
            out.append(", { nullable: false }");
        } else {
            out.append(", { nullable: true }");
        }
        out.append(")");
        out
    }
}

fn resolved_code_of(f: &Field, ty: &str, in_list: &str, single: &str) -> (r: String)
    ensures
        r@ == resolved_code(f@, ty@, in_list@, single@),
{
    let name = f.name.as_str();
    if f.is_list {
        let mut out = glue5(name, ": t.field({ type: [", ty, "], resolve: (parent) => parent.", name);
        out.append(in_list);
        out.append(", ");
        out.append(nullable_option_of(f));
        out.append(" })");
        out
    } else {
        let mut out = glue5(name, ": t.field({ type: ", ty, ", resolve: (parent) => parent.", name);
        out.append(single);
        if f.is_required {
            out.append(", nullable: false");
        } else {
            out.append(", nullable: true");
        }
        out.append(" })");
        out
    }
}

/// The code of a field of an object type.
pub fn generate_field_code(field: &Field) -> (r: String)
    ensures
        r@ == field_code(field@),
{
    proof {
        reveal_strlit("");
        assert(""@ =~= Seq::<char>::empty());
    }
    match &field.field_type {
        FieldType::String => exposed_code_of(field, "exposeString"),
        FieldType::Int => exposed_code_of(field, "exposeInt"),
        FieldType::Float => exposed_code_of(field, "exposeFloat"),
        FieldType::Boolean => exposed_code_of(field, "exposeBoolean"),
        FieldType::DateTime => resolved_code_of(field, "\"DateTime\"", "", ""),
        FieldType::Json => resolved_code_of(field, "\"JSON\"", "", ""),
        FieldType::Decimal => resolved_code_of(
            field,
            "\"String\"",
            "?.map(d => d.toString())",
            "?.toString()",
        ),
        FieldType::BigInt => resolved_code_of(
            field,
            "\"String\"",
            "?.map(b => b.toString())",
            "?.toString()",
        ),
        FieldType::Bytes => resolved_code_of(
            field,
            "\"String\"",
            "?.map(b => b.toString('base64'))",
            "?.toString('base64')",
        ),
        FieldType::Enum(name) => resolved_code_of(field, name.as_str(), "", ""),
        FieldType::Model(_) => {
            let name = field.name.as_str();
            let mut out = glue3(name, ": t.exposeString(\"", name);
            out.append("\"");
            if field.is_required {
                out.append(", { nullable: false }");
            } else {
                out.append(", { nullable: true }");
            }
            out.append(")");
            out
        },
    }
}

fn collect_all_enum_types(model: &Model) -> (r: Vec<String>)
    ensures
        view_all(r@) == all_enum_types_used(model@.fields),
{
    let mut used: Vec<String> = Vec::new();
    let mut i: usize = 0;
    let ghost all = view_all(model.fields@);
    proof {
        assert(all.take(0).len() == 0);
        assert(view_all(used@) =~= Seq::<Seq<char>>::empty());
    }
    while i < model.fields.len()
        invariant
            i <= model.fields.len(),
            all == view_all(model.fields@),
            view_all(used@) == all_enum_types_used(all.take(i as int)),
        decreases model.fields.len() - i,
    {
        proof {
            assert(all.take(i + 1).drop_last() =~= all.take(i as int));
            assert(all.take(i + 1).last() == model.fields@[i as int]@);
        }
        match &model.fields[i].field_type {
            FieldType::Enum(name) => {
                if !has_name(&used, name.as_str()) {
                    let owned = name.clone();
                    proof {
                        lemma_view_all_push(used@, owned);
                    }
                    used.push(owned);
                }
            },
            _ => {},
        }
        i += 1;
    }
    proof {
        assert(all.take(i as int) =~= all);
    }
    used
}

fn collect_related_models(model: &Model) -> (r: Vec<String>)
    ensures
        view_all(r@) == related_models(model@.fields),
{
    let mut used: Vec<String> = Vec::new();
    let mut i: usize = 0;
    let ghost all = view_all(model.fields@);
    proof {
        assert(all.take(0).len() == 0);
        assert(view_all(used@) =~= Seq::<Seq<char>>::empty());
    }
    while i < model.fields.len()
        invariant
            i <= model.fields.len(),
            all == view_all(model.fields@),
            view_all(used@) == related_models(all.take(i as int)),
        decreases model.fields.len() - i,
    {
        proof {
            assert(all.take(i + 1).drop_last() =~= all.take(i as int));
            assert(all.take(i + 1).last() == model.fields@[i as int]@);
        }
        let field = &model.fields[i];
        if field.relation.is_some() {
            match &field.field_type {
                FieldType::Model(related) => {
                    if !has_name(&used, related.as_str()) {
                        let owned = related.clone();
                        proof {
                            lemma_view_all_push(used@, owned);
                        }
                        used.push(owned);
                    }
                },
                _ => {},
            }
        }
        i += 1;
    }
    proof {
        assert(all.take(i as int) =~= all);
    }
    used
}

fn related_import_of(related: &str) -> (r: String)
    ensures
        r@ == related_import(related@),
{
    let names = get_prisma_name(related);
    let mut out = glue5(
        "import { ",
        names.where_input.as_str(),
        " } from \"../inputs/",
        names.where_input.as_str(),
        "\";\nimport { ",
    );
    out.append(names.order_by_input.as_str());
    out.append(" } from \"../inputs/");
    out.append(names.order_by_input.as_str());
    out.append("\";\n");
    out
}

fn scalar_line_of(f: &Field) -> (r: String)
    ensures
        r@ == scalar_line(f@),
{
    if f.relation.is_some() {
        String::new()
    } else {
        let code = generate_field_code(f);
        glue3("    ", code.as_str(), ",\n")
    }
}

fn relation_lines_of(f: &Field) -> (r: String)
    ensures
        r@ == relation_lines(f@),
{
    if f.relation.is_none() {
        return String::new();
    }
    match &f.field_type {
        FieldType::Model(related) => {
            let names = get_prisma_name(related.as_str());
            let name = f.name.as_str();
            if f.is_list {
                let mut out = glue5(
                    "    ",
                    name,
                    ": t.relation(\"",
                    name,
                    r#"", {
      query: (args) => ({
        where: args.where,
        take: args.first,
        skip: args.last ? -args.last : undefined,
        orderBy: args.orderBy,
      }),
      args: {
        where: t.arg({ type: "#,
                );
                out.append(names.where_input.as_str());
                out.append(
                    r#" }),
        first: t.arg.int(),
        last: t.arg.int(),
        orderBy: t.arg({ type: ["#,
                );
                out.append(names.order_by_input.as_str());
                out.append("] }),\n      },\n    }),\n");
                out
            } else {
                let mut out = glue5("    ", name, ": t.relation(\"", name, "\", {\n");
                if f.is_required {
                    proof {
                        assert(out@ + Seq::<char>::empty() =~= out@);
                    }
                } else {
                    out.append("      nullable: true,\n");
                }
                out.append(
                    r#"      query: (args) => ({
        where: args.where,
      }),
      args: {
        where: t.arg({ type: "#,
                );
                out.append(names.where_input.as_str());
                out.append(" }),\n      },\n    }),\n");
                out
            }
        },
        _ => String::new(),
    }
}

/// The object type of `model`.
pub fn generate_model(model: &Model) -> (r: GeneratedFile)
    ensures
        r@ == model_file(model@),
{
    let enums = collect_all_enum_types(model);
    let related = collect_related_models(model);
    let mut content = "import { builder } from \"../builder\";\n".to_owned();
    if enums.len() > 0 {
        let joined = join_with(&enums, ", ");
        let line = glue5("import { ", joined.as_str(), " } from \"", "../enums", "\";\n");
        content.append(line.as_str());
    } else {
        proof {
            assert(content@ + Seq::<char>::empty() =~= content@);
        }
    }
    let mut imports = String::new();
    let mut k: usize = 0;
    let ghost names = view_all(related@);
    proof {
        assert(names.take(0).len() == 0);
    }
    while k < related.len()
        invariant
            k <= related.len(),
            names == view_all(related@),
            imports@ == related_imports(names.take(k as int)),
        decreases related.len() - k,
    {
        proof {
            assert(names.take(k + 1).drop_last() =~= names.take(k as int));
            assert(names.take(k + 1).last() == related@[k as int]@);
        }
        let text = related_import_of(related[k].as_str());
        imports.append(text.as_str());
        k += 1;
    }
    proof {
        assert(names.take(k as int) =~= names);
    }
    content.append(imports.as_str());
    content.append("\nexport const ");
    content.append(model.name.as_str());
    content.append(" = builder.prismaObject(\"");
    content.append(model.name.as_str());
    content.append("\", {\n  fields: (t) => ({\n");
    let ghost all = view_all(model.fields@);
    let ghost scalar = |f: FieldView| scalar_line(f);
    let mut scalars = String::new();
    let mut i: usize = 0;
    proof {
        assert(all.take(0).len() == 0);
    }
    while i < model.fields.len()
        invariant
            i <= model.fields.len(),
            all == view_all(model.fields@),
            scalar == |f: FieldView| scalar_line(f),
            scalars@ == field_lines(all.take(i as int), scalar),
        decreases model.fields.len() - i,
    {
        proof {
            assert(all.take(i + 1).drop_last() =~= all.take(i as int));
            assert(all.take(i + 1).last() == model.fields@[i as int]@);
        }
        let text = scalar_line_of(&model.fields[i]);
        scalars.append(text.as_str());
        i += 1;
    }
    let ghost relation = |f: FieldView| relation_lines(f);
    let mut relations = String::new();
    let mut j: usize = 0;
    while j < model.fields.len()
        invariant
            j <= model.fields.len(),
            all == view_all(model.fields@),
            relation == |f: FieldView| relation_lines(f),
            relations@ == field_lines(all.take(j as int), relation),
        decreases model.fields.len() - j,
    {
        proof {
            assert(all.take(j + 1).drop_last() =~= all.take(j as int));
            assert(all.take(j + 1).last() == model.fields@[j as int]@);
        }
        let text = relation_lines_of(&model.fields[j]);
        relations.append(text.as_str());
        j += 1;
    }
    proof {
        assert(all.take(i as int) =~= all);
        assert(all.take(j as int) =~= all);
    }
    content.append(scalars.as_str());
    content.append(relations.as_str());
    content.append("  }),\n});\n");
    GeneratedFile { path: glue3("models/", model.name.as_str(), ".ts"), content: content }
}

} // verus!
