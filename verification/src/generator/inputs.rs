//! The input types of a model: what a client hands in to create, update,
//! find and order its records.

use crate::generator::{GeneratedFile, GeneratedFileView};
use crate::names::{derived_names, get_prisma_name};
use crate::schema::{Field, FieldType, FieldTypeView, FieldView, Model, ModelView};
use crate::text::{
    glue2, glue3, glue4, glue5, has_name, join_with, joined_with, lemma_view_all_push, same_text,
    view_all,
};
use vstd::prelude::*;

verus! {

/// The code of one field of an input type. `required` is the option text
/// that marks the field as required, or empty.
pub open spec fn input_field_code(
    t: FieldTypeView,
    name: Seq<char>,
    is_list: bool,
    required: Seq<char>,
) -> Seq<char> {
    let required_opt = if required.len() == 0 {
        Seq::empty()
    } else {
        ", "@ + required
    };
    match t {
        FieldTypeView::String | FieldTypeView::BigInt | FieldTypeView::Bytes => if is_list {
            name + ": t.stringList({"@ + required + "})"@
        } else {
            name + ": t.string({"@ + required + "})"@
        },
        FieldTypeView::Int => if is_list {
            name + ": t.intList({"@ + required + "})"@
        } else {
            name + ": t.int({"@ + required + "})"@
        },
        FieldTypeView::Float | FieldTypeView::Decimal => if is_list {
            name + ": t.field({ type: [\"Float\"]"@ + required_opt + "})"@
        } else {
            name + ": t.float({"@ + required + "})"@
        },
        FieldTypeView::Boolean => if is_list {
            name + ": t.booleanList({"@ + required + "})"@
        } else {
            name + ": t.boolean({"@ + required + "})"@
        },
        FieldTypeView::DateTime => if is_list {
            name + ": t.field({ type: [\"DateTime\"]"@ + required_opt + "})"@
        } else {
            name + ": t.field({ type: \"DateTime\""@ + required_opt + "})"@
        },
        FieldTypeView::Json => if is_list {
            name + ": t.field({ type: [\"JSON\"]"@ + required_opt + "})"@
        } else {
            name + ": t.field({ type: \"JSON\""@ + required_opt + "})"@
        },
        FieldTypeView::Enum(enum_name) => if is_list {
            name + ": t.field({ type: ["@ + enum_name + "]"@ + required_opt + "})"@
        } else {
            name + ": t.field({ type: "@ + enum_name + required_opt + "})"@
        },
        FieldTypeView::Model(_) => name + ": t.string({"@ + required + "})"@,
    }
}

/// The filter type by which a field of the given type is searched.
pub open spec fn filter_type(t: FieldTypeView) -> Seq<char> {
    match t {
        FieldTypeView::Int => "IntFilter"@,
        FieldTypeView::Float | FieldTypeView::Decimal => "FloatFilter"@,
        FieldTypeView::Boolean => "BoolFilter"@,
        FieldTypeView::DateTime => "DateTimeFilter"@,
        FieldTypeView::Json => "\"JSON\""@,
        _ => "StringFilter"@,
    }
}

/// The name of the input type through which records of `related` are linked
/// to a record of `model`.
pub open spec fn relation_input_name(model: Seq<char>, related: Seq<char>, is_list: bool) -> Seq<
    char,
> {
    if is_list {
        model + related + "ListRelationInput"@
    } else {
        model + related + "RelationInput"@
    }
}

/// The enums that fields without a relation use, each once, in the order in
/// which they first occur.
pub open spec fn enum_types_used(fields: Seq<FieldView>) -> Seq<Seq<char>>
    decreases fields.len(),
{
    if fields.len() == 0 {
        Seq::empty()
    } else {
        let before = enum_types_used(fields.drop_last());
        match (fields.last().relation, fields.last().field_type) {
            (None, FieldTypeView::Enum(name)) => if before.contains(name) {
                before
            } else {
                before.push(name)
            },
            _ => before,
        }
    }
}

/// The relation input types that the fields of the model `model` need, each
/// once, in the order in which they first occur.
pub open spec fn relation_inputs_used(model: Seq<char>, fields: Seq<FieldView>) -> Seq<Seq<char>>
    decreases fields.len(),
{
    if fields.len() == 0 {
        Seq::empty()
    } else {
        let before = relation_inputs_used(model, fields.drop_last());
        match (fields.last().relation, fields.last().field_type) {
            (Some(_), FieldTypeView::Model(related)) => {
                let name = relation_input_name(model, related, fields.last().is_list);
                if before.contains(name) {
                    before
                } else {
                    before.push(name)
                }
            },
            _ => before,
        }
    }
}

/// The local fields of all relations of `fields`: the foreign keys.
pub open spec fn foreign_keys(fields: Seq<FieldView>) -> Seq<Seq<char>>
    decreases fields.len(),
{
    if fields.len() == 0 {
        Seq::empty()
    } else {
        let before = foreign_keys(fields.drop_last());
        match fields.last().relation {
            Some(r) => before + r.fields,
            None => before,
        }
    }
}

/// The line that imports `names` from `from`; nothing where there are none.
pub open spec fn import_line(names: Seq<Seq<char>>, from: Seq<char>) -> Seq<char> {
    if names.len() == 0 {
        Seq::empty()
    } else {
        "import { "@ + joined_with(names, ", "@) + " } from \""@ + from + "\";\n"@
    }
}

/// The line that opens the definition of the input type `name`.
pub open spec fn input_type_head(name: Seq<char>) -> Seq<char> {
    "export const "@ + name + " = builder.inputType(\""@ + name
        + "\", {\n  fields: (t) => ({\n"@
}

/// The line of a field that owns a relation to `related`.
pub open spec fn relation_field_line(
    model: Seq<char>,
    f: FieldView,
    related: Seq<char>,
    with_required: bool,
) -> Seq<char> {
    "    "@ + f.name + ": t.field({ type: "@ + relation_input_name(model, related, f.is_list) + (
    if with_required && f.is_required {
        ", required: true"@
    } else {
        Seq::empty()
    }) + " }),\n"@
}

/// The line of the field `f` in the input type that creates a record of
/// `model`. Time stamps kept by the store and foreign keys have none, nor has
/// the side of a relation that does not own it.
pub open spec fn create_field_line(model: Seq<char>, f: FieldView, keys: Seq<Seq<char>>) -> Seq<
    char,
> {
    if f.is_updated_at || f.name == "created_at"@ || f.name == "updated_at"@ || keys.contains(
        f.name,
    ) {
        Seq::empty()
    } else {
        match f.relation {
            Some(r) => if r.fields.len() == 0 {
                Seq::empty()
            } else {
                match f.field_type {
                    FieldTypeView::Model(related) => relation_field_line(model, f, related, true),
                    _ => Seq::empty(),
                }
            },
            None => "    "@ + input_field_code(
                f.field_type,
                f.name,
                f.is_list,
                if f.is_id || !f.is_required || f.default_value is Some {
                    Seq::empty()
                } else {
                    "required: true"@
                },
            ) + ",\n"@,
        }
    }
}

/// The line of the field `f` in the input type that updates a record of
/// `model`. Identifiers and foreign keys have none.
pub open spec fn update_field_line(model: Seq<char>, f: FieldView, keys: Seq<Seq<char>>) -> Seq<
    char,
> {
    if f.is_id || keys.contains(f.name) {
        Seq::empty()
    } else {
        match f.relation {
            Some(r) => if r.fields.len() == 0 {
                Seq::empty()
            } else {
                match f.field_type {
                    FieldTypeView::Model(related) => relation_field_line(model, f, related, false),
                    _ => Seq::empty(),
                }
            },
            None => "    "@ + input_field_code(f.field_type, f.name, f.is_list, Seq::empty())
                + ",\n"@,
        }
    }
}

/// The line of the field `f` in the input type that filters records.
pub open spec fn where_field_line(f: FieldView) -> Seq<char> {
    if f.relation is Some {
        Seq::empty()
    } else {
        "    "@ + f.name + ": t.field({ type: "@ + filter_type(f.field_type) + " }),\n"@
    }
}

/// The line of the field `f` in the input type that finds one record.
pub open spec fn where_unique_field_line(f: FieldView) -> Seq<char> {
    if f.is_id || f.is_unique {
        "    "@ + input_field_code(f.field_type, f.name, false, "required: true"@) + ",\n"@
    } else {
        Seq::empty()
    }
}

/// The line of the field `f` in the input type that finds one record through
/// a relation.
pub open spec fn where_unique_relation_field_line(f: FieldView) -> Seq<char> {
    if (f.is_id || f.is_unique) && f.relation is None {
        "    "@ + input_field_code(f.field_type, f.name, false, Seq::empty()) + ",\n"@
    } else {
        Seq::empty()
    }
}

/// The line of the field `f` in the input type that orders records.
pub open spec fn order_by_field_line(f: FieldView) -> Seq<char> {
    if f.relation is Some {
        Seq::empty()
    } else {
        "    "@ + f.name + ": t.field({ type: SortOrder }),\n"@
    }
}

/// The lines of `fields`, one after the other, where `line` gives the line of
/// a field.
pub open spec fn field_lines(fields: Seq<FieldView>, line: spec_fn(FieldView) -> Seq<char>) -> Seq<
    char,
>
    decreases fields.len(),
{
    if fields.len() == 0 {
        Seq::empty()
    } else {
        field_lines(fields.drop_last(), line) + line(fields.last())
    }
}

/// What closes the definition of an input type.
pub open spec fn input_type_tail() -> Seq<char> {
    "  }),\n});\n"@
}

/// The imports of an input type that creates or updates records.
pub open spec fn write_input_imports(m: ModelView) -> Seq<char> {
    "import { builder } from \"../builder\";\n"@ + import_line(
        enum_types_used(m.fields),
        "../enums"@,
    ) + import_line(relation_inputs_used(m.name, m.fields), "./relations"@) + "\n"@
}

/// The text of the input type `name` that creates a record of `m`.
pub open spec fn create_input_text(m: ModelView, name: Seq<char>) -> Seq<char> {
    write_input_imports(m) + input_type_head(name) + field_lines(
        m.fields,
        |f: FieldView| create_field_line(m.name, f, foreign_keys(m.fields)),
    ) + input_type_tail()
}

/// The text of the input type that updates a record of `m`.
pub open spec fn update_input_text(m: ModelView) -> Seq<char> {
    write_input_imports(m) + input_type_head(derived_names(m.name).update_input) + field_lines(
        m.fields,
        |f: FieldView| update_field_line(m.name, f, foreign_keys(m.fields)),
    ) + input_type_tail()
}

/// The text of the input type that filters the records of `m`.
pub open spec fn where_input_text(m: ModelView) -> Seq<char> {
    let name = derived_names(m.name).where_input;
    r#"import { builder } from "../builder";
import { StringFilter, IntFilter, FloatFilter, BoolFilter, DateTimeFilter } from "./filters";

"#@
        + input_type_head(name) + "    AND: t.field({ type: ['"@ + name
        + "'] as any }),\n    OR: t.field({ type: ['"@ + name
        + "'] as any }),\n    NOT: t.field({ type: ['"@ + name + "'] as any }),\n"@ + field_lines(
        m.fields,
        |f: FieldView| where_field_line(f),
    ) + input_type_tail()
}

/// The text of the input type that finds one record of `m`.
pub open spec fn where_unique_input_text(m: ModelView) -> Seq<char> {
    "import { builder } from \"../builder\";\n\n"@ + input_type_head(
        derived_names(m.name).where_unique_input,
    ) + field_lines(m.fields, |f: FieldView| where_unique_field_line(f)) + input_type_tail()
}

/// The text of the input type that finds one record of `m` through a
/// relation.
pub open spec fn where_unique_relation_input_text(m: ModelView) -> Seq<char> {
    "import { builder } from \"../builder\";\n\n"@ + input_type_head(
        m.name + "WhereUniqueRelationInput"@,
    ) + field_lines(m.fields, |f: FieldView| where_unique_relation_field_line(f))
        + input_type_tail()
}

/// The text of the input type that orders the records of `m`.
pub open spec fn order_by_input_text(m: ModelView) -> Seq<char> {
    "import { builder } from \"../builder\";\nimport { SortOrder } from \"../enums\";\n\n"@
        + input_type_head(derived_names(m.name).order_by_input) + field_lines(
        m.fields,
        |f: FieldView| order_by_field_line(f),
    ) + input_type_tail()
}

/// The file of the input type `name` with the text `content`.
pub open spec fn input_file(name: Seq<char>, content: Seq<char>) -> GeneratedFileView {
    GeneratedFileView { path: "inputs/"@ + name + ".ts"@, content: content }
}

/// The files of the input types of `m`, in the order in which they are made.
pub open spec fn input_files(m: ModelView) -> Seq<GeneratedFileView> {
    let names = derived_names(m.name);
    seq![
        input_file(names.create_input, create_input_text(m, names.create_input)),
        input_file(names.update_input, update_input_text(m)),
        input_file(names.where_input, where_input_text(m)),
        input_file(names.where_unique_input, where_unique_input_text(m)),
        input_file(names.order_by_input, order_by_input_text(m)),
        input_file(m.name + "WhereUniqueRelationInput"@, where_unique_relation_input_text(m)),
        input_file(
            m.name + "RelationCreateInput"@,
            create_input_text(m, m.name + "RelationCreateInput"@),
        ),
    ]
}

/// The code of one field of an input type.
pub fn generate_input_field(field_type: &FieldType, name: &str, is_list: bool, required: &str) -> (r:
    String)
    ensures
        r@ == input_field_code(field_type@, name@, is_list, required@),
{
    let required_opt = if required.is_empty() {
        String::new()
    } else {
        glue2(", ", required)
    };
    match field_type {
        FieldType::String | FieldType::BigInt | FieldType::Bytes => {
            if is_list {
                glue4(name, ": t.stringList({", required, "})")
            } else {
                glue4(name, ": t.string({", required, "})")
            }
        },
        FieldType::Int => {
            if is_list {
                glue4(name, ": t.intList({", required, "})")
            } else {
                glue4(name, ": t.int({", required, "})")
            }
        },
        FieldType::Float | FieldType::Decimal => {
            if is_list {
                glue4(name, ": t.field({ type: [\"Float\"]", required_opt.as_str(), "})")
            } else {
                glue4(name, ": t.float({", required, "})")
            }
        },
        FieldType::Boolean => {
            if is_list {
                glue4(name, ": t.booleanList({", required, "})")
            } else {
                glue4(name, ": t.boolean({", required, "})")
            }
        },
        FieldType::DateTime => {
            if is_list {
                glue4(name, ": t.field({ type: [\"DateTime\"]", required_opt.as_str(), "})")
            } else {
                glue4(name, ": t.field({ type: \"DateTime\"", required_opt.as_str(), "})")
            }
        },
        FieldType::Json => {
            if is_list {
                glue4(name, ": t.field({ type: [\"JSON\"]", required_opt.as_str(), "})")
            } else {
                glue4(name, ": t.field({ type: \"JSON\"", required_opt.as_str(), "})")
            }
        },
        FieldType::Enum(enum_name) => {
            if is_list {
                let mut out = glue4(name, ": t.field({ type: [", enum_name.as_str(), "]");
                out.append(required_opt.as_str());
                out.append("})");
                out
            } else {
                glue5(name, ": t.field({ type: ", enum_name.as_str(), required_opt.as_str(), "})")
            }
        },
        FieldType::Model(_) => glue4(name, ": t.string({", required, "})"),
    }
}

/// The filter type by which a field of the given type is searched.
pub fn get_filter_type(field_type: &FieldType) -> (r: String)
    ensures
        r@ == filter_type(field_type@),
{
    match field_type {
        FieldType::Int => "IntFilter".to_owned(),
        FieldType::Float | FieldType::Decimal => "FloatFilter".to_owned(),
        FieldType::Boolean => "BoolFilter".to_owned(),
        FieldType::DateTime => "DateTimeFilter".to_owned(),
        FieldType::Json => "\"JSON\"".to_owned(),
        _ => "StringFilter".to_owned(),
    }
}

/// The name of the input type through which records of `related` are linked
/// to a record of `model`.
pub fn relation_input_name_of(model: &str, related: &str, is_list: bool) -> (r: String)
    ensures
        r@ == relation_input_name(model@, related@, is_list),
{
    if is_list {
        glue3(model, related, "ListRelationInput")
    } else {
        glue3(model, related, "RelationInput")
    }
}

/// The enums that the fields of `model` without a relation use, each once.
pub fn collect_enum_types(model: &Model) -> (r: Vec<String>)
    ensures
        view_all(r@) == enum_types_used(model@.fields),
{
    let mut used: Vec<String> = Vec::new();
    let mut i: usize = 0;
    let ghost all = view_all(model.fields@);
    proof {
        assert(all.take(0).len() == 0);
        assert(view_all(used@) =~= Seq::<Seq<char>>::empty());
    }
    while i < model.fields.len()
        invariant
            i <= model.fields.len(),
            all == view_all(model.fields@),
            view_all(used@) == enum_types_used(all.take(i as int)),
        decreases model.fields.len() - i,
    {
        proof {
            assert(all.take(i + 1).drop_last() =~= all.take(i as int));
            assert(all.take(i + 1).last() == model.fields@[i as int]@);
        }
        let field = &model.fields[i];
        if field.relation.is_none() {
            match &field.field_type {
                FieldType::Enum(name) => {
                    if !has_name(&used, name.as_str()) {
                        let owned = name.clone();
                        proof {
                            lemma_view_all_push(used@, owned);
                        }
                        used.push(owned);
                    }
                },
                _ => {},
            }
        }
        i += 1;
    }
    proof {
        assert(all.take(i as int) =~= all);
    }
    used
}

/// The relation input types that the fields of `model` need, each once.
pub fn collect_relation_inputs(model: &Model) -> (r: Vec<String>)
    ensures
        view_all(r@) == relation_inputs_used(model@.name, model@.fields),
{
    let mut used: Vec<String> = Vec::new();
    let mut i: usize = 0;
    let ghost all = view_all(model.fields@);
    proof {
        assert(all.take(0).len() == 0);
        assert(view_all(used@) =~= Seq::<Seq<char>>::empty());
    }
    while i < model.fields.len()
        invariant
            i <= model.fields.len(),
            all == view_all(model.fields@),
            view_all(used@) == relation_inputs_used(model.name@, all.take(i as int)),
        decreases model.fields.len() - i,
    {
        proof {
            assert(all.take(i + 1).drop_last() =~= all.take(i as int));
            assert(all.take(i + 1).last() == model.fields@[i as int]@);
        }
        let field = &model.fields[i];
        if field.relation.is_some() {
            match &field.field_type {
                FieldType::Model(related) => {
                    let name = relation_input_name_of(
                        model.name.as_str(),
                        related.as_str(),
                        field.is_list,
                    );
                    if !has_name(&used, name.as_str()) {
                        proof {
                            lemma_view_all_push(used@, name);
                        }
                        used.push(name);
                    }
                },
                _ => {},
            }
        }
        i += 1;
    }
    proof {
        assert(all.take(i as int) =~= all);
    }
    used
}

/// The local fields of all relations of `model`.
pub fn collect_foreign_keys(model: &Model) -> (r: Vec<String>)
    ensures
        view_all(r@) == foreign_keys(model@.fields),
{
    let mut keys: Vec<String> = Vec::new();
    let mut i: usize = 0;
    let ghost all = view_all(model.fields@);
    proof {
        assert(all.take(0).len() == 0);
        assert(view_all(keys@) =~= Seq::<Seq<char>>::empty());
    }
    while i < model.fields.len()
        invariant
            i <= model.fields.len(),
            all == view_all(model.fields@),
            view_all(keys@) == foreign_keys(all.take(i as int)),
        decreases model.fields.len() - i,
    {
        proof {
            assert(all.take(i + 1).drop_last() =~= all.take(i as int));
            assert(all.take(i + 1).last() == model.fields@[i as int]@);
        }
        match &model.fields[i].relation {
            None => {},
            Some(relation) => {
                let ghost before = view_all(keys@);
                let ghost local = view_all(relation.fields@);
                let mut j: usize = 0;
                proof {
                    assert(before + local.take(0) =~= before);
                }
                while j < relation.fields.len()
                    invariant
                        j <= relation.fields.len(),
                        local == view_all(relation.fields@),
                        view_all(keys@) == before + local.take(j as int),
                    decreases relation.fields.len() - j,
                {
                    let key = relation.fields[j].clone();
                    proof {
                        lemma_view_all_push(keys@, key);
                        assert((before + local.take(j as int)).push(key@) =~= before + local.take(
                            j + 1,
                        ));
                    }
                    keys.push(key);
                    j += 1;
                }
                proof {
                    assert(local.take(j as int) =~= local);
                }
            },
        }
        i += 1;
    }
    proof {
        assert(all.take(i as int) =~= all);
    }
    keys
}

fn import_line_of(names: &Vec<String>, from: &str) -> (r: String)
    ensures
        r@ == import_line(view_all(names@), from@),
{
    if names.len() == 0 {
        String::new()
    } else {
        let joined = join_with(names, ", ");
        glue5("import { ", joined.as_str(), " } from \"", from, "\";\n")
    }
}

fn input_type_head_of(name: &str) -> (r: String)
    ensures
        r@ == input_type_head(name@),
{
    glue5("export const ", name, " = builder.inputType(\"", name, "\", {\n  fields: (t) => ({\n")
}

fn relation_field_line_of(model: &str, f: &Field, related: &str, with_required: bool) -> (r: String)
    ensures
        r@ == relation_field_line(model@, f@, related@, with_required),
{
    let input = relation_input_name_of(model, related, f.is_list);
    let mut out = glue4("    ", f.name.as_str(), ": t.field({ type: ", input.as_str());
    if with_required && f.is_required {
        out.append(", required: true");
    } else {
        proof {
            assert(out@ + Seq::<char>::empty() =~= out@);
        }
    }
    out.append(" }),\n");
    out
}

fn create_field_line_of(model: &str, f: &Field, keys: &Vec<String>) -> (r: String)
    ensures
        r@ == create_field_line(model@, f@, view_all(keys@)),
{
    if f.is_updated_at || same_text(&f.name, "created_at") || same_text(&f.name, "updated_at")
        || has_name(keys, f.name.as_str()) {
        return String::new();
    }
    match &f.relation {
        Some(relation) => {
            if relation.fields.len() == 0 {
                return String::new();
            }
            match &f.field_type {
                FieldType::Model(related) => relation_field_line_of(
                    model,
                    f,
                    related.as_str(),
                    true,
                ),
                _ => String::new(),
            }
        },
        None => {
            let required = if f.is_id || !f.is_required || f.default_value.is_some() {
                ""
            } else {
                "required: true"
            };
            proof {
                reveal_strlit("");
                assert(""@ =~= Seq::<char>::empty());
            }
            let code = generate_input_field(&f.field_type, f.name.as_str(), f.is_list, required);
            glue3("    ", code.as_str(), ",\n")
        },
    }
}

fn update_field_line_of(model: &str, f: &Field, keys: &Vec<String>) -> (r: String)
    ensures
        r@ == update_field_line(model@, f@, view_all(keys@)),
{
    if f.is_id || has_name(keys, f.name.as_str()) {
        return String::new();
    }
    match &f.relation {
        Some(relation) => {
            if relation.fields.len() == 0 {
                return String::new();
            }
            match &f.field_type {
                FieldType::Model(related) => relation_field_line_of(
                    model,
                    f,
                    related.as_str(),
                    false,
                ),
                _ => String::new(),
            }
        },
        None => {
            proof {
                reveal_strlit("");
                assert(""@ =~= Seq::<char>::empty());
            }
            let code = generate_input_field(&f.field_type, f.name.as_str(), f.is_list, "");
            glue3("    ", code.as_str(), ",\n")
        },
    }
}

fn where_field_line_of(f: &Field) -> (r: String)
    ensures
        r@ == where_field_line(f@),
{
    if f.relation.is_some() {
        String::new()
    } else {
        let filter = get_filter_type(&f.field_type);
        glue5("    ", f.name.as_str(), ": t.field({ type: ", filter.as_str(), " }),\n")
    }
}

fn where_unique_field_line_of(f: &Field) -> (r: String)
    ensures
        r@ == where_unique_field_line(f@),
{
    if f.is_id || f.is_unique {
        let code = generate_input_field(&f.field_type, f.name.as_str(), false, "required: true");
        glue3("    ", code.as_str(), ",\n")
    } else {
        String::new()
    }
}

fn where_unique_relation_field_line_of(f: &Field) -> (r: String)
    ensures
        r@ == where_unique_relation_field_line(f@),
{
    if (f.is_id || f.is_unique) && f.relation.is_none() {
        proof {
            reveal_strlit("");
            assert(""@ =~= Seq::<char>::empty());
        }
        let code = generate_input_field(&f.field_type, f.name.as_str(), false, "");
        glue3("    ", code.as_str(), ",\n")
    } else {
        String::new()
    }
}

fn order_by_field_line_of(f: &Field) -> (r: String)
    ensures
        r@ == order_by_field_line(f@),
{
    if f.relation.is_some() {
        String::new()
    } else {
        glue3("    ", f.name.as_str(), ": t.field({ type: SortOrder }),\n")
    }
}

fn write_input_imports_of(model: &Model) -> (r: String)
    ensures
        r@ == write_input_imports(model@),
{
    let enums = import_line_of(&collect_enum_types(model), "../enums");
    let relations = import_line_of(&collect_relation_inputs(model), "./relations");
    glue4("import { builder } from \"../builder\";\n", enums.as_str(), relations.as_str(), "\n")
}

fn input_file_of(name: &str, content: String) -> (r: GeneratedFile)
    ensures
        r@ == input_file(name@, content@),
{
    GeneratedFile { path: glue3("inputs/", name, ".ts"), content: content }
}

/// The input type `name` that creates a record of `model`.
pub fn generate_create_input(model: &Model, name: &str) -> (r: GeneratedFile)
    ensures
        r@ == input_file(name@, create_input_text(model@, name@)),
{
    let keys = collect_foreign_keys(model);
    let mut body = String::new();
    let mut i: usize = 0;
    let ghost all = view_all(model.fields@);
    let ghost line = |f: FieldView| create_field_line(model.name@, f, foreign_keys(model@.fields));
    proof {
        assert(all.take(0).len() == 0);
    }
    while i < model.fields.len()
        invariant
            i <= model.fields.len(),
            all == view_all(model.fields@),
            all == model@.fields,
            view_all(keys@) == foreign_keys(model@.fields),
            line == |f: FieldView| create_field_line(model.name@, f, foreign_keys(model@.fields)),
            body@ == field_lines(all.take(i as int), line),
        decreases model.fields.len() - i,
    {
        proof {
            assert(all.take(i + 1).drop_last() =~= all.take(i as int));
            assert(all.take(i + 1).last() == model.fields@[i as int]@);
        }
        let text = create_field_line_of(model.name.as_str(), &model.fields[i], &keys);
        body.append(text.as_str());
        i += 1;
    }
    proof {
        assert(all.take(i as int) =~= all);
    }
    let imports = write_input_imports_of(model);
    let head = input_type_head_of(name);
    let content = glue4(imports.as_str(), head.as_str(), body.as_str(), "  }),\n});\n");
    input_file_of(name, content)
}

/// The input type that updates a record of `model`.
pub fn generate_update_input(model: &Model) -> (r: GeneratedFile)
    ensures
        r@ == input_file(derived_names(model@.name).update_input, update_input_text(model@)),
{
    let names = get_prisma_name(model.name.as_str());
    let keys = collect_foreign_keys(model);
    let mut body = String::new();
    let mut i: usize = 0;
    let ghost all = view_all(model.fields@);
    let ghost line = |f: FieldView| update_field_line(model.name@, f, foreign_keys(model@.fields));
    proof {
        assert(all.take(0).len() == 0);
    }
    while i < model.fields.len()
        invariant
            i <= model.fields.len(),
            all == view_all(model.fields@),
            all == model@.fields,
            view_all(keys@) == foreign_keys(model@.fields),
            line == |f: FieldView| update_field_line(model.name@, f, foreign_keys(model@.fields)),
            body@ == field_lines(all.take(i as int), line),
        decreases model.fields.len() - i,
    {
        proof {
            assert(all.take(i + 1).drop_last() =~= all.take(i as int));
            assert(all.take(i + 1).last() == model.fields@[i as int]@);
        }
        let text = update_field_line_of(model.name.as_str(), &model.fields[i], &keys);
        body.append(text.as_str());
        i += 1;
    }
    proof {
        assert(all.take(i as int) =~= all);
    }
    let imports = write_input_imports_of(model);
    let head = input_type_head_of(names.update_input.as_str());
    let content = glue4(imports.as_str(), head.as_str(), body.as_str(), "  }),\n});\n");
    input_file_of(names.update_input.as_str(), content)
}

/// The input type that filters the records of `model`.
pub fn generate_where_input(model: &Model) -> (r: GeneratedFile)
    ensures
        r@ == input_file(derived_names(model@.name).where_input, where_input_text(model@)),
{
    let names = get_prisma_name(model.name.as_str());
    let name = names.where_input.as_str();
    let mut body = String::new();
    let mut i: usize = 0;
    let ghost all = view_all(model.fields@);
    let ghost line = |f: FieldView| where_field_line(f);
    proof {
        assert(all.take(0).len() == 0);
    }
    while i < model.fields.len()
        invariant
            i <= model.fields.len(),
            all == view_all(model.fields@),
            line == |f: FieldView| where_field_line(f),
            body@ == field_lines(all.take(i as int), line),
        decreases model.fields.len() - i,
    {
        proof {
            assert(all.take(i + 1).drop_last() =~= all.take(i as int));
            assert(all.take(i + 1).last() == model.fields@[i as int]@);
        }
        let text = where_field_line_of(&model.fields[i]);
        body.append(text.as_str());
        i += 1;
    }
    proof {
        assert(all.take(i as int) =~= all);
    }
    let head = input_type_head_of(name);
    let mut content = glue2(
        r#"import { builder } from "../builder";
import { StringFilter, IntFilter, FloatFilter, BoolFilter, DateTimeFilter } from "./filters";

"#,
        head.as_str(),
    );
    content.append("    AND: t.field({ type: ['");
    content.append(name);
    content.append("'] as any }),\n    OR: t.field({ type: ['");
    content.append(name);
    content.append("'] as any }),\n    NOT: t.field({ type: ['");
    content.append(name);
    content.append("'] as any }),\n");
    content.append(body.as_str());
    content.append("  }),\n});\n");
    input_file_of(name, content)
}

/// The input type that finds one record of `model`.
pub fn generate_where_unique_input(model: &Model) -> (r: GeneratedFile)
    ensures
        r@ == input_file(
            derived_names(model@.name).where_unique_input,
            where_unique_input_text(model@),
        ),
{
    let names = get_prisma_name(model.name.as_str());
    let mut body = String::new();
    let mut i: usize = 0;
    let ghost all = view_all(model.fields@);
    let ghost line = |f: FieldView| where_unique_field_line(f);
    proof {
        assert(all.take(0).len() == 0);
    }
    while i < model.fields.len()
        invariant
            i <= model.fields.len(),
            all == view_all(model.fields@),
            line == |f: FieldView| where_unique_field_line(f),
            body@ == field_lines(all.take(i as int), line),
        decreases model.fields.len() - i,
    {
        proof {
            assert(all.take(i + 1).drop_last() =~= all.take(i as int));
            assert(all.take(i + 1).last() == model.fields@[i as int]@);
        }
        let text = where_unique_field_line_of(&model.fields[i]);
        body.append(text.as_str());
        i += 1;
    }
    proof {
        assert(all.take(i as int) =~= all);
    }
    let head = input_type_head_of(names.where_unique_input.as_str());
    let content = glue4(
        "import { builder } from \"../builder\";\n\n",
        head.as_str(),
        body.as_str(),
        "  }),\n});\n",
    );
    input_file_of(names.where_unique_input.as_str(), content)
}

/// The input type that finds one record of `model` through a relation.
pub fn generate_where_unique_input_for_relations(model: &Model) -> (r: GeneratedFile)
    ensures
        r@ == input_file(
            model@.name + "WhereUniqueRelationInput"@,
            where_unique_relation_input_text(model@),
        ),
{
    let name = glue2(model.name.as_str(), "WhereUniqueRelationInput");
    let mut body = String::new();
    let mut i: usize = 0;
    let ghost all = view_all(model.fields@);
    let ghost line = |f: FieldView| where_unique_relation_field_line(f);
    proof {
        assert(all.take(0).len() == 0);
    }
    while i < model.fields.len()
        invariant
            i <= model.fields.len(),
            all == view_all(model.fields@),
            line == |f: FieldView| where_unique_relation_field_line(f),
            body@ == field_lines(all.take(i as int), line),
        decreases model.fields.len() - i,
    {
        proof {
            assert(all.take(i + 1).drop_last() =~= all.take(i as int));
            assert(all.take(i + 1).last() == model.fields@[i as int]@);
        }
        let text = where_unique_relation_field_line_of(&model.fields[i]);
        body.append(text.as_str());
        i += 1;
    }
    proof {
        assert(all.take(i as int) =~= all);
    }
    let head = input_type_head_of(name.as_str());
    let content = glue4(
        "import { builder } from \"../builder\";\n\n",
        head.as_str(),
        body.as_str(),
        "  }),\n});\n",
    );
    input_file_of(name.as_str(), content)
}

/// The input type that orders the records of `model`.
pub fn generate_order_by_input(model: &Model) -> (r: GeneratedFile)
    ensures
        r@ == input_file(derived_names(model@.name).order_by_input, order_by_input_text(model@)),
{
    let names = get_prisma_name(model.name.as_str());
    let mut body = String::new();
    let mut i: usize = 0;
    let ghost all = view_all(model.fields@);
    let ghost line = |f: FieldView| order_by_field_line(f);
    proof {
        assert(all.take(0).len() == 0);
    }
    while i < model.fields.len()
        invariant
            i <= model.fields.len(),
            all == view_all(model.fields@),
            line == |f: FieldView| order_by_field_line(f),
            body@ == field_lines(all.take(i as int), line),
        decreases model.fields.len() - i,
    {
        proof {
            assert(all.take(i + 1).drop_last() =~= all.take(i as int));
            assert(all.take(i + 1).last() == model.fields@[i as int]@);
        }
        let text = order_by_field_line_of(&model.fields[i]);
        body.append(text.as_str());
        i += 1;
    }
    proof {
        assert(all.take(i as int) =~= all);
    }
    let head = input_type_head_of(names.order_by_input.as_str());
    let content = glue4(
        "import { builder } from \"../builder\";\nimport { SortOrder } from \"../enums\";\n\n",
        head.as_str(),
        body.as_str(),
        "  }),\n});\n",
    );
    input_file_of(names.order_by_input.as_str(), content)
}

/// The input type that creates a record of `model` through a relation: the
/// same fields as the input type that creates one directly.
pub fn generate_relation_create_input(model: &Model) -> (r: GeneratedFile)
    ensures
        r@ == input_file(
            model@.name + "RelationCreateInput"@,
            create_input_text(model@, model@.name + "RelationCreateInput"@),
        ),
{
    let name = glue2(model.name.as_str(), "RelationCreateInput");
    generate_create_input(model, name.as_str())
}

/// The files of all input types of `model`.
pub fn generate_inputs(model: &Model) -> (r: Vec<GeneratedFile>)
    ensures
        view_all(r@) == input_files(model@),
{
    let names = get_prisma_name(model.name.as_str());
    let mut files: Vec<GeneratedFile> = Vec::new();
    files.push(generate_create_input(model, names.create_input.as_str()));
    files.push(generate_update_input(model));
    files.push(generate_where_input(model));
    files.push(generate_where_unique_input(model));
    files.push(generate_order_by_input(model));
    files.push(generate_where_unique_input_for_relations(model));
    files.push(generate_relation_create_input(model));
    proof {
        assert(view_all(files@) =~= input_files(model@));
    }
    files
}

} // verus!
