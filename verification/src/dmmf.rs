//! The structured path of ingestion: from a JSON document that describes a
//! data model to the same models and enums that the textual path yields.
//!
//! The document holds, under `datamodel`, the lists `enums` and `models`.
//! Nothing here fails: a member that is missing or of the wrong kind counts
//! as `false`, as an empty list or as absent, and an enum value or a field
//! without what it needs is left out.

use crate::json::{json_text, Json};
use crate::parser::{key_of, scalar_from, scalar_of};
use crate::schema::{
    opt_view, Enum, EnumValue, EnumValueView, EnumView, Field, FieldType, FieldTypeView, FieldView,
    Model, ModelView, ParsedSchema, ParsedSchemaView, PrimaryKey, PrimaryKeyView, Relation,
    RelationView,
};
use crate::text::{chars_of, lemma_view_all_empty, lemma_view_all_push, same_text, view_all};
use vstd::prelude::*;

verus! {

/// The string under `key` in `v`.
pub open spec fn text_at(v: Json, key: Seq<char>) -> Option<Seq<char>> {
    match v.member(key) {
        Some(m) => m.text(),
        None => None,
    }
}

/// The truth value under `key` in `v`; `false` where there is none.
pub open spec fn flag_at(v: Json, key: Seq<char>) -> bool {
    match v.member(key) {
        Some(m) => match m.truth() {
            Some(b) => b,
            None => false,
        },
        None => false,
    }
}

/// The items of the array under `key` in `v`.
pub open spec fn items_at(v: Json, key: Seq<char>) -> Option<Seq<Json>> {
    match v.member(key) {
        Some(m) => m.items(),
        None => None,
    }
}

/// The strings among `items`, in order.
pub open spec fn texts_among(items: Seq<Json>) -> Seq<Seq<char>> {
    items.filter_map(|j: Json| j.text())
}

/// The strings of the array under `key` in `v`; none where there is no array.
pub open spec fn texts_at(v: Json, key: Seq<char>) -> Seq<Seq<char>> {
    match items_at(v, key) {
        Some(items) => texts_among(items),
        None => Seq::empty(),
    }
}

/// The enum value that `v` describes: it needs a `name`.
pub open spec fn enum_value_of(v: Json) -> Option<EnumValueView> {
    match text_at(v, "name"@) {
        Some(name) => Some(EnumValueView { name: name, db_name: text_at(v, "dbName"@) }),
        None => None,
    }
}

/// The enum values that `items` describe, in order.
pub open spec fn enum_values_among(items: Seq<Json>) -> Seq<EnumValueView> {
    items.filter_map(|v: Json| enum_value_of(v))
}

/// The enum that `e` describes: it needs a `name`.
pub open spec fn enum_of(e: Json) -> Option<EnumView> {
    match text_at(e, "name"@) {
        Some(name) => Some(
            EnumView {
                name: name,
                values: match items_at(e, "values"@) {
                    Some(items) => enum_values_among(items),
                    None => Seq::empty(),
                },
            },
        ),
        None => None,
    }
}

/// The enums that `items` describe, in order.
pub open spec fn enums_among(items: Seq<Json>) -> Seq<EnumView> {
    items.filter_map(|e: Json| enum_of(e))
}

/// The type of a field of the kind `kind` whose type is named `type_str`:
/// by the kind alone it is a scalar, an enum or a model; a scalar that is not
/// known, and any other kind, count as `String`.
pub open spec fn field_type_of(kind: Seq<char>, type_str: Seq<char>) -> FieldTypeView {
    if kind == "scalar"@ {
        match scalar_of(type_str) {
            Some(t) => t,
            None => FieldTypeView::String,
        }
    } else if kind == "enum"@ {
        FieldTypeView::Enum(type_str)
    } else if kind == "object"@ {
        FieldTypeView::Model(type_str)
    } else {
        FieldTypeView::String
    }
}

/// The relation that the field `f` states towards the model `type_str`.
pub open spec fn relation_of(f: Json, type_str: Seq<char>) -> RelationView {
    RelationView {
        name: text_at(f, "relationName"@),
        fields: texts_at(f, "relationFromFields"@),
        references: texts_at(f, "relationToFields"@),
        related_model: type_str,
        on_delete: text_at(f, "relationOnDelete"@),
        on_update: None,
    }
}

/// The field that `f` describes: it needs a `name`, a `kind` and a `type`.
/// Its default is the JSON text of the member `default`.
pub open spec fn field_of(f: Json) -> Option<FieldView> {
    match (text_at(f, "name"@), text_at(f, "kind"@), text_at(f, "type"@)) {
        (Some(name), Some(kind), Some(type_str)) => Some(
            FieldView {
                name: name,
                field_type: field_type_of(kind, type_str),
                is_required: flag_at(f, "isRequired"@),
                is_list: flag_at(f, "isList"@),
                is_id: flag_at(f, "isId"@),
                is_unique: flag_at(f, "isUnique"@),
                is_updated_at: flag_at(f, "isUpdatedAt"@),
                default_value: match f.member("default"@) {
                    Some(d) => Some(json_text(d)),
                    None => None,
                },
                relation: if kind == "object"@ {
                    Some(relation_of(f, type_str))
                } else {
                    None
                },
            },
        ),
        _ => None,
    }
}

/// The fields that `items` describe, in order.
pub open spec fn fields_among(items: Seq<Json>) -> Seq<FieldView> {
    items.filter_map(|f: Json| field_of(f))
}

/// The primary key of the model `m` with the fields `fields`. Where the
/// member `primaryKey` is missing or `null`, the key is the first field
/// marked as identifier, if there is one. Otherwise the member states the
/// key: the strings of its `fields`, and its `name`.
pub open spec fn primary_key_of(m: Json, fields: Seq<FieldView>) -> Option<PrimaryKeyView> {
    match m.member("primaryKey"@) {
        None => key_of(fields),
        Some(key) => if key is Null {
            key_of(fields)
        } else {
            Some(PrimaryKeyView { fields: texts_at(key, "fields"@), name: text_at(key, "name"@) })
        },
    }
}

/// The model that `m` describes; without a `name` its name is empty.
pub open spec fn model_of(m: Json) -> ModelView {
    let fields = match items_at(m, "fields"@) {
        Some(items) => fields_among(items),
        None => Seq::empty(),
    };
    ModelView {
        name: match text_at(m, "name"@) {
            Some(name) => name,
            None => Seq::empty(),
        },
        db_name: text_at(m, "dbName"@),
        fields: fields,
        primary_key: primary_key_of(m, fields),
        unique_fields: Seq::empty(),
    }
}

/// The models that `items` describe, in order.
pub open spec fn models_among(items: Seq<Json>) -> Seq<ModelView> {
    items.map_values(|m: Json| model_of(m))
}

/// The schema that the document `doc` describes.
pub open spec fn document_schema(doc: Json) -> ParsedSchemaView {
    match doc.member("datamodel"@) {
        None => ParsedSchemaView { models: Seq::empty(), enums: Seq::empty() },
        Some(datamodel) => ParsedSchemaView {
            models: match items_at(datamodel, "models"@) {
                Some(items) => models_among(items),
                None => Seq::empty(),
            },
            enums: match items_at(datamodel, "enums"@) {
                Some(items) => enums_among(items),
                None => Seq::empty(),
            },
        },
    }
}

proof fn lemma_texts_step(items: Seq<Json>, i: int)
    requires
        0 <= i < items.len(),
    ensures
        texts_among(items.take(i + 1)) == texts_among(items.take(i)) + (match items[i].text() {
            Some(t) => seq![t],
            None => Seq::empty(),
        }),
{
    items.lemma_filter_map_take_succ(|j: Json| j.text(), i);
}

proof fn lemma_enum_values_step(items: Seq<Json>, i: int)
    requires
        0 <= i < items.len(),
    ensures
        enum_values_among(items.take(i + 1)) == enum_values_among(items.take(i)) + (
        match enum_value_of(items[i]) {
            Some(v) => seq![v],
            None => Seq::empty(),
        }),
{
    items.lemma_filter_map_take_succ(|v: Json| enum_value_of(v), i);
}

proof fn lemma_enums_step(items: Seq<Json>, i: int)
    requires
        0 <= i < items.len(),
    ensures
        enums_among(items.take(i + 1)) == enums_among(items.take(i)) + (match enum_of(items[i]) {
            Some(e) => seq![e],
            None => Seq::empty(),
        }),
{
    items.lemma_filter_map_take_succ(|e: Json| enum_of(e), i);
}

proof fn lemma_fields_step(items: Seq<Json>, i: int)
    requires
        0 <= i < items.len(),
    ensures
        fields_among(items.take(i + 1)) == fields_among(items.take(i)) + (match field_of(items[i]) {
            Some(f) => seq![f],
            None => Seq::empty(),
        }),
{
    items.lemma_filter_map_take_succ(|f: Json| field_of(f), i);
}

fn text_member(v: &Json, key: &str) -> (r: Option<String>)
    ensures
        opt_view(r) == text_at(*v, key@),
{
    match v.get(key) {
        Some(m) => match m.as_str() {
            Some(s) => Some(s.to_owned()),
            None => None,
        },
        None => None,
    }
}

fn flag_member(v: &Json, key: &str) -> (r: bool)
    ensures
        r == flag_at(*v, key@),
{
    match v.get(key) {
        Some(m) => match m.as_bool() {
            Some(b) => b,
            None => false,
        },
        None => false,
    }
}

fn items_member<'a>(v: &'a Json, key: &str) -> (r: Option<&'a Vec<Json>>)
    ensures
        match r {
            Some(items) => items_at(*v, key@) == Some(items@),
            None => items_at(*v, key@) is None,
        },
{
    match v.get(key) {
        Some(m) => m.as_array(),
        None => None,
    }
}

fn texts_member(v: &Json, key: &str) -> (r: Vec<String>)
    ensures
        view_all(r@) == texts_at(*v, key@),
{
    let mut out: Vec<String> = Vec::new();
    proof {
        lemma_view_all_empty(out@);
    }
    match items_member(v, key) {
        None => out,
        Some(items) => {
            let mut i: usize = 0;
            proof {
                assert(items@.take(0).len() == 0);
            }
            while i < items.len()
                invariant
                    i <= items.len(),
                    view_all(out@) == texts_among(items@.take(i as int)),
                decreases items.len() - i,
            {
                proof {
                    lemma_texts_step(items@, i as int);
                    assert(view_all(out@) + Seq::<Seq<char>>::empty() =~= view_all(out@));
                }
                match items[i].as_str() {
                    None => {},
                    Some(s) => {
                        let text = s.to_owned();
                        proof {
                            lemma_view_all_push(out@, text);
                            assert(view_all(out@).push(text@) =~= view_all(out@) + seq![text@]);
                        }
                        out.push(text);
                    },
                }
                i += 1;
            }
            proof {
                assert(items@.take(i as int) =~= items@);
            }
            out
        },
    }
}

fn enum_value_from(v: &Json) -> (r: Option<EnumValue>)
    ensures
        match r {
            Some(value) => enum_value_of(*v) == Some(value@),
            None => enum_value_of(*v) is None,
        },
{
    match text_member(v, "name") {
        Some(name) => Some(EnumValue { name: name, db_name: text_member(v, "dbName") }),
        None => None,
    }
}

fn enum_from(e: &Json) -> (r: Option<Enum>)
    ensures
        match r {
            Some(found) => enum_of(*e) == Some(found@),
            None => enum_of(*e) is None,
        },
{
    let mut values: Vec<EnumValue> = Vec::new();
    proof {
        lemma_view_all_empty(values@);
    }
    match items_member(e, "values") {
        None => {},
        Some(items) => {
            let mut i: usize = 0;
            proof {
                assert(items@.take(0).len() == 0);
            }
            while i < items.len()
                invariant
                    i <= items.len(),
                    view_all(values@) == enum_values_among(items@.take(i as int)),
                decreases items.len() - i,
            {
                proof {
                    lemma_enum_values_step(items@, i as int);
                    assert(view_all(values@) + Seq::<EnumValueView>::empty() =~= view_all(values@));
                }
                match enum_value_from(&items[i]) {
                    None => {},
                    Some(value) => {
                        proof {
                            lemma_view_all_push(values@, value);
                            assert(view_all(values@).push(value@) =~= view_all(values@) + seq![
                                value@,
                            ]);
                        }
                        values.push(value);
                    },
                }
                i += 1;
            }
            proof {
                assert(items@.take(i as int) =~= items@);
            }
        },
    }
    match text_member(e, "name") {
        Some(name) => Some(Enum { name: name, values: values }),
        None => None,
    }
}

fn field_type_from(kind: &String, type_str: &String) -> (r: FieldType)
    ensures
        r@ == field_type_of(kind@, type_str@),
{
    if same_text(kind, "scalar") {
        match scalar_from(&chars_of(type_str.as_str())) {
            Some(t) => t,
            None => FieldType::String,
        }
    } else if same_text(kind, "enum") {
        FieldType::Enum(type_str.clone())
    } else if same_text(kind, "object") {
        FieldType::Model(type_str.clone())
    } else {
        FieldType::String
    }
}

fn field_from(f: &Json) -> (r: Option<Field>)
    ensures
        match r {
            Some(field) => field_of(*f) == Some(field@) && field@.wf(),
            None => field_of(*f) is None,
        },
{
    let name = match text_member(f, "name") {
        Some(name) => name,
        None => {
            return None;
        },
    };
    let kind = match text_member(f, "kind") {
        Some(kind) => kind,
        None => {
            return None;
        },
    };
    let type_str = match text_member(f, "type") {
        Some(type_str) => type_str,
        None => {
            return None;
        },
    };
    let relation = if same_text(&kind, "object") {
        Some(
            Relation {
                name: text_member(f, "relationName"),
                fields: texts_member(f, "relationFromFields"),
                references: texts_member(f, "relationToFields"),
                related_model: type_str.clone(),
                on_delete: text_member(f, "relationOnDelete"),
                on_update: None,
            },
        )
    } else {
        None
    };
    let default_value = match f.get("default") {
        Some(d) => Some(d.to_text()),
        None => None,
    };
    proof {
        reveal_strlit("scalar");
        reveal_strlit("enum");
        reveal_strlit("object");
        assert("scalar"@[0] == 's' && "enum"@[0] == 'e' && "object"@[0] == 'o');
    }
    Some(
        Field {
            name: name,
            field_type: field_type_from(&kind, &type_str),
            is_required: flag_member(f, "isRequired"),
            is_list: flag_member(f, "isList"),
            is_id: flag_member(f, "isId"),
            is_unique: flag_member(f, "isUnique"),
            is_updated_at: flag_member(f, "isUpdatedAt"),
            default_value: default_value,
            relation: relation,
        },
    )
}

fn fields_from(items: &Vec<Json>) -> (r: Vec<Field>)
    ensures
        view_all(r@) == fields_among(items@),
        forall|k: int| 0 <= k < r@.len() ==> (#[trigger] view_all(r@)[k]).wf(),
{
    let mut fields: Vec<Field> = Vec::new();
    let mut i: usize = 0;
    proof {
        lemma_view_all_empty(fields@);
        assert(items@.take(0).len() == 0);
    }
    while i < items.len()
        invariant
            i <= items.len(),
            view_all(fields@) == fields_among(items@.take(i as int)),
            forall|k: int| 0 <= k < fields@.len() ==> (#[trigger] view_all(fields@)[k]).wf(),
        decreases items.len() - i,
    {
        proof {
            lemma_fields_step(items@, i as int);
            assert(view_all(fields@) + Seq::<FieldView>::empty() =~= view_all(fields@));
        }
        match field_from(&items[i]) {
            None => {},
            Some(field) => {
                proof {
                    lemma_view_all_push(fields@, field);
                    assert(view_all(fields@).push(field@) =~= view_all(fields@) + seq![field@]);
                }
                fields.push(field);
            },
        }
        i += 1;
    }
    proof {
        assert(items@.take(i as int) =~= items@);
    }
    fields
}

/// The key that the first identifier among `fields` makes, where there is one.
pub fn first_identifier_key(fields: &Vec<Field>) -> (r: Option<PrimaryKey>)
    ensures
        match r {
            Some(key) => key_of(view_all(fields@)) == Some(key@),
            None => key_of(view_all(fields@)) is None,
        },
{
    let mut found: Option<PrimaryKey> = None;
    let mut i: usize = 0;
    let ghost all = view_all(fields@);
    proof {
        assert(all.take(0).len() == 0);
    }
    while i < fields.len()
        invariant
            i <= fields.len(),
            all == view_all(fields@),
            match found {
                Some(key) => key_of(all.take(i as int)) == Some(key@),
                None => key_of(all.take(i as int)) is None,
            },
        decreases fields.len() - i,
    {
        proof {
            assert(all.take(i + 1).drop_last() =~= all.take(i as int));
            assert(all.take(i + 1).last() == fields@[i as int]@);
        }
        if fields[i].is_id && found.is_none() {
            let mut key_fields: Vec<String> = Vec::new();
            key_fields.push(fields[i].name.clone());
            proof {
                assert(view_all(key_fields@) =~= seq![fields@[i as int].name@]);
            }
            found = Some(PrimaryKey { fields: key_fields, name: None });
        }
        i += 1;
    }
    proof {
        assert(all.take(i as int) =~= all);
    }
    found
}

fn model_from(m: &Json) -> (r: Model)
    ensures
        r@ == model_of(*m),
        r@.wf(),
{
    let fields = match items_member(m, "fields") {
        Some(items) => fields_from(items),
        None => {
            let none: Vec<Field> = Vec::new();
            proof {
                lemma_view_all_empty(none@);
            }
            none
        },
    };
    let primary_key = match m.get("primaryKey") {
        None => first_identifier_key(&fields),
        Some(key) => {
            if key.is_null() {
                first_identifier_key(&fields)
            } else {
                Some(
                    PrimaryKey {
                        fields: texts_member(key, "fields"),
                        name: text_member(key, "name"),
                    },
                )
            }
        },
    };
    let name = match text_member(m, "name") {
        Some(name) => name,
        None => String::new(),
    };
    let unique_fields: Vec<Vec<String>> = Vec::new();
    let model = Model {
        name: name,
        db_name: text_member(m, "dbName"),
        fields: fields,
        primary_key: primary_key,
        unique_fields: unique_fields,
    };
    proof {
        assert(model@.unique_fields =~= Seq::<Seq<Seq<char>>>::empty());
    }
    model
}

fn models_from(items: &Vec<Json>) -> (r: Vec<Model>)
    ensures
        view_all(r@) == models_among(items@),
        forall|k: int| 0 <= k < r@.len() ==> (#[trigger] view_all(r@)[k]).wf(),
{
    let mut models: Vec<Model> = Vec::new();
    let mut i: usize = 0;
    while i < items.len()
        invariant
            i <= items.len(),
            models@.len() == i,
            forall|k: int| 0 <= k < i ==> (#[trigger] models@[k])@ == model_of(items@[k]),
            forall|k: int| 0 <= k < i ==> (#[trigger] models@[k])@.wf(),
        decreases items.len() - i,
    {
        let model = model_from(&items[i]);
        models.push(model);
        i += 1;
    }
    proof {
        assert(view_all(models@) =~= models_among(items@));
    }
    models
}

fn enums_from(items: &Vec<Json>) -> (r: Vec<Enum>)
    ensures
        view_all(r@) == enums_among(items@),
{
    let mut enums: Vec<Enum> = Vec::new();
    let mut i: usize = 0;
    proof {
        lemma_view_all_empty(enums@);
        assert(items@.take(0).len() == 0);
    }
    while i < items.len()
        invariant
            i <= items.len(),
            view_all(enums@) == enums_among(items@.take(i as int)),
        decreases items.len() - i,
    {
        proof {
            lemma_enums_step(items@, i as int);
            assert(view_all(enums@) + Seq::<EnumView>::empty() =~= view_all(enums@));
        }
        match enum_from(&items[i]) {
            None => {},
            Some(found) => {
                proof {
                    lemma_view_all_push(enums@, found);
                    assert(view_all(enums@).push(found@) =~= view_all(enums@) + seq![found@]);
                }
                enums.push(found);
            },
        }
        i += 1;
    }
    proof {
        assert(items@.take(i as int) =~= items@);
    }
    enums
}

/// Reads the document `dmmf` into its models and enums, each in the order of
/// the document. Every model of the result is well formed.
pub fn parse_dmmf(dmmf: &Json) -> (r: ParsedSchema)
    ensures
        r@ == document_schema(*dmmf),
        r@.wf(),
{
    let no_models: Vec<Model> = Vec::new();
    let no_enums: Vec<Enum> = Vec::new();
    proof {
        lemma_view_all_empty(no_models@);
        lemma_view_all_empty(no_enums@);
    }
    match dmmf.get("datamodel") {
        None => ParsedSchema { models: no_models, enums: no_enums },
        Some(datamodel) => {
            let enums = match items_member(datamodel, "enums") {
                Some(items) => enums_from(items),
                None => no_enums,
            };
            let models = match items_member(datamodel, "models") {
                Some(items) => models_from(items),
                None => no_models,
            };
            ParsedSchema { models: models, enums: enums }
        },
    }
}

} // verus!
