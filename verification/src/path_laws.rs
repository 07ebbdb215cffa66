//! What the two paths of ingestion have in common: a document that describes
//! a model is read back as that model, and so as the model that the textual
//! path yields for the same declaration.

use crate::dmmf::{
    field_of as document_field, field_type_of, fields_among, flag_at, items_at,
    model_of as document_model, primary_key_of, text_at, texts_at,
};
use crate::json::{json_text, Json};
use crate::parser::{declared_field, model_fields, model_of as text_model, BlockView};
use crate::parser_laws::{lemma_scalar_token, scalar_token};
use crate::schema::{FieldTypeView, FieldView, ModelView};
use vstd::prelude::*;

verus! {

/// The kind under which a document states a type.
pub open spec fn kind_token(t: FieldTypeView) -> Seq<char> {
    match t {
        FieldTypeView::Enum(_) => "enum"@,
        FieldTypeView::Model(_) => "object"@,
        _ => "scalar"@,
    }
}

/// Whether the document value `d` describes the field `f`: it states the
/// name, the kind and the type of `f`, its five flags, its default as JSON
/// text, and what its relation holds.
pub open spec fn describes_field(d: Json, f: FieldView) -> bool {
    &&& text_at(d, "name"@) == Some(f.name)
    &&& text_at(d, "kind"@) == Some(kind_token(f.field_type))
    &&& text_at(d, "type"@) == Some(scalar_token(f.field_type))
    &&& flag_at(d, "isRequired"@) == f.is_required
    &&& flag_at(d, "isList"@) == f.is_list
    &&& flag_at(d, "isId"@) == f.is_id
    &&& flag_at(d, "isUnique"@) == f.is_unique
    &&& flag_at(d, "isUpdatedAt"@) == f.is_updated_at
    &&& match d.member("default"@) {
        Some(v) => f.default_value == Some(json_text(v)),
        None => f.default_value is None,
    }
    &&& match f.relation {
        Some(r) => {
            &&& text_at(d, "relationName"@) == r.name
            &&& texts_at(d, "relationFromFields"@) == r.fields
            &&& texts_at(d, "relationToFields"@) == r.references
            &&& text_at(d, "relationOnDelete"@) == r.on_delete
        },
        None => true,
    }
}

/// Whether the document value `d` describes the model `m`: it states its
/// name, its name in the store, its fields one by one in their order, and
/// its primary key.
pub open spec fn describes_model(d: Json, m: ModelView) -> bool {
    &&& text_at(d, "name"@) == Some(m.name)
    &&& text_at(d, "dbName"@) == m.db_name
    &&& items_at(d, "fields"@) is Some
    &&& items_at(d, "fields"@)->0.len() == m.fields.len()
    &&& forall|i: int|
        0 <= i < m.fields.len() ==> describes_field(
            #[trigger] items_at(d, "fields"@)->0[i],
            m.fields[i],
        )
    &&& primary_key_of(d, m.fields) == m.primary_key
}

/// Whether a field is one that a document can state: no relation of it
/// says what happens on update.
pub open spec fn has_no_update_action(f: FieldView) -> bool {
    f.relation is Some ==> f.relation->0.on_update is None
}

/// The kind and the type token of a type give that type back.
pub proof fn lemma_type_of_tokens(t: FieldTypeView)
    ensures
        field_type_of(kind_token(t), scalar_token(t)) == t,
        kind_token(t) == "object"@ <==> t is Model,
{
    reveal_strlit("scalar");
    reveal_strlit("enum");
    reveal_strlit("object");
    assert("scalar"@[0] == 's' && "enum"@[0] == 'e' && "object"@[0] == 'o');
    if t.is_plain_scalar() {
        lemma_scalar_token(t);
    }
}

/// A document that describes a well-formed field is read as that field.
pub proof fn law_document_field(d: Json, f: FieldView)
    requires
        describes_field(d, f),
        f.wf(),
        has_no_update_action(f),
    ensures
        document_field(d) == Some(f),
{
    lemma_type_of_tokens(f.field_type);
    let got = document_field(d)->0;
    assert(got.relation == f.relation) by {
        match f.field_type {
            FieldTypeView::Model(name) => {
                let r = f.relation->0;
                assert(got.relation->0.fields == r.fields);
                assert(got.relation->0 == r);
            },
            _ => {},
        }
    }
}

/// Where each of `items` is read as the field of `fields` at its place, the
/// items are read as `fields`.
pub proof fn lemma_fields_read_back(items: Seq<Json>, fields: Seq<FieldView>)
    requires
        items.len() == fields.len(),
        forall|i: int| 0 <= i < items.len() ==> document_field(#[trigger] items[i]) == Some(fields[i]),
    ensures
        fields_among(items) == fields,
    decreases items.len(),
{
    if items.len() == 0 {
        assert(fields_among(items) =~= fields);
    } else {
        let shorter = items.drop_last();
        assert forall|i: int| 0 <= i < shorter.len() implies document_field(
            #[trigger] shorter[i],
        ) == Some(fields.drop_last()[i]) by {
            assert(shorter[i] == items[i]);
        }
        lemma_fields_read_back(shorter, fields.drop_last());
        assert(document_field(items.last()) == Some(fields.last())) by {
            assert(items.last() == items[items.len() - 1]);
        }
        assert(fields_among(items) =~= fields_among(shorter) + seq![fields.last()]);
        assert(fields.drop_last() + seq![fields.last()] =~= fields);
    }
}

/// A document that describes a well-formed model without unique groups is
/// read as that model, field for field and in the same order.
pub proof fn law_document_model(d: Json, m: ModelView)
    requires
        describes_model(d, m),
        m.wf(),
        forall|i: int| 0 <= i < m.fields.len() ==> has_no_update_action(#[trigger] m.fields[i]),
        m.unique_fields == Seq::<Seq<Seq<char>>>::empty(),
    ensures
        document_model(d) == m,
{
    let items = items_at(d, "fields"@)->0;
    assert forall|i: int| 0 <= i < items.len() implies document_field(#[trigger] items[i]) == Some(
        m.fields[i],
    ) by {
        law_document_field(items[i], m.fields[i]);
    }
    lemma_fields_read_back(items, m.fields);
}

/// Every field of a model of the textual path is well formed, and none of
/// its relations says what happens on update.
pub proof fn lemma_text_fields(
    body: Seq<Seq<char>>,
    enum_names: Seq<Seq<char>>,
    model_names: Seq<Seq<char>>,
)
    ensures
        forall|i: int|
            0 <= i < model_fields(body, enum_names, model_names).len() ==> {
                &&& (#[trigger] model_fields(body, enum_names, model_names)[i]).wf()
                &&& has_no_update_action(model_fields(body, enum_names, model_names)[i])
            },
{
    let fields = model_fields(body, enum_names, model_names);
    assert forall|i: int| 0 <= i < fields.len() implies (#[trigger] fields[i]).wf()
        && has_no_update_action(fields[i]) by {
        let f = fields[i];
        assert(fields.contains(f));
        body.lemma_filter_map_contains(
            |l: Seq<char>| declared_field(l, enum_names, model_names),
            f,
        );
        let line = choose|line: Seq<char>| #[trigger]
            body.contains(line) && declared_field(line, enum_names, model_names) == Some(f);
        assert(declared_field(line, enum_names, model_names) == Some(f));
    }
}

/// The two paths agree: where the textual path reads a block as a model, a
/// document that describes that model is read by the structured path as the
/// same model, equal field for field and in the same order.
pub proof fn law_paths_agree(
    b: BlockView,
    enum_names: Seq<Seq<char>>,
    model_names: Seq<Seq<char>>,
    d: Json,
)
    requires
        text_model(b, enum_names, model_names) is Some,
        describes_model(d, text_model(b, enum_names, model_names)->0),
    ensures
        document_model(d) == text_model(b, enum_names, model_names)->0,
{
    lemma_text_fields(b.body, enum_names, model_names);
    law_document_model(d, text_model(b, enum_names, model_names)->0);
}

/// What a document leaves out counts as its default: a flag as `false`, a
/// string as absent, a list of strings as empty.
pub proof fn law_missing_members(d: Json, key: Seq<char>)
    requires
        d.member(key) is None,
    ensures
        !flag_at(d, key),
        text_at(d, key) is None,
        items_at(d, key) is None,
        texts_at(d, key) == Seq::<Seq<char>>::empty(),
{
}

/// A member of the wrong kind counts as missing: a flag that is no truth
/// value as `false`, a string that is no string as absent, a list that is no
/// array as empty.
pub proof fn law_mistyped_members(d: Json, key: Seq<char>)
    requires
        d.member(key) is Some,
    ensures
        d.member(key)->0.truth() is None ==> !flag_at(d, key),
        d.member(key)->0.text() is None ==> text_at(d, key) is None,
        d.member(key)->0.items() is None ==> texts_at(d, key) == Seq::<Seq<char>>::empty(),
{
}

/// A document field is read exactly when it states a name, a kind and a
/// type as strings; nothing else that it lacks makes it fail.
pub proof fn law_field_needs_three_strings(d: Json)
    ensures
        document_field(d) is Some <==> (text_at(d, "name"@) is Some && text_at(d, "kind"@) is Some
            && text_at(d, "type"@) is Some),
{
}

} // verus!
