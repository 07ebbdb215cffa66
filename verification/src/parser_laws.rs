//! What holds of the textual path for all inputs, proved from the
//! definitions in `parser`.

use crate::parser::{
    base_type, blocks, body_len, closes_block, declared_field, enum_of, enum_values, enums_among,
    field_of, first_id, header_of, marks_list, marks_optional, model_fields, model_of,
    models_among, relation_of, scalar_of, value_of, BlockKind, BlockView,
};
use crate::schema::{EnumView, FieldTypeView, FieldView, ModelView};
use crate::text::{
    after_first_token, contains, first_token, is_space, nth_token, token_len, trim, trim_start,
};
use vstd::prelude::*;

verus! {

/// A word: a text that is not empty and holds no white space.
pub open spec fn is_word(s: Seq<char>) -> bool {
    s.len() > 0 && forall|i: int| 0 <= i < s.len() ==> !is_space(#[trigger] s[i])
}

/// The token by which a schema text names a scalar type.
pub open spec fn scalar_token(t: FieldTypeView) -> Seq<char> {
    match t {
        FieldTypeView::String => "String"@,
        FieldTypeView::Int => "Int"@,
        FieldTypeView::Float => "Float"@,
        FieldTypeView::Boolean => "Boolean"@,
        FieldTypeView::DateTime => "DateTime"@,
        FieldTypeView::Json => "Json"@,
        FieldTypeView::Decimal => "Decimal"@,
        FieldTypeView::BigInt => "BigInt"@,
        FieldTypeView::Bytes => "Bytes"@,
        FieldTypeView::Enum(name) => name,
        FieldTypeView::Model(name) => name,
    }
}

/// A run of characters that are not white space, followed by white space or
/// by nothing, is one token.
pub proof fn lemma_token_len_of_word(a: Seq<char>, b: Seq<char>)
    requires
        forall|i: int| 0 <= i < a.len() ==> !is_space(#[trigger] a[i]),
        b.len() == 0 || is_space(b[0]),
    ensures
        token_len(a + b) == a.len(),
    decreases a.len(),
{
    if a.len() == 0 {
        assert(a + b =~= b);
    } else {
        assert((a + b)[0] == a[0]);
        assert((a + b).skip(1) =~= a.skip(1) + b);
        assert forall|i: int| 0 <= i < a.skip(1).len() implies !is_space(
            #[trigger] a.skip(1)[i],
        ) by {
            assert(a.skip(1)[i] == a[i + 1]);
        }
        lemma_token_len_of_word(a.skip(1), b);
    }
}

/// A word at the start of a text is its first token.
pub proof fn lemma_leading_word(a: Seq<char>, b: Seq<char>)
    requires
        is_word(a),
        b.len() == 0 || is_space(b[0]),
    ensures
        first_token(a + b) == a,
        after_first_token(a + b) == b,
{
    assert((a + b)[0] == a[0]);
    assert(trim_start(a + b) == a + b);
    lemma_token_len_of_word(a, b);
    assert((a + b).take(a.len() as int) =~= a);
    assert((a + b).skip(a.len() as int) =~= b);
}

/// Two words with one space between them are the first two tokens of the
/// line that they make.
pub proof fn lemma_two_words(name: Seq<char>, ty: Seq<char>)
    requires
        is_word(name),
        is_word(ty),
    ensures
        nth_token(name + seq![' '] + ty, 0) == name,
        nth_token(name + seq![' '] + ty, 1) == ty,
{
    let tail = seq![' '] + ty;
    let line = name + seq![' '] + ty;
    assert(line =~= name + tail);
    assert(tail[0] == ' ');
    lemma_leading_word(name, tail);
    assert(nth_token(line, 0) == first_token(line));
    assert(nth_token(line, 1) == nth_token(after_first_token(line), 0));
    assert(tail.skip(1) =~= ty);
    assert(trim_start(tail) == trim_start(ty));
    assert(trim_start(ty) == ty);
    assert(ty + Seq::<char>::empty() =~= ty);
    lemma_leading_word(ty, Seq::<char>::empty());
}

/// The token of a scalar type is a word without a marker, and names that type.
pub proof fn lemma_scalar_token(t: FieldTypeView)
    requires
        t.is_plain_scalar(),
    ensures
        is_word(scalar_token(t)),
        scalar_token(t).last() != ']',
        scalar_token(t).last() != '?',
        scalar_of(scalar_token(t)) == Some(t),
{
    reveal_strlit("String");
    reveal_strlit("Int");
    reveal_strlit("Float");
    reveal_strlit("Boolean");
    reveal_strlit("DateTime");
    reveal_strlit("Json");
    reveal_strlit("Decimal");
    reveal_strlit("BigInt");
    reveal_strlit("Bytes");
    assert("String"@[0] == 'S' && "Int"@[0] == 'I' && "Float"@[0] == 'F' && "Boolean"@[0] == 'B');
    assert("DateTime"@[0] == 'D' && "Json"@[0] == 'J' && "Decimal"@[0] == 'D');
    assert("BigInt"@[0] == 'B' && "Bytes"@[0] == 'B');
    assert("DateTime"@[1] == 'a' && "Decimal"@[1] == 'e');
    assert("Boolean"@[1] == 'o' && "BigInt"@[1] == 'i' && "Bytes"@[1] == 'y');
}

/// A line made of a name, one space and the token of a scalar type declares a
/// field of that name and type that is required and no list. With the name
/// `f` this is the line `f Int` and its like.
pub proof fn law_scalar_field(
    name: Seq<char>,
    t: FieldTypeView,
    enum_names: Seq<Seq<char>>,
    model_names: Seq<Seq<char>>,
)
    requires
        is_word(name),
        t.is_plain_scalar(),
    ensures
        ({
            let f = field_of(name + seq![' '] + scalar_token(t), enum_names, model_names);
            &&& f is Some
            &&& f->0.name == name
            &&& f->0.field_type == t
            &&& f->0.is_required
            &&& !f->0.is_list
            &&& f->0.relation is None
        }),
{
    let ty = scalar_token(t);
    lemma_scalar_token(t);
    lemma_two_words(name, ty);
    reveal_strlit("[]");
    reveal_strlit("?");
    assert(!marks_list(ty)) by {
        if marks_list(ty) {
            assert(ty.subrange(ty.len() - 2, ty.len() as int)[1] == "[]"@[1]);
        }
    }
    assert(!marks_optional(ty)) by {
        if marks_optional(ty) {
            assert(ty.subrange(ty.len() - 1, ty.len() as int)[0] == "?"@[0]);
        }
    }
    assert(base_type(ty) == ty);
}

/// A line made of a name, one space, the token of a scalar type and `?`
/// declares a field of that type that is not required and no list.
pub proof fn law_optional_scalar_field(
    name: Seq<char>,
    t: FieldTypeView,
    enum_names: Seq<Seq<char>>,
    model_names: Seq<Seq<char>>,
)
    requires
        is_word(name),
        t.is_plain_scalar(),
    ensures
        ({
            let f = field_of(name + seq![' '] + (scalar_token(t) + seq!['?']), enum_names, model_names);
            &&& f is Some
            &&& f->0.name == name
            &&& f->0.field_type == t
            &&& !f->0.is_required
            &&& !f->0.is_list
        }),
{
    let token = scalar_token(t);
    let ty = token + seq!['?'];
    lemma_scalar_token(t);
    assert(is_word(ty)) by {
        assert forall|i: int| 0 <= i < ty.len() implies !is_space(#[trigger] ty[i]) by {
            if i < token.len() {
                assert(ty[i] == token[i]);
            }
        }
    }
    lemma_two_words(name, ty);
    reveal_strlit("[]");
    reveal_strlit("?");
    assert(!marks_list(ty)) by {
        if marks_list(ty) {
            assert(ty.subrange(ty.len() - 2, ty.len() as int)[1] == "[]"@[1]);
        }
    }
    assert(marks_optional(ty)) by {
        assert("?"@ =~= ty.subrange(ty.len() - 1, ty.len() as int));
    }
    assert(base_type(ty) =~= token);
}

/// A line made of a name, one space, the token of a scalar type and `[]`
/// declares a list field of that type, which is not required.
pub proof fn law_list_scalar_field(
    name: Seq<char>,
    t: FieldTypeView,
    enum_names: Seq<Seq<char>>,
    model_names: Seq<Seq<char>>,
)
    requires
        is_word(name),
        t.is_plain_scalar(),
    ensures
        ({
            let f = field_of(
                name + seq![' '] + (scalar_token(t) + seq!['[', ']']),
                enum_names,
                model_names,
            );
            &&& f is Some
            &&& f->0.name == name
            &&& f->0.field_type == t
            &&& !f->0.is_required
            &&& f->0.is_list
        }),
{
    let token = scalar_token(t);
    let ty = token + seq!['[', ']'];
    lemma_scalar_token(t);
    assert(is_word(ty)) by {
        assert forall|i: int| 0 <= i < ty.len() implies !is_space(#[trigger] ty[i]) by {
            if i < token.len() {
                assert(ty[i] == token[i]);
            }
        }
    }
    lemma_two_words(name, ty);
    reveal_strlit("[]");
    assert(marks_list(ty)) by {
        assert("[]"@ =~= ty.subrange(ty.len() - 2, ty.len() as int));
    }
    assert(base_type(ty) =~= token);
}

/// A line whose type token, without its marker, is the name of a known model
/// and neither the name of a scalar nor that of a known enum declares a field
/// of type `Model` with that name, and the field carries a relation to that
/// model.
pub proof fn law_model_reference(
    line: Seq<char>,
    enum_names: Seq<Seq<char>>,
    model_names: Seq<Seq<char>>,
)
    requires
        nth_token(line, 1).len() > 0,
        model_names.contains(base_type(nth_token(line, 1))),
        scalar_of(base_type(nth_token(line, 1))) is None,
        !enum_names.contains(base_type(nth_token(line, 1))),
    ensures
        ({
            let f = field_of(line, enum_names, model_names);
            let m = base_type(nth_token(line, 1));
            &&& f is Some
            &&& f->0.field_type == FieldTypeView::Model(m)
            &&& f->0.relation == Some(relation_of(line, m))
            &&& f->0.relation->0.related_model == m
            &&& f->0.wf()
        }),
{
}

/// Every field that a line declares is well formed: it carries a relation
/// exactly when its type is a model.
pub proof fn law_field_well_formed(
    line: Seq<char>,
    enum_names: Seq<Seq<char>>,
    model_names: Seq<Seq<char>>,
)
    requires
        field_of(line, enum_names, model_names) is Some,
    ensures
        field_of(line, enum_names, model_names)->0.wf(),
{
}

/// The markers of identifier and of uniqueness are read independently: a line
/// that holds both declares a field that has both.
pub proof fn law_id_and_unique(
    line: Seq<char>,
    enum_names: Seq<Seq<char>>,
    model_names: Seq<Seq<char>>,
)
    requires
        contains(line, "@id"@),
        contains(line, "@unique"@),
        field_of(line, enum_names, model_names) is Some,
    ensures
        field_of(line, enum_names, model_names)->0.is_id,
        field_of(line, enum_names, model_names)->0.is_unique,
{
}

/// A model has a primary key exactly when one of its fields is marked as
/// identifier, and the key is then the first such field.
pub proof fn law_first_id(fields: Seq<FieldView>)
    ensures
        first_id(fields) is None <==> forall|i: int|
            0 <= i < fields.len() ==> !(#[trigger] fields[i]).is_id,
        first_id(fields) is Some ==> exists|i: int|
            0 <= i < fields.len() && (#[trigger] fields[i]).is_id && fields[i].name == first_id(
                fields,
            )->0 && forall|j: int| 0 <= j < i ==> !(#[trigger] fields[j]).is_id,
    decreases fields.len(),
{
    if fields.len() > 0 {
        let init = fields.drop_last();
        law_first_id(init);
        assert forall|i: int| 0 <= i < init.len() implies init[i] == fields[i] by {}
        if first_id(init) is Some {
            let i = choose|i: int|
                0 <= i < init.len() && (#[trigger] init[i]).is_id && init[i].name == first_id(
                    init,
                )->0 && forall|j: int| 0 <= j < i ==> !(#[trigger] init[j]).is_id;
            assert(fields[i].is_id);
            assert forall|j: int| 0 <= j < i implies !(#[trigger] fields[j]).is_id by {
                assert(init[j] == fields[j]);
            }
        } else {
            if fields.last().is_id {
                let i = fields.len() - 1;
                assert(fields[i].is_id);
                assert forall|j: int| 0 <= j < i implies !(#[trigger] fields[j]).is_id by {
                    assert(init[j] == fields[j]);
                }
            } else {
                assert forall|i: int| 0 <= i < fields.len() implies !(#[trigger] fields[i]).is_id by {
                    if i < init.len() {
                        assert(init[i] == fields[i]);
                    }
                }
            }
        }
    }
}

/// A model block none of whose fields is marked as identifier yields a model
/// without a primary key: no key is made up.
pub proof fn law_no_identifier_no_key(
    b: BlockView,
    enum_names: Seq<Seq<char>>,
    model_names: Seq<Seq<char>>,
)
    requires
        model_of(b, enum_names, model_names) is Some,
        forall|i: int|
            0 <= i < model_fields(b.body, enum_names, model_names).len() ==> !(
            #[trigger] model_fields(b.body, enum_names, model_names)[i]).is_id,
    ensures
        model_of(b, enum_names, model_names)->0.primary_key is None,
{
    law_first_id(model_fields(b.body, enum_names, model_names));
}

/// Where no line closes a block, the body is all the lines.
pub proof fn lemma_body_without_end(ls: Seq<Seq<char>>)
    requires
        forall|j: int| 0 <= j < ls.len() ==> !closes_block(#[trigger] ls[j]),
    ensures
        body_len(ls) == ls.len(),
    decreases ls.len(),
{
    if ls.len() > 0 {
        assert(!closes_block(ls[0]));
        assert forall|j: int| 0 <= j < ls.skip(1).len() implies !closes_block(
            #[trigger] ls.skip(1)[j],
        ) by {
            assert(ls.skip(1)[j] == ls[j + 1]);
        }
        lemma_body_without_end(ls.skip(1));
    }
}

/// A block that is never closed runs to the end of the text: where the first
/// line is a header and no later line closes a block, the lines hold that one
/// block, and its body is every line after the header.
pub proof fn law_unterminated_block(ls: Seq<Seq<char>>)
    requires
        ls.len() > 0,
        header_of(ls[0]) is Some,
        forall|j: int| 1 <= j < ls.len() ==> !closes_block(#[trigger] ls[j]),
    ensures
        ({
            let header = header_of(ls[0])->0;
            blocks(ls) == seq![BlockView { kind: header.0, name: header.1, body: ls.skip(1) }]
        }),
{
    let rest = ls.skip(1);
    assert forall|j: int| 0 <= j < rest.len() implies !closes_block(#[trigger] rest[j]) by {
        assert(rest[j] == ls[j + 1]);
    }
    lemma_body_without_end(rest);
    assert(rest.take(rest.len() as int) =~= rest);
}

/// An enum that is never closed keeps the values read up to the end of the
/// text: where the first line opens an enum with a name and no later line
/// closes a block, the lines declare that one enum, with the values of every
/// line after the header, and no model.
pub proof fn law_unterminated_enum(
    ls: Seq<Seq<char>>,
    name: Seq<char>,
    enum_names: Seq<Seq<char>>,
    model_names: Seq<Seq<char>>,
)
    requires
        ls.len() > 0,
        header_of(ls[0]) == Some((BlockKind::Enum, name)),
        name.len() > 0,
        forall|j: int| 1 <= j < ls.len() ==> !closes_block(#[trigger] ls[j]),
    ensures
        enums_among(blocks(ls)) == seq![EnumView { name: name, values: enum_values(ls.skip(1)) }],
        models_among(blocks(ls), enum_names, model_names) == Seq::<ModelView>::empty(),
{
    law_unterminated_block(ls);
    let block = BlockView { kind: BlockKind::Enum, name: name, body: ls.skip(1) };
    let only = seq![block];
    Seq::lemma_filter_map_singleton(block, |b: BlockView| enum_of(b));
    Seq::lemma_filter_map_singleton(block, |b: BlockView| model_of(b, enum_names, model_names));
    assert(enums_among(only) =~= seq![EnumView { name: name, values: enum_values(ls.skip(1)) }]);
    assert(models_among(only, enum_names, model_names) =~= Seq::<ModelView>::empty());
}

/// A line whose type token, without its marker, is the name of a known enum
/// and not the name of a scalar declares a field of that enum, without a
/// relation.
pub proof fn law_enum_reference(
    line: Seq<char>,
    enum_names: Seq<Seq<char>>,
    model_names: Seq<Seq<char>>,
)
    requires
        nth_token(line, 1).len() > 0,
        enum_names.contains(base_type(nth_token(line, 1))),
        scalar_of(base_type(nth_token(line, 1))) is None,
    ensures
        ({
            let f = field_of(line, enum_names, model_names);
            &&& f is Some
            &&& f->0.field_type == FieldTypeView::Enum(base_type(nth_token(line, 1)))
            &&& f->0.relation is None
        }),
{
}

/// A type that is neither a scalar nor known as enum or model counts as
/// `String`: the line still declares a field.
pub proof fn law_unknown_type_is_string(
    line: Seq<char>,
    enum_names: Seq<Seq<char>>,
    model_names: Seq<Seq<char>>,
)
    requires
        nth_token(line, 1).len() > 0,
        scalar_of(base_type(nth_token(line, 1))) is None,
        !enum_names.contains(base_type(nth_token(line, 1))),
        !model_names.contains(base_type(nth_token(line, 1))),
    ensures
        ({
            let f = field_of(line, enum_names, model_names);
            &&& f is Some
            &&& f->0.field_type == FieldTypeView::String
            &&& f->0.relation is None
        }),
{
}

/// A line declares a field exactly when it has a second token.
pub proof fn law_two_tokens_make_a_field(
    line: Seq<char>,
    enum_names: Seq<Seq<char>>,
    model_names: Seq<Seq<char>>,
)
    ensures
        field_of(line, enum_names, model_names) is Some <==> nth_token(line, 1).len() > 0,
{
}

/// A body line that is blank, a comment or a block attribute declares no
/// field, and one that is blank or a comment states no enum value.
pub proof fn law_skipped_lines(
    line: Seq<char>,
    enum_names: Seq<Seq<char>>,
    model_names: Seq<Seq<char>>,
)
    ensures
        trim(line).len() == 0 || "//"@.is_prefix_of(trim(line)) || "@@"@.is_prefix_of(trim(line))
            ==> declared_field(line, enum_names, model_names) is None,
        trim(line).len() == 0 || "//"@.is_prefix_of(trim(line)) ==> value_of(line) is None,
{
}

} // verus!
