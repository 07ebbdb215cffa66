//! The textual path of ingestion: from the text of a schema to its models
//! and enums.
//!
//! The text is read in two passes. The first collects the names of all enums
//! and models, so that a field may refer to a declaration further down. The
//! second splits the text into blocks and reads each block line by line.
//! Nothing here fails: a line that cannot be read is skipped, a type that is
//! not known counts as `String`, and a block that is not closed runs to the
//! end of the text.

use crate::schema::{
    Enum, EnumValue, EnumValueView, EnumView, Field, FieldType, FieldTypeView, FieldView, Model,
    ModelView, ParsedSchema, ParsedSchemaView, PrimaryKey, PrimaryKeyView, Relation, RelationView,
};
use crate::text::{
    after_first_token, chars_of, chars_of_all, closing, closing_of, contains, contains_name,
    contains_text, ends_with,
    find, find_in, first_token, law_find, lemma_view_all_empty, lemma_view_all_push, lines,
    lines_of, nth_token, position, position_of, slice_of, split, split_first_token, split_on,
    same_chars, starts_with, string_of, strip_end, strip_end_of, strip_start, strip_start_of, trim, trimmed,
    view_all,
};
use vstd::prelude::*;

verus! {

/// The trimmed piece of a list, where anything is left of it.
pub open spec fn item_of(piece: Seq<char>) -> Option<Seq<char>> {
    let t = trim(piece);
    if t.len() > 0 {
        Some(t)
    } else {
        None
    }
}

/// The items among `pieces`: each piece trimmed, the empty ones left out.
pub open spec fn items_among(pieces: Seq<Seq<char>>) -> Seq<Seq<char>> {
    pieces.filter_map(|p: Seq<char>| item_of(p))
}

/// The items of a list whose items are separated by commas.
pub open spec fn list_items(s: Seq<char>) -> Seq<Seq<char>> {
    items_among(split(s, ','))
}

/// The items of the first bracketed list that follows `key` in `clause`;
/// none where the key, the opening or the closing bracket is missing.
pub open spec fn bracket_list(clause: Seq<char>, key: Seq<char>) -> Seq<Seq<char>> {
    match find(clause, key) {
        None => Seq::empty(),
        Some(i) => {
            let part = clause.skip(i + key.len());
            let open = position(part, '[');
            if open >= part.len() {
                Seq::empty()
            } else {
                let inner = part.skip(open as int + 1);
                let close = position(inner, ']');
                if close >= inner.len() {
                    Seq::empty()
                } else {
                    list_items(inner.take(close as int))
                }
            }
        },
    }
}

/// The name that a relation clause gives: what follows `name:`, trimmed,
/// without leading quotes and up to the next quote; or, without `name:`, the
/// string that the clause begins with, where it begins with one.
pub open spec fn relation_name(clause: Seq<char>) -> Option<Seq<char>> {
    match find(clause, "name:"@) {
        Some(i) => {
            let part = strip_start(trim(clause.skip(i + "name:"@.len())), '"');
            Some(part.take(position(part, '"') as int))
        },
        None => {
            let leading = trim(clause);
            if leading.len() == 0 || leading[0] != '"' {
                None
            } else {
                let part = leading.skip(1);
                let close = position(part, '"');
                if close >= part.len() {
                    None
                } else {
                    Some(part.take(close as int))
                }
            }
        },
    }
}

/// The relation to `related_model` without a name and without fields: the
/// side that does not own the relation.
pub open spec fn bare_relation(related_model: Seq<char>) -> RelationView {
    RelationView {
        name: None,
        fields: Seq::empty(),
        references: Seq::empty(),
        related_model: related_model,
        on_delete: None,
        on_update: None,
    }
}

/// The text between `@relation(` and the next `)` of `line`.
pub open spec fn relation_clause(line: Seq<char>) -> Option<Seq<char>> {
    match find(line, "@relation("@) {
        None => None,
        Some(i) => {
            let content = line.skip(i + "@relation("@.len());
            let close = position(content, ')');
            if close >= content.len() {
                None
            } else {
                Some(content.take(close as int))
            }
        },
    }
}

/// The relation that a field line states towards `related_model`.
pub open spec fn relation_of(line: Seq<char>, related_model: Seq<char>) -> RelationView {
    match relation_clause(line) {
        None => bare_relation(related_model),
        Some(clause) => RelationView {
            name: relation_name(clause),
            fields: bracket_list(clause, "fields:"@),
            references: bracket_list(clause, "references:"@),
            related_model: related_model,
            on_delete: None,
            on_update: None,
        },
    }
}

/// The scalar type of the given name.
pub open spec fn scalar_of(base: Seq<char>) -> Option<FieldTypeView> {
    if base == "String"@ {
        Some(FieldTypeView::String)
    } else if base == "Int"@ {
        Some(FieldTypeView::Int)
    } else if base == "Float"@ {
        Some(FieldTypeView::Float)
    } else if base == "Boolean"@ {
        Some(FieldTypeView::Boolean)
    } else if base == "DateTime"@ {
        Some(FieldTypeView::DateTime)
    } else if base == "Json"@ {
        Some(FieldTypeView::Json)
    } else if base == "Decimal"@ {
        Some(FieldTypeView::Decimal)
    } else if base == "BigInt"@ {
        Some(FieldTypeView::BigInt)
    } else if base == "Bytes"@ {
        Some(FieldTypeView::Bytes)
    } else {
        None
    }
}

/// The type that the name `base` stands for: a scalar by its exact name, else
/// a known enum, else a known model, else `String`.
pub open spec fn resolve_type(
    base: Seq<char>,
    enum_names: Seq<Seq<char>>,
    model_names: Seq<Seq<char>>,
) -> FieldTypeView {
    match scalar_of(base) {
        Some(t) => t,
        None => if enum_names.contains(base) {
            FieldTypeView::Enum(base)
        } else if model_names.contains(base) {
            FieldTypeView::Model(base)
        } else {
            FieldTypeView::String
        },
    }
}

/// Whether a type token marks a list.
pub open spec fn marks_list(ty: Seq<char>) -> bool {
    "[]"@.is_suffix_of(ty)
}

/// Whether a type token marks an optional field.
pub open spec fn marks_optional(ty: Seq<char>) -> bool {
    "?"@.is_suffix_of(ty)
}

/// A type token without its marker: without `[]` at its end, else without
/// `?` at its end. One marker is taken off, never two.
pub open spec fn base_type(ty: Seq<char>) -> Seq<char> {
    if marks_list(ty) {
        ty.take(ty.len() - "[]"@.len())
    } else if marks_optional(ty) {
        ty.take(ty.len() - "?"@.len())
    } else {
        ty
    }
}

/// The default that a field line states: the text between the parenthesis
/// of `@default(` and the parenthesis that closes it, parentheses in between
/// counted; none where nothing closes it.
pub open spec fn default_of(line: Seq<char>) -> Option<Seq<char>> {
    match find(line, "@default("@) {
        None => None,
        Some(i) => {
            let rest = line.skip(i + "@default("@.len());
            let close = closing(rest, 0);
            if close >= rest.len() {
                None
            } else {
                Some(rest.take(close as int))
            }
        },
    }
}

/// The field that a line declares, given the names of all enums and models of
/// the schema; none where the line has fewer than two tokens.
pub open spec fn field_of(
    line: Seq<char>,
    enum_names: Seq<Seq<char>>,
    model_names: Seq<Seq<char>>,
) -> Option<FieldView> {
    let ty = nth_token(line, 1);
    if ty.len() == 0 {
        None
    } else {
        let field_type = resolve_type(base_type(ty), enum_names, model_names);
        Some(
            FieldView {
                name: nth_token(line, 0),
                field_type: field_type,
                is_required: !marks_list(ty) && !marks_optional(ty),
                is_list: marks_list(ty),
                is_id: contains(line, "@id"@),
                is_unique: contains(line, "@unique"@),
                is_updated_at: contains(line, "@updatedAt"@),
                default_value: default_of(line),
                relation: match field_type {
                    FieldTypeView::Model(name) => Some(relation_of(line, name)),
                    _ => None,
                },
            },
        )
    }
}

/// The view of an optional field.
pub open spec fn opt_field_view(f: Option<Field>) -> Option<FieldView> {
    match f {
        Some(f) => Some(f@),
        None => None,
    }
}

/// One more piece adds its item, if it has one.
proof fn lemma_items_step(pieces: Seq<Seq<char>>, i: int)
    requires
        0 <= i < pieces.len(),
    ensures
        items_among(pieces.take(i + 1)) == items_among(pieces.take(i)) + (match item_of(pieces[i]) {
            Some(t) => seq![t],
            None => Seq::empty(),
        }),
{
    pieces.lemma_filter_map_take_succ(|p: Seq<char>| item_of(p), i);
}

fn list_items_of(v: &Vec<char>) -> (r: Vec<String>)
    ensures
        view_all(r@) == list_items(v@),
{
    let pieces = split_on(v, ',');
    let mut out: Vec<String> = Vec::new();
    let mut i: usize = 0;
    proof {
        lemma_view_all_empty(out@);
        assert(view_all(pieces@).take(0).len() == 0);
    }
    while i < pieces.len()
        invariant
            i <= pieces.len(),
            view_all(pieces@) == split(v@, ','),
            view_all(out@) == items_among(view_all(pieces@).take(i as int)),
        decreases pieces.len() - i,
    {
        let t = trimmed(&pieces[i]);
        proof {
            lemma_items_step(view_all(pieces@), i as int);
        }
        if t.len() > 0 {
            let item = string_of(&t);
            proof {
                lemma_view_all_push(out@, item);
                assert(view_all(out@).push(item@) =~= view_all(out@) + seq![item@]);
            }
            out.push(item);
        } else {
            proof {
                assert(view_all(out@) + Seq::<Seq<char>>::empty() =~= view_all(out@));
            }
        }
        i += 1;
    }
    proof {
        assert(view_all(pieces@).take(i as int) =~= view_all(pieces@));
    }
    out
}

fn bracket_list_of(clause: &Vec<char>, key: &Vec<char>) -> (r: Vec<String>)
    ensures
        view_all(r@) == bracket_list(clause@, key@),
{
    let empty: Vec<String> = Vec::new();
    proof {
        lemma_view_all_empty(empty@);
        law_find(clause@, key@);
    }
    match find_in(clause, key) {
        None => empty,
        Some(i) => {
            let part = slice_of(clause, i + key.len(), clause.len());
            let open = position_of(&part, '[');
            if open >= part.len() {
                return empty;
            }
            let inner = slice_of(&part, open + 1, part.len());
            let close = position_of(&inner, ']');
            if close >= inner.len() {
                return empty;
            }
            let body = slice_of(&inner, 0, close);
            list_items_of(&body)
        },
    }
}

fn relation_name_of(clause: &Vec<char>) -> (r: Option<String>)
    ensures
        crate::schema::opt_view(r) == relation_name(clause@),
{
    let key = chars_of("name:");
    proof {
        law_find(clause@, key@);
    }
    match find_in(clause, &key) {
        Some(i) => {
            let rest = slice_of(clause, i + key.len(), clause.len());
            let part = strip_start_of(&trimmed(&rest), '"');
            let end = position_of(&part, '"');
            let name = slice_of(&part, 0, end);
            Some(string_of(&name))
        },
        None => {
            let leading = trimmed(clause);
            if leading.len() == 0 || leading[0] != '"' {
                return None;
            }
            let part = slice_of(&leading, 1, leading.len());
            let close = position_of(&part, '"');
            if close >= part.len() {
                return None;
            }
            let name = slice_of(&part, 0, close);
            Some(string_of(&name))
        },
    }
}

fn relation_clause_of(line: &Vec<char>) -> (r: Option<Vec<char>>)
    ensures
        match r {
            Some(c) => relation_clause(line@) == Some(c@),
            None => relation_clause(line@) is None,
        },
{
    let key = chars_of("@relation(");
    proof {
        law_find(line@, key@);
    }
    match find_in(line, &key) {
        None => None,
        Some(i) => {
            let content = slice_of(line, i + key.len(), line.len());
            let close = position_of(&content, ')');
            if close >= content.len() {
                return None;
            }
            Some(slice_of(&content, 0, close))
        },
    }
}

fn relation_from(line: &Vec<char>, related_model: &Vec<char>) -> (r: Relation)
    ensures
        r@ == relation_of(line@, related_model@),
{
    match relation_clause_of(line) {
        None => {
            let none: Vec<String> = Vec::new();
            let none_too: Vec<String> = Vec::new();
            proof {
                lemma_view_all_empty(none@);
                lemma_view_all_empty(none_too@);
            }
            Relation {
                name: None,
                fields: none,
                references: none_too,
                related_model: string_of(related_model),
                on_delete: None,
                on_update: None,
            }
        },
        Some(clause) => {
            let fields = bracket_list_of(&clause, &chars_of("fields:"));
            let references = bracket_list_of(&clause, &chars_of("references:"));
            Relation {
                name: relation_name_of(&clause),
                fields: fields,
                references: references,
                related_model: string_of(related_model),
                on_delete: None,
                on_update: None,
            }
        },
    }
}

/// Reads the relation that the field line `line` states towards the model
/// `related_model`: the name, the local fields and the referenced fields of
/// its `@relation(...)` clause, each where the clause gives it. A line
/// without such a clause gives the side that does not own the relation.
pub fn parse_relation(line: &str, related_model: &str) -> (r: Relation)
    ensures
        r@ == relation_of(line@, related_model@),
{
    relation_from(&chars_of(line), &chars_of(related_model))
}

/// The scalar type of the given name, where it names one.
pub fn scalar_from(base: &Vec<char>) -> (r: Option<FieldType>)
    ensures
        match r {
            Some(t) => scalar_of(base@) == Some(t@),
            None => scalar_of(base@) is None,
        },
{
    if same_chars(base, &chars_of("String")) {
        Some(FieldType::String)
    } else if same_chars(base, &chars_of("Int")) {
        Some(FieldType::Int)
    } else if same_chars(base, &chars_of("Float")) {
        Some(FieldType::Float)
    } else if same_chars(base, &chars_of("Boolean")) {
        Some(FieldType::Boolean)
    } else if same_chars(base, &chars_of("DateTime")) {
        Some(FieldType::DateTime)
    } else if same_chars(base, &chars_of("Json")) {
        Some(FieldType::Json)
    } else if same_chars(base, &chars_of("Decimal")) {
        Some(FieldType::Decimal)
    } else if same_chars(base, &chars_of("BigInt")) {
        Some(FieldType::BigInt)
    } else if same_chars(base, &chars_of("Bytes")) {
        Some(FieldType::Bytes)
    } else {
        None
    }
}

fn base_type_from(ty: &Vec<char>) -> (r: Vec<char>)
    ensures
        r@ == base_type(ty@),
{
    let list_mark = chars_of("[]");
    let optional_mark = chars_of("?");
    if ends_with(ty, &list_mark) {
        slice_of(ty, 0, ty.len() - list_mark.len())
    } else if ends_with(ty, &optional_mark) {
        slice_of(ty, 0, ty.len() - optional_mark.len())
    } else {
        slice_of(ty, 0, ty.len())
    }
}

fn default_from(line: &Vec<char>) -> (r: Option<String>)
    ensures
        crate::schema::opt_view(r) == default_of(line@),
{
    let key = chars_of("@default(");
    proof {
        law_find(line@, key@);
    }
    match find_in(line, &key) {
        None => None,
        Some(i) => {
            let rest = slice_of(line, i + key.len(), line.len());
            let close = closing_of(&rest);
            if close >= rest.len() {
                return None;
            }
            Some(string_of(&slice_of(&rest, 0, close)))
        },
    }
}

fn field_from(line: &Vec<char>, enum_names: &Vec<Vec<char>>, model_names: &Vec<Vec<char>>) -> (r:
    Option<Field>)
    ensures
        opt_field_view(r) == field_of(line@, view_all(enum_names@), view_all(model_names@)),
{
    let (name, rest) = split_first_token(line);
    let (ty, _) = split_first_token(&rest);
    proof {
        assert(nth_token(line@, 0) == first_token(line@));
        assert(nth_token(line@, 1) == nth_token(after_first_token(line@), 0));
    }
    if ty.len() == 0 {
        return None;
    }
    let is_list = ends_with(&ty, &chars_of("[]"));
    let is_optional = ends_with(&ty, &chars_of("?"));
    let base = base_type_from(&ty);
    let field_type: FieldType;
    let relation: Option<Relation>;
    match scalar_from(&base) {
        Some(t) => {
            field_type = t;
            relation = None;
        },
        None => {
            if contains_name(enum_names, &base) {
                field_type = FieldType::Enum(string_of(&base));
                relation = None;
            } else if contains_name(model_names, &base) {
                field_type = FieldType::Model(string_of(&base));
                relation = Some(relation_from(line, &base));
            } else {
                field_type = FieldType::String;
                relation = None;
            }
        },
    }
    Some(
        Field {
            name: string_of(&name),
            field_type: field_type,
            is_required: !is_optional && !is_list,
            is_list: is_list,
            is_id: contains_text(line, &chars_of("@id")),
            is_unique: contains_text(line, &chars_of("@unique")),
            is_updated_at: contains_text(line, &chars_of("@updatedAt")),
            default_value: default_from(line),
            relation: relation,
        },
    )
}

/// Reads the field that `line` declares: its first token is the name, its
/// second the type with an optional marker (`[]` for a list, `?` for an
/// optional field); the markers `@id`, `@unique` and `@updatedAt` count
/// wherever they stand in the line. `enum_names` and `model_names` are the
/// names of all enums and models of the schema. A line with fewer than two
/// tokens declares nothing.
pub fn parse_field(
    line: &str,
    _model_name: &str,
    enum_names: &[String],
    model_names: &[String],
) -> (r: Option<Field>)
    ensures
        opt_field_view(r) == field_of(line@, view_all(enum_names@), view_all(model_names@)),
{
    field_from(&chars_of(line), &chars_of_all(enum_names), &chars_of_all(model_names))
}

/// The two kinds of block that a schema text holds.
#[derive(Debug, Clone, Copy, PartialEq, Eq)]
pub enum BlockKind {
    Enum,
    Model,
}

/// A top-level declaration of a schema text: its kind, its name and the lines
/// of its body as they stand in the text.
#[derive(Debug, Clone)]
pub struct Block {
    pub kind: BlockKind,
    pub name: String,
    pub body: Vec<String>,
}

/// The view of a [`Block`].
pub struct BlockView {
    pub kind: BlockKind,
    pub name: Seq<char>,
    pub body: Seq<Seq<char>>,
}

impl View for Block {
    type V = BlockView;

    open spec fn view(&self) -> BlockView {
        BlockView { kind: self.kind, name: self.name@, body: view_all(self.body@) }
    }
}

/// The name that a header states, where `header` is the trimmed header line
/// and begins with `keyword`: what follows the keyword, without ` {` at its
/// end or else without any `{` at its end, trimmed.
pub open spec fn name_in_header(header: Seq<char>, keyword: Seq<char>) -> Seq<char> {
    let rest = header.skip(keyword.len() as int);
    if " {"@.is_suffix_of(rest) {
        trim(rest.take(rest.len() - " {"@.len()))
    } else {
        trim(strip_end(rest, '{'))
    }
}

/// The kind and the name of the block that `line` opens, if it opens one: a
/// line opens a block where, trimmed, it begins with `enum ` or `model `.
pub open spec fn header_of(line: Seq<char>) -> Option<(BlockKind, Seq<char>)> {
    let t = trim(line);
    if "enum "@.is_prefix_of(t) {
        Some((BlockKind::Enum, name_in_header(t, "enum "@)))
    } else if "model "@.is_prefix_of(t) {
        Some((BlockKind::Model, name_in_header(t, "model "@)))
    } else {
        None
    }
}

/// Whether `line` closes a block: trimmed, it begins with `}`.
pub open spec fn closes_block(line: Seq<char>) -> bool {
    "}"@.is_prefix_of(trim(line))
}

/// The number of lines before the first of `ls` that closes a block.
pub open spec fn body_len(ls: Seq<Seq<char>>) -> nat
    decreases ls.len(),
{
    if ls.len() == 0 || closes_block(ls[0]) {
        0
    } else {
        1 + body_len(ls.skip(1))
    }
}

/// The blocks of the lines `ls`, in order. A block begins at a header and
/// ends before the next line that closes a block, or with the last line.
/// Lines outside blocks are passed over; the lines of a body are taken as
/// they are, a header among them too.
pub open spec fn blocks(ls: Seq<Seq<char>>) -> Seq<BlockView>
    decreases ls.len(),
{
    if ls.len() == 0 {
        Seq::empty()
    } else {
        match header_of(ls[0]) {
            None => blocks(ls.skip(1)),
            Some(h) => {
                let rest = ls.skip(1);
                let n = body_len(rest);
                let block = BlockView { kind: h.0, name: h.1, body: rest.take(n as int) };
                if n >= rest.len() {
                    seq![block]
                } else {
                    seq![block] + blocks(rest.skip(n as int + 1))
                }
            },
        }
    }
}

/// The name that `line` declares with `keyword`, where it declares one.
pub open spec fn declared_name(line: Seq<char>, keyword: Seq<char>) -> Option<Seq<char>> {
    let t = trim(line);
    if keyword.is_prefix_of(t) && name_in_header(t, keyword).len() > 0 {
        Some(name_in_header(t, keyword))
    } else {
        None
    }
}

/// The names that the lines `ls` declare with `keyword`, wherever they stand.
pub open spec fn declared_names(ls: Seq<Seq<char>>, keyword: Seq<char>) -> Seq<Seq<char>> {
    ls.filter_map(|l: Seq<char>| declared_name(l, keyword))
}

/// The enum value that a body line states: its first token, unless the line
/// is blank or a comment.
pub open spec fn value_of(line: Seq<char>) -> Option<EnumValueView> {
    let t = trim(line);
    if t.len() == 0 || "//"@.is_prefix_of(t) || first_token(t).len() == 0 {
        None
    } else {
        Some(EnumValueView { name: first_token(t), db_name: None })
    }
}

/// The values that the body of an enum states, in order.
pub open spec fn enum_values(body: Seq<Seq<char>>) -> Seq<EnumValueView> {
    body.filter_map(|l: Seq<char>| value_of(l))
}

/// The enum that a block declares, if it declares one with a name.
pub open spec fn enum_of(b: BlockView) -> Option<EnumView> {
    if b.kind == BlockKind::Enum && b.name.len() > 0 {
        Some(EnumView { name: b.name, values: enum_values(b.body) })
    } else {
        None
    }
}

/// The field that a body line declares, unless the line is blank, a comment
/// or a block attribute.
pub open spec fn declared_field(
    line: Seq<char>,
    enum_names: Seq<Seq<char>>,
    model_names: Seq<Seq<char>>,
) -> Option<FieldView> {
    let t = trim(line);
    if t.len() == 0 || "//"@.is_prefix_of(t) || "@@"@.is_prefix_of(t) {
        None
    } else {
        field_of(t, enum_names, model_names)
    }
}

/// The fields that the body of a model declares, in order.
pub open spec fn model_fields(
    body: Seq<Seq<char>>,
    enum_names: Seq<Seq<char>>,
    model_names: Seq<Seq<char>>,
) -> Seq<FieldView> {
    body.filter_map(|l: Seq<char>| declared_field(l, enum_names, model_names))
}

/// The name of the first of `fields` that is marked as identifier.
pub open spec fn first_id(fields: Seq<FieldView>) -> Option<Seq<char>>
    decreases fields.len(),
{
    if fields.len() == 0 {
        None
    } else {
        match first_id(fields.drop_last()) {
            Some(name) => Some(name),
            None => if fields.last().is_id {
                Some(fields.last().name)
            } else {
                None
            },
        }
    }
}

/// The primary key of a model with the given fields: the first field marked
/// as identifier, alone; none where no field is marked.
pub open spec fn key_of(fields: Seq<FieldView>) -> Option<PrimaryKeyView> {
    match first_id(fields) {
        Some(name) => Some(PrimaryKeyView { fields: seq![name], name: None }),
        None => None,
    }
}

/// The model that a block declares, if it declares one with a name.
pub open spec fn model_of(
    b: BlockView,
    enum_names: Seq<Seq<char>>,
    model_names: Seq<Seq<char>>,
) -> Option<ModelView> {
    if b.kind == BlockKind::Model && b.name.len() > 0 {
        let fields = model_fields(b.body, enum_names, model_names);
        Some(
            ModelView {
                name: b.name,
                db_name: None,
                fields: fields,
                primary_key: key_of(fields),
                unique_fields: Seq::empty(),
            },
        )
    } else {
        None
    }
}

/// The enums that `bs` declare, in order.
pub open spec fn enums_among(bs: Seq<BlockView>) -> Seq<EnumView> {
    bs.filter_map(|b: BlockView| enum_of(b))
}

/// The models that `bs` declare, in order.
pub open spec fn models_among(
    bs: Seq<BlockView>,
    enum_names: Seq<Seq<char>>,
    model_names: Seq<Seq<char>>,
) -> Seq<ModelView> {
    bs.filter_map(|b: BlockView| model_of(b, enum_names, model_names))
}

/// The schema that a text states.
pub open spec fn schema_of(text: Seq<char>) -> ParsedSchemaView {
    let ls = lines(text);
    let enum_names = declared_names(ls, "enum "@);
    let model_names = declared_names(ls, "model "@);
    ParsedSchemaView {
        models: models_among(blocks(ls), enum_names, model_names),
        enums: enums_among(blocks(ls)),
    }
}

proof fn lemma_names_step(ls: Seq<Seq<char>>, keyword: Seq<char>, i: int)
    requires
        0 <= i < ls.len(),
    ensures
        declared_names(ls.take(i + 1), keyword) == declared_names(ls.take(i), keyword) + (
        match declared_name(ls[i], keyword) {
            Some(n) => seq![n],
            None => Seq::empty(),
        }),
{
    ls.lemma_filter_map_take_succ(|l: Seq<char>| declared_name(l, keyword), i);
}

proof fn lemma_values_step(body: Seq<Seq<char>>, i: int)
    requires
        0 <= i < body.len(),
    ensures
        enum_values(body.take(i + 1)) == enum_values(body.take(i)) + (match value_of(body[i]) {
            Some(v) => seq![v],
            None => Seq::empty(),
        }),
{
    body.lemma_filter_map_take_succ(|l: Seq<char>| value_of(l), i);
}

proof fn lemma_fields_step(
    body: Seq<Seq<char>>,
    enum_names: Seq<Seq<char>>,
    model_names: Seq<Seq<char>>,
    i: int,
)
    requires
        0 <= i < body.len(),
    ensures
        model_fields(body.take(i + 1), enum_names, model_names) == model_fields(
            body.take(i),
            enum_names,
            model_names,
        ) + (match declared_field(body[i], enum_names, model_names) {
            Some(f) => seq![f],
            None => Seq::empty(),
        }),
{
    body.lemma_filter_map_take_succ(
        |l: Seq<char>| declared_field(l, enum_names, model_names),
        i,
    );
}

proof fn lemma_enums_step(bs: Seq<BlockView>, i: int)
    requires
        0 <= i < bs.len(),
    ensures
        enums_among(bs.take(i + 1)) == enums_among(bs.take(i)) + (match enum_of(bs[i]) {
            Some(e) => seq![e],
            None => Seq::empty(),
        }),
{
    bs.lemma_filter_map_take_succ(|b: BlockView| enum_of(b), i);
}

proof fn lemma_models_step(
    bs: Seq<BlockView>,
    enum_names: Seq<Seq<char>>,
    model_names: Seq<Seq<char>>,
    i: int,
)
    requires
        0 <= i < bs.len(),
    ensures
        models_among(bs.take(i + 1), enum_names, model_names) == models_among(
            bs.take(i),
            enum_names,
            model_names,
        ) + (match model_of(bs[i], enum_names, model_names) {
            Some(m) => seq![m],
            None => Seq::empty(),
        }),
{
    bs.lemma_filter_map_take_succ(|b: BlockView| model_of(b, enum_names, model_names), i);
}

fn header_name_from(header: &Vec<char>, keyword: &Vec<char>) -> (r: Vec<char>)
    requires
        keyword@.is_prefix_of(header@),
    ensures
        r@ == name_in_header(header@, keyword@),
{
    let rest = slice_of(header, keyword.len(), header.len());
    let brace = chars_of(" {");
    if ends_with(&rest, &brace) {
        trimmed(&slice_of(&rest, 0, rest.len() - brace.len()))
    } else {
        trimmed(&strip_end_of(&rest, '{'))
    }
}

fn declared_names_of(ls: &Vec<Vec<char>>, keyword: &Vec<char>) -> (r: Vec<Vec<char>>)
    ensures
        view_all(r@) == declared_names(view_all(ls@), keyword@),
{
    let mut out: Vec<Vec<char>> = Vec::new();
    let mut i: usize = 0;
    proof {
        lemma_view_all_empty(out@);
        assert(view_all(ls@).take(0).len() == 0);
    }
    while i < ls.len()
        invariant
            i <= ls.len(),
            view_all(out@) == declared_names(view_all(ls@).take(i as int), keyword@),
        decreases ls.len() - i,
    {
        let t = trimmed(&ls[i]);
        proof {
            lemma_names_step(view_all(ls@), keyword@, i as int);
            assert(view_all(out@) + Seq::<Seq<char>>::empty() =~= view_all(out@));
        }
        if starts_with(&t, keyword) {
            let name = header_name_from(&t, keyword);
            if name.len() > 0 {
                proof {
                    lemma_view_all_push(out@, name);
                    assert(view_all(out@).push(name@) =~= view_all(out@) + seq![name@]);
                }
                out.push(name);
            }
        }
        i += 1;
    }
    proof {
        assert(view_all(ls@).take(i as int) =~= view_all(ls@));
    }
    out
}

fn closes(line: &Vec<char>) -> (r: bool)
    ensures
        r == closes_block(line@),
{
    starts_with(&trimmed(line), &chars_of("}"))
}

fn blocks_of(ls: &Vec<Vec<char>>) -> (r: Vec<Block>)
    ensures
        view_all(r@) == blocks(view_all(ls@)),
{
    let ghost all = view_all(ls@);
    let mut out: Vec<Block> = Vec::new();
    let mut i: usize = 0;
    proof {
        lemma_view_all_empty(out@);
        assert(all.skip(0) =~= all);
        assert(view_all(out@) + blocks(all) =~= blocks(all));
    }
    while i < ls.len()
        invariant
            i <= ls.len(),
            all == view_all(ls@),
            view_all(out@) + blocks(all.skip(i as int)) == blocks(all),
        decreases ls.len() - i,
    {
        let t = trimmed(&ls[i]);
        let enum_keyword = chars_of("enum ");
        let model_keyword = chars_of("model ");
        let is_enum = starts_with(&t, &enum_keyword);
        let is_model = starts_with(&t, &model_keyword);
        proof {
            assert(all.skip(i as int)[0] == all[i as int]);
            assert(all.skip(i as int).skip(1) =~= all.skip(i + 1));
        }
        if is_enum || is_model {
            let name = if is_enum {
                header_name_from(&t, &enum_keyword)
            } else {
                header_name_from(&t, &model_keyword)
            };
            let kind = if is_enum {
                BlockKind::Enum
            } else {
                BlockKind::Model
            };
            let mut body: Vec<String> = Vec::new();
            let mut j: usize = i + 1;
            proof {
                lemma_view_all_empty(body@);
                assert(all.subrange(i + 1, j as int) =~= Seq::<Seq<char>>::empty());
            }
            while j < ls.len() && !closes(&ls[j])
                invariant
                    i + 1 <= j <= ls.len(),
                    all == view_all(ls@),
                    body_len(all.skip(i + 1)) == (j - i - 1) + body_len(all.skip(j as int)),
                    view_all(body@) == all.subrange(i + 1, j as int),
                decreases ls.len() - j,
            {
                let line = string_of(&ls[j]);
                proof {
                    assert(all.skip(j as int)[0] == all[j as int]);
                    assert(all.skip(j as int).skip(1) =~= all.skip(j + 1));
                    lemma_view_all_push(body@, line);
                    assert(all.subrange(i + 1, j as int).push(line@) =~= all.subrange(
                        i + 1,
                        j + 1,
                    ));
                }
                body.push(line);
                j += 1;
            }
            let block = Block { kind: kind, name: string_of(&name), body: body };
            proof {
                let rest = all.skip(i + 1);
                let n = body_len(rest);
                if j < ls.len() {
                    assert(all.skip(j as int)[0] == all[j as int]);
                }
                assert(n == j - i - 1);
                assert(rest.take(n as int) =~= all.subrange(i + 1, j as int));
                lemma_view_all_push(out@, block);
                assert(view_all(out@).push(block@) =~= view_all(out@) + seq![block@]);
                if j < ls.len() {
                    assert(rest.skip(n as int + 1) =~= all.skip(j + 1));
                    assert(view_all(out@) + seq![block@] + blocks(all.skip(j + 1)) =~= view_all(
                        out@,
                    ) + (seq![block@] + blocks(all.skip(j + 1))));
                } else {
                    assert(blocks(all.skip(j as int)) =~= Seq::<BlockView>::empty());
                    assert(view_all(out@) + seq![block@] + blocks(all.skip(j as int)) =~= view_all(
                        out@,
                    ) + seq![block@]);
                }
            }
            out.push(block);
            i = if j < ls.len() {
                j + 1
            } else {
                j
            };
        } else {
            i += 1;
        }
    }
    proof {
        assert(view_all(out@) + blocks(all.skip(i as int)) =~= view_all(out@));
    }
    out
}

/// Splits the text of a schema into its blocks.
pub fn split_blocks(text: &str) -> (r: Vec<Block>)
    ensures
        view_all(r@) == blocks(lines(text@)),
{
    blocks_of(&lines_of(&chars_of(text)))
}

fn enum_from(b: &Block) -> (r: Option<Enum>)
    ensures
        match r {
            Some(e) => enum_of(b@) == Some(e@),
            None => enum_of(b@) is None,
        },
{
    match b.kind {
        BlockKind::Model => None,
        BlockKind::Enum => {
            if b.name.as_str().is_empty() {
                return None;
            }
            let mut values: Vec<EnumValue> = Vec::new();
            let mut i: usize = 0;
            let ghost body = view_all(b.body@);
            proof {
                lemma_view_all_empty(values@);
                assert(body.take(0).len() == 0);
            }
            while i < b.body.len()
                invariant
                    i <= b.body.len(),
                    body == view_all(b.body@),
                    view_all(values@) == enum_values(body.take(i as int)),
                decreases b.body.len() - i,
            {
                let t = trimmed(&chars_of(b.body[i].as_str()));
                proof {
                    lemma_values_step(body, i as int);
                    assert(view_all(values@) + Seq::<EnumValueView>::empty() =~= view_all(values@));
                }
                if t.len() > 0 && !starts_with(&t, &chars_of("//")) {
                    let (token, _) = split_first_token(&t);
                    if token.len() > 0 {
                        let value = EnumValue { name: string_of(&token), db_name: None };
                        proof {
                            lemma_view_all_push(values@, value);
                            assert(view_all(values@).push(value@) =~= view_all(values@) + seq![
                                value@,
                            ]);
                        }
                        values.push(value);
                    }
                }
                i += 1;
            }
            proof {
                assert(body.take(i as int) =~= body);
            }
            Some(Enum { name: b.name.clone(), values: values })
        },
    }
}

fn model_from(b: &Block, enum_names: &Vec<Vec<char>>, model_names: &Vec<Vec<char>>) -> (r: Option<
    Model,
>)
    ensures
        match r {
            Some(m) => model_of(b@, view_all(enum_names@), view_all(model_names@)) == Some(m@)
                && m@.wf(),
            None => model_of(b@, view_all(enum_names@), view_all(model_names@)) is None,
        },
{
    match b.kind {
        BlockKind::Enum => None,
        BlockKind::Model => {
            if b.name.as_str().is_empty() {
                return None;
            }
            let mut fields: Vec<Field> = Vec::new();
            let mut primary_key: Option<PrimaryKey> = None;
            let mut i: usize = 0;
            let ghost body = view_all(b.body@);
            let ghost en = view_all(enum_names@);
            let ghost mn = view_all(model_names@);
            proof {
                lemma_view_all_empty(fields@);
                assert(body.take(0).len() == 0);
            }
            while i < b.body.len()
                invariant
                    i <= b.body.len(),
                    body == view_all(b.body@),
                    en == view_all(enum_names@),
                    mn == view_all(model_names@),
                    view_all(fields@) == model_fields(body.take(i as int), en, mn),
                    forall|k: int| 0 <= k < fields@.len() ==> (#[trigger] view_all(fields@)[k]).wf(),
                    match primary_key {
                        Some(k) => key_of(view_all(fields@)) == Some(k@),
                        None => key_of(view_all(fields@)) is None,
                    },
                decreases b.body.len() - i,
            {
                let t = trimmed(&chars_of(b.body[i].as_str()));
                proof {
                    lemma_fields_step(body, en, mn, i as int);
                    assert(view_all(fields@) + Seq::<FieldView>::empty() =~= view_all(fields@));
                }
                if t.len() > 0 && !starts_with(&t, &chars_of("//")) && !starts_with(
                    &t,
                    &chars_of("@@"),
                ) {
                    match field_from(&t, enum_names, model_names) {
                        None => {},
                        Some(field) => {
                            proof {
                                lemma_view_all_push(fields@, field);
                                assert(view_all(fields@).push(field@) =~= view_all(fields@) + seq![
                                    field@,
                                ]);
                                assert(view_all(fields@).push(field@).drop_last() =~= view_all(
                                    fields@,
                                ));
                            }
                            if field.is_id && primary_key.is_none() {
                                let mut key_fields: Vec<String> = Vec::new();
                                key_fields.push(field.name.clone());
                                proof {
                                    assert(view_all(key_fields@) =~= seq![field.name@]);
                                }
                                primary_key = Some(PrimaryKey { fields: key_fields, name: None });
                            }
                            fields.push(field);
                        },
                    }
                }
                i += 1;
            }
            proof {
                assert(body.take(i as int) =~= body);
                lemma_view_all_empty(Seq::<Vec<String>>::empty());
            }
            let unique_fields: Vec<Vec<String>> = Vec::new();
            let model = Model {
                name: b.name.clone(),
                db_name: None,
                fields: fields,
                primary_key: primary_key,
                unique_fields: unique_fields,
            };
            proof {
                assert(model@.unique_fields =~= Seq::<Seq<Seq<char>>>::empty());
            }
            Some(model)
        },
    }
}

/// Reads the text of a schema into its models and enums, each in the order of
/// declaration. Every model of the result is well formed.
pub fn parse_schema(schema_content: &str) -> (r: ParsedSchema)
    ensures
        r@ == schema_of(schema_content@),
        r@.wf(),
{
    let ls = lines_of(&chars_of(schema_content));
    let enum_names = declared_names_of(&ls, &chars_of("enum "));
    let model_names = declared_names_of(&ls, &chars_of("model "));
    let bs = blocks_of(&ls);
    let mut models: Vec<Model> = Vec::new();
    let mut enums: Vec<Enum> = Vec::new();
    let mut i: usize = 0;
    let ghost all = view_all(bs@);
    let ghost en = view_all(enum_names@);
    let ghost mn = view_all(model_names@);
    proof {
        lemma_view_all_empty(models@);
        lemma_view_all_empty(enums@);
        assert(all.take(0).len() == 0);
    }
    while i < bs.len()
        invariant
            i <= bs.len(),
            all == view_all(bs@),
            en == view_all(enum_names@),
            mn == view_all(model_names@),
            view_all(models@) == models_among(all.take(i as int), en, mn),
            view_all(enums@) == enums_among(all.take(i as int)),
            forall|k: int| 0 <= k < models@.len() ==> (#[trigger] view_all(models@)[k]).wf(),
        decreases bs.len() - i,
    {
        proof {
            lemma_models_step(all, en, mn, i as int);
            lemma_enums_step(all, i as int);
            assert(view_all(models@) + Seq::<ModelView>::empty() =~= view_all(models@));
            assert(view_all(enums@) + Seq::<EnumView>::empty() =~= view_all(enums@));
        }
        match enum_from(&bs[i]) {
            None => {},
            Some(e) => {
                proof {
                    lemma_view_all_push(enums@, e);
                    assert(view_all(enums@).push(e@) =~= view_all(enums@) + seq![e@]);
                }
                enums.push(e);
            },
        }
        match model_from(&bs[i], &enum_names, &model_names) {
            None => {},
            Some(m) => {
                proof {
                    lemma_view_all_push(models@, m);
                    assert(view_all(models@).push(m@) =~= view_all(models@) + seq![m@]);
                }
                models.push(m);
            },
        }
        i += 1;
    }
    proof {
        assert(all.take(i as int) =~= all);
    }
    ParsedSchema { models: models, enums: enums }
}

} // verus!
