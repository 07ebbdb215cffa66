//! The data model that ingestion produces: models, fields, enums and
//! relations, each with its mathematical view.

use crate::text::view_all;
use vstd::prelude::*;

verus! {

/// The view of an optional string.
pub open spec fn opt_view(o: Option<String>) -> Option<Seq<char>> {
    match o {
        Some(s) => Some(s@),
        None => None,
    }
}

/// The type of a field: one of nine scalars, or a named enum or model.
#[derive(Debug, Clone, PartialEq, Eq)]
pub enum FieldType {
    String,
    Int,
    Float,
    Boolean,
    DateTime,
    Json,
    Decimal,
    BigInt,
    Bytes,
    Enum(String),
    Model(String),
}

/// The view of a [`FieldType`].
pub enum FieldTypeView {
    String,
    Int,
    Float,
    Boolean,
    DateTime,
    Json,
    Decimal,
    BigInt,
    Bytes,
    Enum(Seq<char>),
    Model(Seq<char>),
}

impl View for FieldType {
    type V = FieldTypeView;

    open spec fn view(&self) -> FieldTypeView {
        match *self {
            FieldType::String => FieldTypeView::String,
            FieldType::Int => FieldTypeView::Int,
            FieldType::Float => FieldTypeView::Float,
            FieldType::Boolean => FieldTypeView::Boolean,
            FieldType::DateTime => FieldTypeView::DateTime,
            FieldType::Json => FieldTypeView::Json,
            FieldType::Decimal => FieldTypeView::Decimal,
            FieldType::BigInt => FieldTypeView::BigInt,
            FieldType::Bytes => FieldTypeView::Bytes,
            FieldType::Enum(name) => FieldTypeView::Enum(name@),
            FieldType::Model(name) => FieldTypeView::Model(name@),
        }
    }
}

impl FieldTypeView {
    /// Whether the type is one of the nine scalars.
    pub open spec fn is_plain_scalar(self) -> bool {
        !(self is Enum) && !(self is Model)
    }

    /// The name of the type in GraphQL.
    pub open spec fn graphql_type(self) -> Seq<char> {
        match self {
            FieldTypeView::String => "String"@,
            FieldTypeView::Int => "Int"@,
            FieldTypeView::Float => "Float"@,
            FieldTypeView::Boolean => "Boolean"@,
            FieldTypeView::DateTime => "DateTime"@,
            FieldTypeView::Json => "JSON"@,
            FieldTypeView::Decimal => "Decimal"@,
            FieldTypeView::BigInt => "BigInt"@,
            FieldTypeView::Bytes => "Bytes"@,
            FieldTypeView::Enum(name) => name,
            FieldTypeView::Model(name) => name,
        }
    }

    /// The name of the type in TypeScript.
    pub open spec fn typescript_type(self) -> Seq<char> {
        match self {
            FieldTypeView::String => "string"@,
            FieldTypeView::Int => "number"@,
            FieldTypeView::Float => "number"@,
            FieldTypeView::Boolean => "boolean"@,
            FieldTypeView::DateTime => "Date"@,
            FieldTypeView::Json => "Prisma.JsonValue"@,
            FieldTypeView::Decimal => "Prisma.Decimal"@,
            FieldTypeView::BigInt => "bigint"@,
            FieldTypeView::Bytes => "Buffer"@,
            FieldTypeView::Enum(name) => name,
            FieldTypeView::Model(name) => name,
        }
    }
}

impl FieldType {
    /// The name of the type in GraphQL.
    pub fn to_graphql_type(&self) -> (r: String)
        ensures
            r@ == self@.graphql_type(),
    {
        match self {
            FieldType::String => "String".to_owned(),
            FieldType::Int => "Int".to_owned(),
            FieldType::Float => "Float".to_owned(),
            FieldType::Boolean => "Boolean".to_owned(),
            FieldType::DateTime => "DateTime".to_owned(),
            FieldType::Json => "JSON".to_owned(),
            FieldType::Decimal => "Decimal".to_owned(),
            FieldType::BigInt => "BigInt".to_owned(),
            FieldType::Bytes => "Bytes".to_owned(),
            FieldType::Enum(name) => name.clone(),
            FieldType::Model(name) => name.clone(),
        }
    }

    /// The name of the type in TypeScript.
    pub fn to_typescript_type(&self) -> (r: String)
        ensures
            r@ == self@.typescript_type(),
    {
        match self {
            FieldType::String => "string".to_owned(),
            FieldType::Int => "number".to_owned(),
            FieldType::Float => "number".to_owned(),
            FieldType::Boolean => "boolean".to_owned(),
            FieldType::DateTime => "Date".to_owned(),
            FieldType::Json => "Prisma.JsonValue".to_owned(),
            FieldType::Decimal => "Prisma.Decimal".to_owned(),
            FieldType::BigInt => "bigint".to_owned(),
            FieldType::Bytes => "Buffer".to_owned(),
            FieldType::Enum(name) => name.clone(),
            FieldType::Model(name) => name.clone(),
        }
    }

    /// Whether the type is anything but a reference to a model.
    pub fn is_scalar(&self) -> (r: bool)
        ensures
            r == !(self@ is Model),
    {
        match self {
            FieldType::Model(_) => false,
            _ => true,
        }
    }
}

/// One side of a relation between two models.
#[derive(Debug, Clone, PartialEq, Eq)]
pub struct Relation {
    pub name: Option<String>,
    pub fields: Vec<String>,
    pub references: Vec<String>,
    pub related_model: String,
    pub on_delete: Option<String>,
    pub on_update: Option<String>,
}

/// The view of a [`Relation`].
pub struct RelationView {
    pub name: Option<Seq<char>>,
    pub fields: Seq<Seq<char>>,
    pub references: Seq<Seq<char>>,
    pub related_model: Seq<char>,
    pub on_delete: Option<Seq<char>>,
    pub on_update: Option<Seq<char>>,
}

impl View for Relation {
    type V = RelationView;

    open spec fn view(&self) -> RelationView {
        RelationView {
            name: opt_view(self.name),
            fields: view_all(self.fields@),
            references: view_all(self.references@),
            related_model: self.related_model@,
            on_delete: opt_view(self.on_delete),
            on_update: opt_view(self.on_update),
        }
    }
}

impl RelationView {
    /// Whether this is the side that holds the local key fields.
    pub open spec fn is_owning(self) -> bool {
        self.fields.len() > 0
    }
}

/// One field of a model.
#[derive(Debug, Clone, PartialEq, Eq)]
pub struct Field {
    pub name: String,
    pub field_type: FieldType,
    pub is_required: bool,
    pub is_list: bool,
    pub is_id: bool,
    pub is_unique: bool,
    pub is_updated_at: bool,
    pub default_value: Option<String>,
    pub relation: Option<Relation>,
}

/// The view of a [`Field`].
pub struct FieldView {
    pub name: Seq<char>,
    pub field_type: FieldTypeView,
    pub is_required: bool,
    pub is_list: bool,
    pub is_id: bool,
    pub is_unique: bool,
    pub is_updated_at: bool,
    pub default_value: Option<Seq<char>>,
    pub relation: Option<RelationView>,
}

impl View for Field {
    type V = FieldView;

    open spec fn view(&self) -> FieldView {
        FieldView {
            name: self.name@,
            field_type: self.field_type@,
            is_required: self.is_required,
            is_list: self.is_list,
            is_id: self.is_id,
            is_unique: self.is_unique,
            is_updated_at: self.is_updated_at,
            default_value: opt_view(self.default_value),
            relation: match self.relation {
                Some(r) => Some(r@),
                None => None,
            },
        }
    }
}

impl FieldView {
    /// A field carries a relation exactly when its type is a model, and the
    /// relation then names that model.
    pub open spec fn wf(self) -> bool {
        match self.field_type {
            FieldTypeView::Model(name) => self.relation is Some && self.relation->0.related_model
                == name,
            _ => self.relation is None,
        }
    }
}

/// The fields that identify a record of a model.
#[derive(Debug, Clone, PartialEq, Eq)]
pub struct PrimaryKey {
    pub fields: Vec<String>,
    pub name: Option<String>,
}

/// The view of a [`PrimaryKey`].
pub struct PrimaryKeyView {
    pub fields: Seq<Seq<char>>,
    pub name: Option<Seq<char>>,
}

impl View for PrimaryKey {
    type V = PrimaryKeyView;

    open spec fn view(&self) -> PrimaryKeyView {
        PrimaryKeyView { fields: view_all(self.fields@), name: opt_view(self.name) }
    }
}

/// A record type with named, typed fields.
#[derive(Debug, Clone, PartialEq, Eq)]
pub struct Model {
    pub name: String,
    pub db_name: Option<String>,
    pub fields: Vec<Field>,
    pub primary_key: Option<PrimaryKey>,
    pub unique_fields: Vec<Vec<String>>,
}

/// The view of a [`Model`].
pub struct ModelView {
    pub name: Seq<char>,
    pub db_name: Option<Seq<char>>,
    pub fields: Seq<FieldView>,
    pub primary_key: Option<PrimaryKeyView>,
    pub unique_fields: Seq<Seq<Seq<char>>>,
}

impl View for Model {
    type V = ModelView;

    open spec fn view(&self) -> ModelView {
        ModelView {
            name: self.name@,
            db_name: opt_view(self.db_name),
            fields: view_all(self.fields@),
            primary_key: match self.primary_key {
                Some(k) => Some(k@),
                None => None,
            },
            unique_fields: Seq::new(
                self.unique_fields@.len(),
                |i: int| view_all(self.unique_fields@[i]@),
            ),
        }
    }
}

impl ModelView {
    /// Every field of the model is well formed.
    pub open spec fn wf(self) -> bool {
        forall|i: int| 0 <= i < self.fields.len() ==> (#[trigger] self.fields[i]).wf()
    }
}

/// One value of an enum, with the name it has in the store if that differs.
#[derive(Debug, Clone, PartialEq, Eq)]
pub struct EnumValue {
    pub name: String,
    pub db_name: Option<String>,
}

/// The view of an [`EnumValue`].
pub struct EnumValueView {
    pub name: Seq<char>,
    pub db_name: Option<Seq<char>>,
}

impl View for EnumValue {
    type V = EnumValueView;

    open spec fn view(&self) -> EnumValueView {
        EnumValueView { name: self.name@, db_name: opt_view(self.db_name) }
    }
}

/// A named list of values, in the order of their declaration.
#[derive(Debug, Clone, PartialEq, Eq)]
pub struct Enum {
    pub name: String,
    pub values: Vec<EnumValue>,
}

/// The view of an [`Enum`].
pub struct EnumView {
    pub name: Seq<char>,
    pub values: Seq<EnumValueView>,
}

impl View for Enum {
    type V = EnumView;

    open spec fn view(&self) -> EnumView {
        EnumView { name: self.name@, values: view_all(self.values@) }
    }
}

/// What ingestion yields: the models and the enums of a schema, each in the
/// order of declaration.
#[derive(Debug, Clone, PartialEq, Eq)]
pub struct ParsedSchema {
    pub models: Vec<Model>,
    pub enums: Vec<Enum>,
}

/// The view of a [`ParsedSchema`].
pub struct ParsedSchemaView {
    pub models: Seq<ModelView>,
    pub enums: Seq<EnumView>,
}

impl View for ParsedSchema {
    type V = ParsedSchemaView;

    open spec fn view(&self) -> ParsedSchemaView {
        ParsedSchemaView { models: view_all(self.models@), enums: view_all(self.enums@) }
    }
}

impl ParsedSchemaView {
    /// Every model of the schema is well formed.
    pub open spec fn wf(self) -> bool {
        forall|i: int| 0 <= i < self.models.len() ==> (#[trigger] self.models[i]).wf()
    }
}

} // verus!
