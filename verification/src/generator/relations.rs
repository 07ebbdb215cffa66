//! The input types through which records are linked: one for each pair of a
//! model and a model that it is related to, apart for lists.

use crate::generator::inputs::{relation_input_name, relation_input_name_of};
use crate::generator::{GeneratedFile, GeneratedFileView};
use crate::schema::{FieldType, FieldTypeView, FieldView, Model, ModelView, ParsedSchema};
use crate::text::{glue5, has_name, lemma_view_all_push, view_all};
use vstd::prelude::*;

verus! {

/// An input type that links records of `related_model` to a record of
/// `model`.
#[derive(Debug, Clone, PartialEq, Eq)]
pub struct RelationInput {
    pub name: String,
    pub model: String,
    pub related_model: String,
    pub is_list: bool,
}

/// The view of a [`RelationInput`].
pub struct RelationInputView {
    pub name: Seq<char>,
    pub model: Seq<char>,
    pub related_model: Seq<char>,
    pub is_list: bool,
}

impl View for RelationInput {
    type V = RelationInputView;

    open spec fn view(&self) -> RelationInputView {
        RelationInputView {
            name: self.name@,
            model: self.model@,
            related_model: self.related_model@,
            is_list: self.is_list,
        }
    }
}

/// Whether one of `inputs` has the name `name`.
pub open spec fn has_input(inputs: Seq<RelationInputView>, name: Seq<char>) -> bool {
    exists|k: int| 0 <= k < inputs.len() && (#[trigger] inputs[k]).name == name
}

/// `inputs` and the relation input types that the fields `fields` of the
/// model `model` need beyond them, in the order of the fields.
pub open spec fn with_relation_inputs(
    inputs: Seq<RelationInputView>,
    model: Seq<char>,
    fields: Seq<FieldView>,
) -> Seq<RelationInputView>
    decreases fields.len(),
{
    if fields.len() == 0 {
        inputs
    } else {
        let before = with_relation_inputs(inputs, model, fields.drop_last());
        match (fields.last().relation, fields.last().field_type) {
            (Some(_), FieldTypeView::Model(related)) => {
                let name = relation_input_name(model, related, fields.last().is_list);
                if has_input(before, name) {
                    before
                } else {
                    before.push(
                        RelationInputView {
                            name: name,
                            model: model,
                            related_model: related,
                            is_list: fields.last().is_list,
                        },
                    )
                }
            },
            _ => before,
        }
    }
}

/// The relation input types that `models` need, each name once, in the order
/// in which they first occur.
pub open spec fn relation_inputs(models: Seq<ModelView>) -> Seq<RelationInputView>
    decreases models.len(),
{
    if models.len() == 0 {
        Seq::empty()
    } else {
        with_relation_inputs(
            relation_inputs(models.drop_last()),
            models.last().name,
            models.last().fields,
        )
    }
}

/// The models that `inputs` link to, each once, in the order in which they
/// first occur.
pub open spec fn linked_models(inputs: Seq<RelationInputView>) -> Seq<Seq<char>>
    decreases inputs.len(),
{
    if inputs.len() == 0 {
        Seq::empty()
    } else {
        let before = linked_models(inputs.drop_last());
        if before.contains(inputs.last().related_model) {
            before
        } else {
            before.push(inputs.last().related_model)
        }
    }
}

/// The two lines that import what links to the model `model`.
pub open spec fn linked_import(model: Seq<char>) -> Seq<char> {
    "import { "@ + model + "WhereUniqueRelationInput } from \"./"@ + model
        + "WhereUniqueRelationInput\";\nimport { "@ + model + "RelationCreateInput } from \"./"@
        + model + "RelationCreateInput\";\n"@
}

/// The imports of what links to each of `models`.
pub open spec fn linked_imports(models: Seq<Seq<char>>) -> Seq<char>
    decreases models.len(),
{
    if models.len() == 0 {
        Seq::empty()
    } else {
        linked_imports(models.drop_last()) + linked_import(models.last())
    }
}

/// The definition of one relation input type.
pub open spec fn relation_input_text(input: RelationInputView) -> Seq<char> {
    let (open, close) = if input.is_list {
        ("["@, "]"@)
    } else {
        (Seq::<char>::empty(), Seq::<char>::empty())
    };
    "export const "@ + input.name + " = builder.inputType(\""@ + input.name
        + "\", {\n  fields: (t) => ({\n    connect: t.field({ type: "@ + open
        + input.related_model + "WhereUniqueRelationInput"@ + close
        + " }),\n    create: t.field({ type: "@ + open + input.related_model
        + "RelationCreateInput"@ + close + " }),\n    disconnect: t.field({ type: "@ + open
        + input.related_model + "WhereUniqueRelationInput"@ + close + " }),\n  }),\n});\n\n"@
}

/// The definitions of `inputs`, one after the other.
pub open spec fn relation_input_texts(inputs: Seq<RelationInputView>) -> Seq<char>
    decreases inputs.len(),
{
    if inputs.len() == 0 {
        Seq::empty()
    } else {
        relation_input_texts(inputs.drop_last()) + relation_input_text(inputs.last())
    }
}

/// The text of the file of `inputs`.
pub open spec fn relations_text(inputs: Seq<RelationInputView>) -> Seq<char> {
    "import { builder } from \"../builder\";\n"@ + linked_imports(linked_models(inputs)) + "\n"@
        + relation_input_texts(inputs)
}

/// The file of the relation input types of `models`.
pub open spec fn relations_file(models: Seq<ModelView>) -> GeneratedFileView {
    GeneratedFileView {
        path: "inputs/relations.ts"@,
        content: relations_text(relation_inputs(models)),
    }
}

fn has_input_of(inputs: &Vec<RelationInput>, name: &str) -> (r: bool)
    ensures
        r == has_input(view_all(inputs@), name@),
{
    let wanted = name.to_owned();
    let mut i: usize = 0;
    while i < inputs.len()
        invariant
            i <= inputs.len(),
            wanted@ == name@,
            forall|k: int| 0 <= k < i ==> (#[trigger] view_all(inputs@)[k]).name != name@,
        decreases inputs.len() - i,
    {
        if inputs[i].name == wanted {
            proof {
                assert(view_all(inputs@)[i as int].name == name@);
            }
            return true;
        }
        i += 1;
    }
    false
}

/// The relation input types that the models of a schema need.
pub fn collect_relation_inputs(models: &Vec<Model>) -> (r: Vec<RelationInput>)
    ensures
        view_all(r@) == relation_inputs(view_all(models@)),
{
    let mut inputs: Vec<RelationInput> = Vec::new();
    let mut i: usize = 0;
    let ghost all = view_all(models@);
    proof {
        assert(all.take(0).len() == 0);
        assert(view_all(inputs@) =~= Seq::<RelationInputView>::empty());
    }
    while i < models.len()
        invariant
            i <= models.len(),
            all == view_all(models@),
            view_all(inputs@) == relation_inputs(all.take(i as int)),
        decreases models.len() - i,
    {
        let model = &models[i];
        let ghost before = view_all(inputs@);
        let ghost fields = view_all(model.fields@);
        let mut j: usize = 0;
        proof {
            assert(all.take(i + 1).drop_last() =~= all.take(i as int));
            assert(all.take(i + 1).last() == models@[i as int]@);
            assert(fields.take(0).len() == 0);
        }
        while j < model.fields.len()
            invariant
                j <= model.fields.len(),
                fields == view_all(model.fields@),
                view_all(inputs@) == with_relation_inputs(before, model.name@, fields.take(j as int)),
            decreases model.fields.len() - j,
        {
            proof {
                assert(fields.take(j + 1).drop_last() =~= fields.take(j as int));
                assert(fields.take(j + 1).last() == model.fields@[j as int]@);
            }
            let field = &model.fields[j];
            if field.relation.is_some() {
                match &field.field_type {
                    FieldType::Model(related) => {
                        let name = relation_input_name_of(
                            model.name.as_str(),
                            related.as_str(),
                            field.is_list,
                        );
                        if !has_input_of(&inputs, name.as_str()) {
                            let input = RelationInput {
                                name: name,
                                model: model.name.clone(),
                                related_model: related.clone(),
                                is_list: field.is_list,
                            };
                            proof {
                                lemma_view_all_push(inputs@, input);
                            }
                            inputs.push(input);
                        }
                    },
                    _ => {},
                }
            }
            j += 1;
        }
        proof {
            assert(fields.take(j as int) =~= fields);
        }
        i += 1;
    }
    proof {
        assert(all.take(i as int) =~= all);
    }
    inputs
}

fn collect_linked_models(inputs: &Vec<RelationInput>) -> (r: Vec<String>)
    ensures
        view_all(r@) == linked_models(view_all(inputs@)),
{
    let mut models: Vec<String> = Vec::new();
    let mut i: usize = 0;
    let ghost all = view_all(inputs@);
    proof {
        assert(all.take(0).len() == 0);
        assert(view_all(models@) =~= Seq::<Seq<char>>::empty());
    }
    while i < inputs.len()
        invariant
            i <= inputs.len(),
            all == view_all(inputs@),
            view_all(models@) == linked_models(all.take(i as int)),
        decreases inputs.len() - i,
    {
        proof {
            assert(all.take(i + 1).drop_last() =~= all.take(i as int));
            assert(all.take(i + 1).last() == inputs@[i as int]@);
        }
        if !has_name(&models, inputs[i].related_model.as_str()) {
            let owned = inputs[i].related_model.clone();
            proof {
                lemma_view_all_push(models@, owned);
            }
            models.push(owned);
        }
        i += 1;
    }
    proof {
        assert(all.take(i as int) =~= all);
    }
    models
}

fn linked_import_of(model: &str) -> (r: String)
    ensures
        r@ == linked_import(model@),
{
    let mut out = glue5(
        "import { ",
        model,
        "WhereUniqueRelationInput } from \"./",
        model,
        "WhereUniqueRelationInput\";\nimport { ",
    );
    out.append(model);
    out.append("RelationCreateInput } from \"./");
    out.append(model);
    out.append("RelationCreateInput\";\n");
    out
}

fn relation_input_text_of(input: &RelationInput) -> (r: String)
    ensures
        r@ == relation_input_text(input@),
{
    proof {
        reveal_strlit("");
        assert(""@ =~= Seq::<char>::empty());
    }
    let open = if input.is_list {
        "["
    } else {
        ""
    };
    let close = if input.is_list {
        "]"
    } else {
        ""
    };
    let related = input.related_model.as_str();
    let mut out = glue5(
        "export const ",
        input.name.as_str(),
        " = builder.inputType(\"",
        input.name.as_str(),
        "\", {\n  fields: (t) => ({\n    connect: t.field({ type: ",
    );
    out.append(open);
    out.append(related);
    out.append("WhereUniqueRelationInput");
    out.append(close);
    out.append(" }),\n    create: t.field({ type: ");
    out.append(open);
    out.append(related);
    out.append("RelationCreateInput");
    out.append(close);
    out.append(" }),\n    disconnect: t.field({ type: ");
    out.append(open);
    out.append(related);
    out.append("WhereUniqueRelationInput");
    out.append(close);
    out.append(" }),\n  }),\n});\n\n");
    out
}

/// The file that defines `inputs`.
pub fn generate_relations_file(inputs: &Vec<RelationInput>) -> (r: GeneratedFile)
    ensures
        r@.path == "inputs/relations.ts"@,
        r@.content == relations_text(view_all(inputs@)),
{
    let linked = collect_linked_models(inputs);
    let mut imports = String::new();
    let mut k: usize = 0;
    let ghost names = view_all(linked@);
    proof {
        assert(names.take(0).len() == 0);
    }
    while k < linked.len()
        invariant
            k <= linked.len(),
            names == view_all(linked@),
            imports@ == linked_imports(names.take(k as int)),
        decreases linked.len() - k,
    {
        proof {
            assert(names.take(k + 1).drop_last() =~= names.take(k as int));
            assert(names.take(k + 1).last() == linked@[k as int]@);
        }
        let text = linked_import_of(linked[k].as_str());
        imports.append(text.as_str());
        k += 1;
    }
    let mut body = String::new();
    let mut i: usize = 0;
    let ghost all = view_all(inputs@);
    proof {
        assert(names.take(k as int) =~= names);
        assert(all.take(0).len() == 0);
    }
    while i < inputs.len()
        invariant
            i <= inputs.len(),
            all == view_all(inputs@),
            body@ == relation_input_texts(all.take(i as int)),
        decreases inputs.len() - i,
    {
        proof {
            assert(all.take(i + 1).drop_last() =~= all.take(i as int));
            assert(all.take(i + 1).last() == inputs@[i as int]@);
        }
        let text = relation_input_text_of(&inputs[i]);
        body.append(text.as_str());
        i += 1;
    }
    proof {
        assert(all.take(i as int) =~= all);
    }
    let mut content = "import { builder } from \"../builder\";\n".to_owned();
    content.append(imports.as_str());
    content.append("\n");
    content.append(body.as_str());
    GeneratedFile { path: "inputs/relations.ts".to_owned(), content: content }
}

/// The file of the relation input types of all models of `schema`.
pub fn generate_all_relation_inputs(schema: &ParsedSchema) -> (r: GeneratedFile)
    ensures
        r@ == relations_file(schema@.models),
{
    generate_relations_file(&collect_relation_inputs(&schema.models))
}

} // verus!
