//! The mutation that creates one record of a model.

use crate::generator::{GeneratedFile, GeneratedFileView};
use crate::names::{derived_names, get_prisma_name};
use crate::schema::Model;
use crate::text::glue3;
use vstd::prelude::*;

verus! {

/// The text of the resolver for the model named `model`.
pub open spec fn resolver_text(model: Seq<char>) -> Seq<char> {
    let names = derived_names(model);
    r#"import { builder } from "../builder";
import { "#@
        + model
        + r#" } from "../models/"#@
        + model
        + r#"";
import { "#@
        + model
        + r#"CreateInput } from "../inputs/"#@
        + model
        + r#"CreateInput";

builder.mutationField(""#@
        + names.create
        + r#"", (t) =>
  t.prismaField({
    nullable: false,
    type: ""#@
        + model
        + r#"",
    args: {
      data: t.arg({ type: "#@
        + model
        + r#"CreateInput, required: true }),
    },
    resolve: async (query, _root, args, ctx) => {
      return ctx.prisma."#@
        + names.query_new2
        + r#".create({
        ...query,
        data: args.data,
      });
    },
  })
);
"#@
}

/// The file of the resolver for the model named `model`.
pub open spec fn resolver_file(model: Seq<char>) -> GeneratedFileView {
    GeneratedFileView {
        path: "resolvers/createOne"@ + model + ".ts"@,
        content: resolver_text(model),
    }
}

/// The file of the resolver for `model`.
pub fn generate(model: &Model) -> (r: GeneratedFile)
    ensures
        r@ == resolver_file(model@.name),
{
    let names = get_prisma_name(model.name.as_str());
    let mut content = r#"import { builder } from "../builder";
import { "#.to_owned();
    content.append(model.name.as_str());
    content.append(r#" } from "../models/"#);
    content.append(model.name.as_str());
    content.append(r#"";
import { "#);
    content.append(model.name.as_str());
    content.append(r#"CreateInput } from "../inputs/"#);
    content.append(model.name.as_str());
    content.append(r#"CreateInput";

builder.mutationField(""#);
    content.append(names.create.as_str());
    content.append(r#"", (t) =>
  t.prismaField({
    nullable: false,
    type: ""#);
    content.append(model.name.as_str());
    content.append(r#"",
    args: {
      data: t.arg({ type: "#);
    content.append(model.name.as_str());
    content.append(r#"CreateInput, required: true }),
    },
    resolve: async (query, _root, args, ctx) => {
      return ctx.prisma."#);
    content.append(names.query_new2.as_str());
    content.append(r#".create({
        ...query,
        data: args.data,
      });
    },
  })
);
"#);
    GeneratedFile { path: glue3("resolvers/createOne", model.name.as_str(), ".ts"), content: content }
}

} // verus!
