//! The mutation that updates one record of a model.

use crate::generator::{GeneratedFile, GeneratedFileView};
use crate::names::{derived_names, get_prisma_name};
use crate::schema::Model;
use crate::text::glue3;
use vstd::prelude::*;

verus! {

/// The text of the resolver for the model named `model`.
pub open spec fn resolver_text(model: Seq<char>) -> Seq<char> {
    let names = derived_names(model);
    r#"import { builder } from "../builder";
import { "#@
        + model
        + r#" } from "../models/"#@
        + model
        + r#"";
import { "#@
        + model
        + r#"UpdateInput } from "../inputs/"#@
        + model
        + r#"UpdateInput";
import { "#@
        + model
        + r#"WhereUniqueInput } from "../inputs/"#@
        + model
        + r#"WhereUniqueInput";

builder.mutationField(""#@
        + names.update
        + r#"", (t) =>
  t.prismaField({
    type: ""#@
        + model
        + r#"",
    nullable: true,
    args: {
      where: t.arg({ type: "#@
        + model
        + r#"WhereUniqueInput, required: true }),
      data: t.arg({ type: "#@
        + model
        + r#"UpdateInput, required: true }),
    },
    resolve: async (query, _root, args, ctx) => {
      return ctx.prisma."#@
        + names.query_new2
        + r#".update({
        ...query,
        where: args.where,
        data: args.data,
      });
    },
  })
);
"#@
}

/// The file of the resolver for the model named `model`.
pub open spec fn resolver_file(model: Seq<char>) -> GeneratedFileView {
    GeneratedFileView {
        path: "resolvers/updateOne"@ + model + ".ts"@,
        content: resolver_text(model),
    }
}

/// The file of the resolver for `model`.
pub fn generate(model: &Model) -> (r: GeneratedFile)
    ensures
        r@ == resolver_file(model@.name),
{
    let names = get_prisma_name(model.name.as_str());
    let mut content = r#"import { builder } from "../builder";
import { "#.to_owned();
    content.append(model.name.as_str());
    content.append(r#" } from "../models/"#);
    content.append(model.name.as_str());
    content.append(r#"";
import { "#);
    content.append(model.name.as_str());
    content.append(r#"UpdateInput } from "../inputs/"#);
    content.append(model.name.as_str());
    content.append(r#"UpdateInput";
import { "#);
    content.append(model.name.as_str());
    content.append(r#"WhereUniqueInput } from "../inputs/"#);
    content.append(model.name.as_str());
    content.append(r#"WhereUniqueInput";

builder.mutationField(""#);
    content.append(names.update.as_str());
    content.append(r#"", (t) =>
  t.prismaField({
    type: ""#);
    content.append(model.name.as_str());
    content.append(r#"",
    nullable: true,
    args: {
      where: t.arg({ type: "#);
    content.append(model.name.as_str());
    content.append(r#"WhereUniqueInput, required: true }),
      data: t.arg({ type: "#);
    content.append(model.name.as_str());
    content.append(r#"UpdateInput, required: true }),
    },
    resolve: async (query, _root, args, ctx) => {
      return ctx.prisma."#);
    content.append(names.query_new2.as_str());
    content.append(r#".update({
        ...query,
        where: args.where,
        data: args.data,
      });
    },
  })
);
"#);
    GeneratedFile { path: glue3("resolvers/updateOne", model.name.as_str(), ".ts"), content: content }
}

} // verus!
