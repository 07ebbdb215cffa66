//! The mutation that creates many records of a model.

use crate::generator::{GeneratedFile, GeneratedFileView};
use crate::names::{derived_names, get_prisma_name};
use crate::schema::Model;
use crate::text::glue3;
use vstd::prelude::*;

verus! {

/// The text of the resolver for the model named `model`.
pub open spec fn resolver_text(model: Seq<char>) -> Seq<char> {
    let names = derived_names(model);
    r#"import { builder, AffectedRowsOutput } from "../builder";
import { "#@
        + names.create_many_input
        + r#" } from "../inputs/"#@
        + names.create_many_input
        + r#"";

builder.mutationField(""#@
        + names.create_many
        + r#"", (t) =>
  t.field({
    type: AffectedRowsOutput,
    nullable: false,
    args: {
      data: t.arg({ type: ["#@
        + names.create_many_input
        + r#"], required: true }),
      skipDuplicates: t.arg.boolean(),
    },
    resolve: async (_root, args, ctx) => {
      const result = await ctx.prisma."#@
        + names.query_new2
        + r#".createMany({
        data: args.data,
        skipDuplicates: args.skipDuplicates ?? undefined,
      });
      return result;
    },
  })
);
"#@
}

/// The file of the resolver for the model named `model`.
pub open spec fn resolver_file(model: Seq<char>) -> GeneratedFileView {
    GeneratedFileView {
        path: "resolvers/createMany"@ + model + ".ts"@,
        content: resolver_text(model),
    }
}

/// The file of the resolver for `model`.
pub fn generate(model: &Model) -> (r: GeneratedFile)
    ensures
        r@ == resolver_file(model@.name),
{
    let names = get_prisma_name(model.name.as_str());
    let mut content = r#"import { builder, AffectedRowsOutput } from "../builder";
import { "#.to_owned();
    content.append(names.create_many_input.as_str());
    content.append(r#" } from "../inputs/"#);
    content.append(names.create_many_input.as_str());
    content.append(r#"";

builder.mutationField(""#);
    content.append(names.create_many.as_str());
    content.append(r#"", (t) =>
  t.field({
    type: AffectedRowsOutput,
    nullable: false,
    args: {
      data: t.arg({ type: ["#);
    content.append(names.create_many_input.as_str());
    content.append(r#"], required: true }),
      skipDuplicates: t.arg.boolean(),
    },
    resolve: async (_root, args, ctx) => {
      const result = await ctx.prisma."#);
    content.append(names.query_new2.as_str());
    content.append(r#".createMany({
        data: args.data,
        skipDuplicates: args.skipDuplicates ?? undefined,
      });
      return result;
    },
  })
);
"#);
    GeneratedFile { path: glue3("resolvers/createMany", model.name.as_str(), ".ts"), content: content }
}

} // verus!
