//! The query that counts the records of a model.

use crate::generator::{GeneratedFile, GeneratedFileView};
use crate::names::{capitalize_first, derived_names, get_prisma_name, upper_first};
use crate::schema::Model;
use crate::text::{glue2, glue3};
use vstd::prelude::*;

verus! {

/// The text of the resolver for the model named `model`.
pub open spec fn resolver_text(model: Seq<char>) -> Seq<char> {
    let names = derived_names(model);
    r#"import { builder } from "../builder";
import { "#@
        + model
        + r#"WhereInput } from "../inputs/"#@
        + model
        + r#"WhereInput";

// Define aggregate result type
const "#@
        + model
        + r#"AggregateResult = builder.simpleObject("Aggregate"#@
        + model
        + r#"", {
  fields: (t) => ({
    _count: t.int({}),
  }),
});

builder.queryField(""#@
        + ("aggregate"@ + upper_first(model))
        + r#"", (t) =>
  t.field({
    type: "#@
        + model
        + r#"AggregateResult,
    nullable: false,
    args: {
      where: t.arg({ type: "#@
        + model
        + r#"WhereInput }),
    },
    resolve: async (_root, args, ctx) => {
      const result = await ctx.prisma."#@
        + names.query_new2
        + r#".aggregate({
        where: args.where ?? undefined,
        _count: true,
      });
      return {
        _count: result._count,
      };
    },
  })
);
"#@
}

/// The file of the resolver for the model named `model`.
pub open spec fn resolver_file(model: Seq<char>) -> GeneratedFileView {
    GeneratedFileView {
        path: "resolvers/aggregate"@ + model + ".ts"@,
        content: resolver_text(model),
    }
}

/// The file of the resolver for `model`.
pub fn generate(model: &Model) -> (r: GeneratedFile)
    ensures
        r@ == resolver_file(model@.name),
{
    let names = get_prisma_name(model.name.as_str());
    let query = glue2("aggregate", capitalize_first(model.name.as_str()).as_str());
    let mut content = r#"import { builder } from "../builder";
import { "#.to_owned();
    content.append(model.name.as_str());
    content.append(r#"WhereInput } from "../inputs/"#);
    content.append(model.name.as_str());
    content.append(r#"WhereInput";

// Define aggregate result type
const "#);
    content.append(model.name.as_str());
    content.append(r#"AggregateResult = builder.simpleObject("Aggregate"#);
    content.append(model.name.as_str());
    content.append(r#"", {
  fields: (t) => ({
    _count: t.int({}),
  }),
});

builder.queryField(""#);
    content.append(query.as_str());
    content.append(r#"", (t) =>
  t.field({
    type: "#);
    content.append(model.name.as_str());
    content.append(r#"AggregateResult,
    nullable: false,
    args: {
      where: t.arg({ type: "#);
    content.append(model.name.as_str());
    content.append(r#"WhereInput }),
    },
    resolve: async (_root, args, ctx) => {
      const result = await ctx.prisma."#);
    content.append(names.query_new2.as_str());
    content.append(r#".aggregate({
        where: args.where ?? undefined,
        _count: true,
      });
      return {
        _count: result._count,
      };
    },
  })
);
"#);
    GeneratedFile { path: glue3("resolvers/aggregate", model.name.as_str(), ".ts"), content: content }
}

} // verus!
