//! The query that finds many records of a model.

use crate::generator::{GeneratedFile, GeneratedFileView};
use crate::names::{derived_names, get_prisma_name};
use crate::schema::Model;
use crate::text::glue3;
use vstd::prelude::*;

verus! {

/// The text of the resolver for the model named `model`.
pub open spec fn resolver_text(model: Seq<char>) -> Seq<char> {
    let names = derived_names(model);
    r#"import { builder } from "../builder";
import { "#@
        + model
        + r#" } from "../models/"#@
        + model
        + r#"";
import { "#@
        + model
        + r#"WhereInput } from "../inputs/"#@
        + model
        + r#"WhereInput";
import { "#@
        + model
        + r#"OrderByInput } from "../inputs/"#@
        + model
        + r#"OrderByInput";

builder.queryField(""#@
        + names.find_many
        + r#"", (t) =>
  t.prismaField({
    nullable: false,
    type: [""#@
        + model
        + r#""],
    args: {
      where: t.arg({ type: "#@
        + model
        + r#"WhereInput }),
      orderBy: t.arg({ type: ["#@
        + model
        + r#"OrderByInput] }),
      first: t.arg.int(),
      last: t.arg.int(),
    },
    resolve: async (query, _root, args, ctx) => {
      return ctx.prisma."#@
        + names.query_new2
        + r#".findMany({
        ...query,
        where: args.where ?? undefined,
        orderBy: (args.orderBy ?? undefined) as any,
        take: args.first ?? undefined,
        skip: args.last ?? undefined,
      });
    },
  })
);
"#@
}

/// The file of the resolver for the model named `model`.
pub open spec fn resolver_file(model: Seq<char>) -> GeneratedFileView {
    GeneratedFileView {
        path: "resolvers/findMany"@ + model + ".ts"@,
        content: resolver_text(model),
    }
}

/// The file of the resolver for `model`.
pub fn generate(model: &Model) -> (r: GeneratedFile)
    ensures
        r@ == resolver_file(model@.name),
{
    let names = get_prisma_name(model.name.as_str());
    let mut content = r#"import { builder } from "../builder";
import { "#.to_owned();
    content.append(model.name.as_str());
    content.append(r#" } from "../models/"#);
    content.append(model.name.as_str());
    content.append(r#"";
import { "#);
    content.append(model.name.as_str());
    content.append(r#"WhereInput } from "../inputs/"#);
    content.append(model.name.as_str());
    content.append(r#"WhereInput";
import { "#);
    content.append(model.name.as_str());
    content.append(r#"OrderByInput } from "../inputs/"#);
    content.append(model.name.as_str());
    content.append(r#"OrderByInput";

builder.queryField(""#);
    content.append(names.find_many.as_str());
    content.append(r#"", (t) =>
  t.prismaField({
    nullable: false,
    type: [""#);
    content.append(model.name.as_str());
    content.append(r#""],
    args: {
      where: t.arg({ type: "#);
    content.append(model.name.as_str());
    content.append(r#"WhereInput }),
      orderBy: t.arg({ type: ["#);
    content.append(model.name.as_str());
    content.append(r#"OrderByInput] }),
      first: t.arg.int(),
      last: t.arg.int(),
    },
    resolve: async (query, _root, args, ctx) => {
      return ctx.prisma."#);
    content.append(names.query_new2.as_str());
    content.append(r#".findMany({
        ...query,
        where: args.where ?? undefined,
        orderBy: (args.orderBy ?? undefined) as any,
        take: args.first ?? undefined,
        skip: args.last ?? undefined,
      });
    },
  })
);
"#);
    GeneratedFile { path: glue3("resolvers/findMany", model.name.as_str(), ".ts"), content: content }
}

} // verus!
