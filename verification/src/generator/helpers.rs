//! The builder that every other file of the layer imports.

use crate::generator::{GeneratedFile, GeneratedFileView};
use vstd::prelude::*;

verus! {

/// The text of the builder file.
pub const BUILDER_TEXT: &'static str = r#"import SchemaBuilder from "@pothos/core";
import PrismaPlugin from "@pothos/plugin-prisma";
import { PrismaClient } from "@prisma/client";
import SimpleObjectsPlugin from '@pothos/plugin-simple-objects';
import type PrismaTypes from "@pothos/plugin-prisma/generated";

// Initialize Prisma Client
export const prisma = new PrismaClient();

// Define context type
export interface Context {
  prisma: PrismaClient;
}

// Initialize Pothos Builder with Prisma Plugin
export const builder = new SchemaBuilder<{
  // @ts-ignore
  PrismaTypes: PrismaTypes;
  Context: any; // TODO: put Context interface here (breaks)
  Scalars: {
    DateTime: {
      Input: Date;
      Output: Date;
    };
    JSON: {
      Input: unknown;
      Output: unknown;
    };
  };
  // @ts-ignore
}>({
  plugins: [PrismaPlugin, SimpleObjectsPlugin],
  prisma: {
    client: prisma,
    exposeDescriptions: true,
    filterConnectionTotalCount: true,
  },
});

// Add DateTime scalar
builder.scalarType("DateTime", {
  serialize: (value) => value.toISOString(),
  parseValue: (value) => new Date(value as string),
});

// Add JSON scalar
builder.scalarType("JSON", {
  serialize: (value) => value,
  parseValue: (value) => value,
});

// Initialize Query and Mutation types
builder.queryType({});
builder.mutationType({});
"#;

/// The file `builder.ts`.
pub open spec fn generate_helpers_file() -> GeneratedFileView {
    GeneratedFileView { path: "builder.ts"@, content: BUILDER_TEXT@ }
}

/// The builder file.
pub fn generate_helpers() -> (r: GeneratedFile)
    ensures
        r@ == generate_helpers_file(),
{
    GeneratedFile { path: "builder.ts".to_owned(), content: BUILDER_TEXT.to_owned() }
}

} // verus!
