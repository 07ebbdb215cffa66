//! The enums of the layer: three that every schema shares, and those that
//! the schema declares.

use crate::generator::{GeneratedFile, GeneratedFileView};
use crate::schema::{Enum, EnumValueView, EnumView, ParsedSchema};
use crate::text::{glue3, join_with, joined_with, view_all};
use vstd::prelude::*;

verus! {

/// The text of the shared enums.
pub const BASE_ENUMS_TEXT: &'static str = r#"import { builder } from "../builder";

// SortOrder enum
export const SortOrder = builder.enumType("SortOrder", {
  values: ["asc", "desc"] as const,
});

// NullsOrder enum
export const NullsOrder = builder.enumType("NullsOrder", {
  values: ["first", "last"] as const,
});

// QueryMode enum
export const QueryMode = builder.enumType("QueryMode", {
  values: ["default", "insensitive"] as const,
});
"#;

/// The names of `values`, each between double quotes.
pub open spec fn quoted_names(values: Seq<EnumValueView>) -> Seq<Seq<char>> {
    Seq::new(values.len(), |i: int| "\""@ + values[i].name + "\""@)
}

/// The definition of the enum `e`.
pub open spec fn enum_text(e: EnumView) -> Seq<char> {
    "\n// "@ + e.name + " enum\nexport const "@ + e.name + " = builder.enumType(\""@ + e.name
        + "\", {\n  values: ["@ + joined_with(quoted_names(e.values), ", "@)
        + "] as const,\n});\n"@
}

/// The definitions of `enums`, one after the other.
pub open spec fn enum_texts(enums: Seq<EnumView>) -> Seq<char>
    decreases enums.len(),
{
    if enums.len() == 0 {
        Seq::empty()
    } else {
        enum_texts(enums.drop_last()) + enum_text(enums.last())
    }
}

/// The file of the shared enums.
pub open spec fn base_enums_file() -> GeneratedFileView {
    GeneratedFileView { path: "enums/index.ts"@, content: BASE_ENUMS_TEXT@ }
}

/// The file of all enums: what the file holds so far, `existing`, and the
/// definitions of `enums` after it.
pub open spec fn schema_enums_file(enums: Seq<EnumView>, existing: Seq<char>) -> GeneratedFileView {
    GeneratedFileView { path: "enums/index.ts"@, content: existing + enum_texts(enums) }
}

/// The file of the shared enums.
pub fn generate_base_enums() -> (r: GeneratedFile)
    ensures
        r@ == base_enums_file(),
{
    GeneratedFile { path: "enums/index.ts".to_owned(), content: BASE_ENUMS_TEXT.to_owned() }
}

fn enum_text_of(e: &Enum) -> (r: String)
    ensures
        r@ == enum_text(e@),
{
    let mut quoted: Vec<String> = Vec::new();
    let mut i: usize = 0;
    while i < e.values.len()
        invariant
            i <= e.values.len(),
            quoted@.len() == i,
            forall|k: int| 0 <= k < i ==> (#[trigger] quoted@[k])@ == "\""@ + e.values@[k].name@ + "\""@,
        decreases e.values.len() - i,
    {
        quoted.push(glue3("\"", e.values[i].name.as_str(), "\""));
        i += 1;
    }
    proof {
        assert(view_all(quoted@) =~= quoted_names(e@.values));
    }
    let values = join_with(&quoted, ", ");
    let name = e.name.as_str();
    let mut out = glue3("\n// ", name, " enum\nexport const ");
    out.append(name);
    out.append(" = builder.enumType(\"");
    out.append(name);
    out.append("\", {\n  values: [");
    out.append(values.as_str());
    out.append("] as const,\n});\n");
    out
}

/// The file of all enums: `existing`, which is what the file holds so far,
/// and the definitions of the enums of `schema` after it.
pub fn generate_schema_enums(schema: &ParsedSchema, existing: &str) -> (r: GeneratedFile)
    ensures
        r@ == schema_enums_file(schema@.enums, existing@),
{
    let mut body = String::new();
    let mut i: usize = 0;
    let ghost all = view_all(schema.enums@);
    proof {
        assert(all.take(0).len() == 0);
    }
    while i < schema.enums.len()
        invariant
            i <= schema.enums.len(),
            all == view_all(schema.enums@),
            body@ == enum_texts(all.take(i as int)),
        decreases schema.enums.len() - i,
    {
        proof {
            assert(all.take(i + 1).drop_last() =~= all.take(i as int));
            assert(all.take(i + 1).last() == schema.enums@[i as int]@);
        }
        let text = enum_text_of(&schema.enums[i]);
        body.append(text.as_str());
        i += 1;
    }
    proof {
        assert(all.take(i as int) =~= all);
    }
    let mut content = existing.to_owned();
    content.append(body.as_str());
    GeneratedFile { path: "enums/index.ts".to_owned(), content: content }
}

} // verus!
