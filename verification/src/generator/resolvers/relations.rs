//! The resolvers of the relations of a model. A relation is defined in the
//! object type of its model, so it needs no file of its own.

use crate::generator::GeneratedFile;
use crate::schema::{Model, ParsedSchema};
use vstd::prelude::*;

verus! {

/// The files that the relations of `model` need beyond its object type: none.
pub fn generate(model: &Model, schema: &ParsedSchema) -> (r: Vec<GeneratedFile>)
    ensures
        r@.len() == 0,
{
    Vec::new()
}

} // verus!
