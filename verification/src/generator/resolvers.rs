//! The resolvers of a model: one file for each operation that is not
//! defined by hand.

pub mod aggregate;
pub mod create_many;
pub mod create_one;
pub mod find_many;
pub mod find_unique;
pub mod relations;
pub mod update_one;

use crate::generator::{append_files, GeneratedFile, GeneratedFileView};
use crate::names::{derived_names, get_prisma_name};
use crate::scanner::{ManualResolvers, ManualResolversView};
use crate::schema::{Model, ModelView, ParsedSchema};
use crate::text::{lemma_view_all_push, view_all};
use vstd::prelude::*;

verus! {

/// `file`, unless `skip` holds.
pub open spec fn unless(skip: bool, file: GeneratedFileView) -> Seq<GeneratedFileView> {
    if skip {
        Seq::empty()
    } else {
        seq![file]
    }
}

/// The resolver files of the model `m`: one for each of its five operations
/// that `manual` does not hold under the name of the operation.
pub open spec fn resolver_files(m: ModelView, manual: ManualResolversView) -> Seq<
    GeneratedFileView,
> {
    let names = derived_names(m.name);
    unless(manual.mutations.contains(names.create), create_one::resolver_file(m.name)) + unless(
        manual.queries.contains(names.find_many),
        find_many::resolver_file(m.name),
    ) + unless(manual.queries.contains(names.find), find_unique::resolver_file(m.name)) + unless(
        manual.queries.contains(names.aggregate),
        aggregate::resolver_file(m.name),
    ) + unless(manual.mutations.contains(names.update), update_one::resolver_file(m.name))
}

fn push_unless(files: &mut Vec<GeneratedFile>, skip: bool, file: GeneratedFile)
    ensures
        view_all(final(files)@) == view_all(old(files)@) + unless(skip, file@),
{
    if skip {
        proof {
            assert(view_all(files@) + Seq::<GeneratedFileView>::empty() =~= view_all(files@));
        }
    } else {
        proof {
            lemma_view_all_push(files@, file);
            assert(view_all(files@).push(file@) =~= view_all(files@) + seq![file@]);
        }
        files.push(file);
    }
}

/// The resolver files of `model`, leaving out what `manual_resolvers` holds.
pub fn generate_resolvers(
    model: &Model,
    schema: &ParsedSchema,
    manual_resolvers: &ManualResolvers,
) -> (r: Vec<GeneratedFile>)
    ensures
        view_all(r@) == resolver_files(model@, manual_resolvers@),
{
    let names = get_prisma_name(model.name.as_str());
    let mut files: Vec<GeneratedFile> = Vec::new();
    proof {
        assert(view_all(files@) =~= Seq::<GeneratedFileView>::empty());
    }
    push_unless(
        &mut files,
        manual_resolvers.contains_mutation(names.create.as_str()),
        create_one::generate(model),
    );
    proof {
        assert(view_all(files@) =~= unless(
            manual_resolvers@.mutations.contains(names@.create),
            create_one::resolver_file(model@.name),
        ));
    }
    push_unless(
        &mut files,
        manual_resolvers.contains_query(names.find_many.as_str()),
        find_many::generate(model),
    );
    push_unless(
        &mut files,
        manual_resolvers.contains_query(names.find.as_str()),
        find_unique::generate(model),
    );
    push_unless(
        &mut files,
        manual_resolvers.contains_query(names.aggregate.as_str()),
        aggregate::generate(model),
    );
    push_unless(
        &mut files,
        manual_resolvers.contains_mutation(names.update.as_str()),
        update_one::generate(model),
    );
    let more = relations::generate(model, schema);
    proof {
        assert(view_all(more@) =~= Seq::<GeneratedFileView>::empty());
        assert(view_all(files@) + view_all(more@) =~= view_all(files@));
    }
    append_files(&mut files, more);
    files
}

} // verus!
