//! The names derived from the name of a model: the operations of the GraphQL
//! layer, its input types, and the accessor of the backing store.
//!
//! Two lines of spelling are kept side by side. The names that face GraphQL
//! go through the camel-case transform; the accessor of the store does not.
//! Both plurals are kept too: the plain one, and the one that takes one `s`
//! off a plural that ends in two.

use crate::text::{chars_of, ends_with, slice_of, string_of};
use vstd::prelude::*;

verus! {

/// What `char::to_lowercase` yields for `c`: its lowercase mapping in
/// Unicode, one character or more.
pub uninterp spec fn lowercase_of(c: char) -> Seq<char>;

/// What `char::to_uppercase` yields for `c`: its uppercase mapping in
/// Unicode, one character or more.
pub uninterp spec fn uppercase_of(c: char) -> Seq<char>;

/// Whether `char::is_alphabetic` holds of `c`: whether it has the property
/// `Alphabetic` of Unicode.
pub uninterp spec fn alphabetic(c: char) -> bool;

/// `char::to_lowercase` maps a character to its lowercase form by the tables
/// of Unicode; the characters that it yields are collected in order. The
/// contract only names that result.
#[verifier::external_body]
fn to_lowercase(c: char) -> (r: Vec<char>)
    ensures
        r@ == lowercase_of(c),
{
    c.to_lowercase().collect()
}

/// `char::to_uppercase` maps a character to its uppercase form by the tables
/// of Unicode; the characters that it yields are collected in order. The
/// contract only names that result.
#[verifier::external_body]
fn to_uppercase(c: char) -> (r: Vec<char>)
    ensures
        r@ == uppercase_of(c),
{
    c.to_uppercase().collect()
}

/// `char::is_alphabetic` tells whether a character has the property
/// `Alphabetic` of Unicode. The contract only names that result.
#[verifier::external_body]
fn is_alphabetic(c: char) -> (r: bool)
    ensures
        r == alphabetic(c),
{
    c.is_alphabetic()
}

/// `s` with `head` in place of its first character; an empty `s` stays empty.
pub open spec fn with_head(s: Seq<char>, head: Seq<char>) -> Seq<char> {
    if s.len() == 0 {
        s
    } else {
        head + s.skip(1)
    }
}

/// `s` with its first character in lowercase.
pub open spec fn lower_first(s: Seq<char>) -> Seq<char> {
    if s.len() == 0 {
        s
    } else {
        with_head(s, lowercase_of(s[0]))
    }
}

/// `s` with its first character in uppercase.
pub open spec fn upper_first(s: Seq<char>) -> Seq<char> {
    if s.len() == 0 {
        s
    } else {
        with_head(s, uppercase_of(s[0]))
    }
}

/// Whether `c` is a letter: a letter of ASCII, or a character beyond ASCII
/// that is alphabetic.
pub open spec fn is_letter(c: char) -> bool {
    if (c as u32) < 128 {
        ('a' <= c && c <= 'z') || ('A' <= c && c <= 'Z')
    } else {
        alphabetic(c)
    }
}

/// The camel-case form of `s`: every underscore that a letter follows is
/// taken out, and that letter put in uppercase. Any other underscore stays.
pub open spec fn camel_case(s: Seq<char>) -> Seq<char>
    decreases s.len(),
{
    if s.len() == 0 {
        s
    } else if s[0] == '_' && s.len() > 1 && is_letter(s[1]) {
        uppercase_of(s[1]) + camel_case(s.skip(2))
    } else {
        seq![s[0]] + camel_case(s.skip(1))
    }
}

/// The plural of `s`: `ies` in place of a final `y`, else `s` added.
pub open spec fn plural(s: Seq<char>) -> Seq<char> {
    if s.len() > 0 && s.last() == 'y' {
        s.drop_last() + "ies"@
    } else {
        s + "s"@
    }
}

/// The plural of `s`, with one `s` for two where the plural ends in `ss`.
pub open spec fn plural_collapsed(s: Seq<char>) -> Seq<char> {
    let base = plural(s);
    if "ss"@.is_suffix_of(base) {
        base.drop_last()
    } else {
        base
    }
}

/// The names derived from the name of one model.
#[derive(Debug, Clone, PartialEq, Eq)]
pub struct PrismaNames {
    pub model: String,
    pub update: String,
    pub create: String,
    pub create_many: String,
    pub find: String,
    pub find_many: String,
    pub aggregate: String,
    pub where_input: String,
    pub where_unique_input: String,
    pub order_by_input: String,
    pub create_input: String,
    pub create_many_input: String,
    pub update_input: String,
    pub query_new: String,
    pub query_new2: String,
}

/// The view of [`PrismaNames`].
pub struct PrismaNamesView {
    pub model: Seq<char>,
    pub update: Seq<char>,
    pub create: Seq<char>,
    pub create_many: Seq<char>,
    pub find: Seq<char>,
    pub find_many: Seq<char>,
    pub aggregate: Seq<char>,
    pub where_input: Seq<char>,
    pub where_unique_input: Seq<char>,
    pub order_by_input: Seq<char>,
    pub create_input: Seq<char>,
    pub create_many_input: Seq<char>,
    pub update_input: Seq<char>,
    pub query_new: Seq<char>,
    pub query_new2: Seq<char>,
}

impl View for PrismaNames {
    type V = PrismaNamesView;

    open spec fn view(&self) -> PrismaNamesView {
        PrismaNamesView {
            model: self.model@,
            update: self.update@,
            create: self.create@,
            create_many: self.create_many@,
            find: self.find@,
            find_many: self.find_many@,
            aggregate: self.aggregate@,
            where_input: self.where_input@,
            where_unique_input: self.where_unique_input@,
            order_by_input: self.order_by_input@,
            create_input: self.create_input@,
            create_many_input: self.create_many_input@,
            update_input: self.update_input@,
            query_new: self.query_new@,
            query_new2: self.query_new2@,
        }
    }
}

/// The names derived from the model name `model`.
///
/// The mutations and the aggregate query put a fixed word before the name,
/// the input types a fixed word after it. The query for one record is the
/// name with its first character in lowercase, in camel case; the query for
/// many is the plural of that. `query_new2` is the name with its first
/// character in lowercase and no more, and `query_new` is the collapsed
/// plural of that.
pub open spec fn derived_names(model: Seq<char>) -> PrismaNamesView {
    let lower = lower_first(model);
    let camel = camel_case(lower);
    PrismaNamesView {
        model: model,
        update: "updateOne"@ + model,
        create: "createOne"@ + model,
        create_many: "createMany"@ + model,
        find: camel,
        find_many: plural(camel),
        aggregate: "aggregate"@ + model,
        where_input: model + "WhereInput"@,
        where_unique_input: model + "WhereUniqueInput"@,
        order_by_input: model + "OrderByInput"@,
        create_input: model + "CreateInput"@,
        create_many_input: model + "CreateManyInput"@,
        update_input: model + "UpdateInput"@,
        query_new: plural_collapsed(lower),
        query_new2: lower,
    }
}

/// `a` followed by `b`.
pub fn joined(a: &Vec<char>, b: &Vec<char>) -> (r: Vec<char>)
    ensures
        r@ == a@ + b@,
{
    let mut out: Vec<char> = Vec::new();
    let mut i: usize = 0;
    while i < a.len()
        invariant
            i <= a.len(),
            out@ == a@.take(i as int),
        decreases a.len() - i,
    {
        out.push(a[i]);
        i += 1;
    }
    let mut j: usize = 0;
    proof {
        assert(a@.take(i as int) =~= a@);
        assert(out@ =~= a@ + b@.take(0));
    }
    while j < b.len()
        invariant
            j <= b.len(),
            out@ == a@ + b@.take(j as int),
        decreases b.len() - j,
    {
        proof {
            assert((a@ + b@.take(j as int)).push(b@[j as int]) =~= a@ + b@.take(j + 1));
        }
        out.push(b[j]);
        j += 1;
    }
    proof {
        assert(b@.take(j as int) =~= b@);
    }
    out
}

/// `s` with `head` in place of its first character; an empty `s` stays empty.
pub fn replace_head(s: &Vec<char>, head: &Vec<char>) -> (r: Vec<char>)
    ensures
        r@ == with_head(s@, head@),
{
    if s.len() == 0 {
        return slice_of(s, 0, 0);
    }
    let tail = slice_of(s, 1, s.len());
    joined(head, &tail)
}

fn lower_first_of(s: &Vec<char>) -> (r: Vec<char>)
    ensures
        r@ == lower_first(s@),
{
    if s.len() == 0 {
        return slice_of(s, 0, 0);
    }
    replace_head(s, &to_lowercase(s[0]))
}

fn upper_first_of(s: &Vec<char>) -> (r: Vec<char>)
    ensures
        r@ == upper_first(s@),
{
    if s.len() == 0 {
        return slice_of(s, 0, 0);
    }
    replace_head(s, &to_uppercase(s[0]))
}

/// Whether `c` is a letter.
pub fn is_letter_char(c: char) -> (r: bool)
    ensures
        r == is_letter(c),
{
    if (c as u32) < 128 {
        ('a' <= c && c <= 'z') || ('A' <= c && c <= 'Z')
    } else {
        is_alphabetic(c)
    }
}

fn camel_case_of(s: &Vec<char>) -> (r: Vec<char>)
    ensures
        r@ == camel_case(s@),
{
    let mut out: Vec<char> = Vec::new();
    let mut i: usize = 0;
    proof {
        assert(s@.skip(0) =~= s@);
        assert(out@ + camel_case(s@) =~= camel_case(s@));
    }
    while i < s.len()
        invariant
            i <= s.len(),
            out@ + camel_case(s@.skip(i as int)) == camel_case(s@),
        decreases s.len() - i,
    {
        let ghost rest = s@.skip(i as int);
        proof {
            assert(rest[0] == s@[i as int]);
            assert(rest.skip(1) =~= s@.skip(i + 1));
        }
        if s[i] == '_' && i + 1 < s.len() && is_letter_char(s[i + 1]) {
            let upper = to_uppercase(s[i + 1]);
            proof {
                assert(rest[1] == s@[i + 1]);
                assert(rest.skip(2) =~= s@.skip(i + 2));
                assert(out@ + upper@ + camel_case(s@.skip(i + 2)) =~= out@ + (upper@ + camel_case(
                    s@.skip(i + 2),
                )));
            }
            out = joined(&out, &upper);
            i += 2;
        } else {
            proof {
                assert(out@.push(s@[i as int]) + camel_case(s@.skip(i + 1)) =~= out@ + (seq![
                    s@[i as int],
                ] + camel_case(s@.skip(i + 1))));
            }
            out.push(s[i]);
            i += 1;
        }
    }
    proof {
        assert(out@ + camel_case(s@.skip(i as int)) =~= out@);
    }
    out
}

fn plural_of(s: &Vec<char>) -> (r: Vec<char>)
    ensures
        r@ == plural(s@),
{
    if s.len() > 0 && s[s.len() - 1] == 'y' {
        let stem = slice_of(s, 0, s.len() - 1);
        joined(&stem, &chars_of("ies"))
    } else {
        joined(s, &chars_of("s"))
    }
}

fn plural_collapsed_of(s: &Vec<char>) -> (r: Vec<char>)
    ensures
        r@ == plural_collapsed(s@),
{
    let base = plural_of(s);
    proof {
        reveal_strlit("ss");
    }
    if ends_with(&base, &chars_of("ss")) {
        slice_of(&base, 0, base.len() - 1)
    } else {
        base
    }
}

/// The camel-case form of `input`: every underscore that a letter follows
/// is taken out, and that letter put in uppercase.
pub fn to_camel_case(input: &str) -> (r: String)
    ensures
        r@ == camel_case(input@),
{
    string_of(&camel_case_of(&chars_of(input)))
}

/// `s` with its first character in uppercase.
pub fn capitalize_first(s: &str) -> (r: String)
    ensures
        r@ == upper_first(s@),
{
    string_of(&upper_first_of(&chars_of(s)))
}

/// The plural of a query name: `ies` for a final `y`, else `s` added.
pub fn pluralize_query_name(s: &str) -> (r: String)
    ensures
        r@ == plural(s@),
{
    string_of(&plural_of(&chars_of(s)))
}

/// The plural of a query name as above, which is also that of the query for
/// many records.
pub fn pluralize_find_many_name(s: &str) -> (r: String)
    ensures
        r@ == plural(s@),
{
    string_of(&plural_of(&chars_of(s)))
}

/// The plural of an accessor name: as for a query name, but a plural that
/// ends in `ss` loses one `s`.
pub fn pluralize_find_many_name_original(s: &str) -> (r: String)
    ensures
        r@ == plural_collapsed(s@),
{
    string_of(&plural_collapsed_of(&chars_of(s)))
}

/// Derives every name that the generated layer uses for the model `model`.
pub fn get_prisma_name(model: &str) -> (r: PrismaNames)
    ensures
        r@ == derived_names(model@),
{
    let name = chars_of(model);
    let lower = lower_first_of(&name);
    let camel = camel_case_of(&lower);
    PrismaNames {
        model: string_of(&name),
        update: string_of(&joined(&chars_of("updateOne"), &name)),
        create: string_of(&joined(&chars_of("createOne"), &name)),
        create_many: string_of(&joined(&chars_of("createMany"), &name)),
        find: string_of(&camel),
        find_many: string_of(&plural_of(&camel)),
        aggregate: string_of(&joined(&chars_of("aggregate"), &name)),
        where_input: string_of(&joined(&name, &chars_of("WhereInput"))),
        where_unique_input: string_of(&joined(&name, &chars_of("WhereUniqueInput"))),
        order_by_input: string_of(&joined(&name, &chars_of("OrderByInput"))),
        create_input: string_of(&joined(&name, &chars_of("CreateInput"))),
        create_many_input: string_of(&joined(&name, &chars_of("CreateManyInput"))),
        update_input: string_of(&joined(&name, &chars_of("UpdateInput"))),
        query_new: string_of(&plural_collapsed_of(&lower)),
        query_new2: string_of(&lower),
    }
}

} // verus!
