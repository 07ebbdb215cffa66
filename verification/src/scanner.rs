//! The resolvers that a project defines by hand, and how they are found in
//! the text of a source file.
//!
//! A file defines a query by a call `builder.queryField("name", ...)` and a
//! mutation by `builder.mutationField("name", ...)`. The generator leaves out
//! what it finds defined this way.

use crate::schema::opt_view;
use crate::text::{chars_of, contains, contains_text, has_name, lemma_view_all_push, view_all};
use vstd::prelude::*;

verus! {

#[verifier::external_type_specification]
#[verifier::external_body]
pub struct ExRegexError(regex::Error);

/// The names of the queries and of the mutations that are defined by hand.
/// Each list holds a name once.
#[derive(Debug)]
pub struct ManualResolvers {
    pub queries: Vec<String>,
    pub mutations: Vec<String>,
}

/// The view of [`ManualResolvers`]: two sets of names.
pub struct ManualResolversView {
    pub queries: Set<Seq<char>>,
    pub mutations: Set<Seq<char>>,
}

impl View for ManualResolvers {
    type V = ManualResolversView;

    open spec fn view(&self) -> ManualResolversView {
        ManualResolversView {
            queries: view_all(self.queries@).to_set(),
            mutations: view_all(self.mutations@).to_set(),
        }
    }
}

/// Why a scan gave up.
#[derive(Debug, Clone, Copy, PartialEq, Eq)]
pub enum ScanError {
    /// A pattern by which definitions are found could not be compiled.
    InvalidPattern,
}

/// The views of the optional strings of `found`.
pub open spec fn opt_views(found: Seq<Option<String>>) -> Seq<Option<Seq<char>>> {
    Seq::new(found.len(), |i: int| opt_view(found[i]))
}

/// For each match of the regular expression `pattern` in `text`, from left
/// to right and without overlap, the text of its first capture group, where
/// that group took part in the match; nothing where the pattern does not
/// compile.
pub uninterp spec fn first_groups(pattern: Seq<char>, text: Seq<char>) -> Option<
    Seq<Option<Seq<char>>>,
>;

/// `regex::Regex::new` compiles the pattern, or fails on one that is invalid
/// or too large; `Regex::captures_iter` then walks the matches in `text`, and
/// `Captures::get(1)` gives the first group of each. The contract only names
/// that result, and says that an error stands for a pattern that does not
/// compile.
#[verifier::external_body]
fn capture_first_groups(pattern: &str, text: &str) -> (r: Result<Vec<Option<String>>, regex::Error>)
    ensures
        match r {
            Ok(found) => first_groups(pattern@, text@) == Some(opt_views(found@)),
            Err(_) => first_groups(pattern@, text@) is None,
        },
{
    let re = regex::Regex::new(pattern)?;
    Ok(re.captures_iter(text).map(|c| c.get(1).map(|m| m.as_str().to_string())).collect())
}

/// The pattern of a call that defines a query: `builder.queryField(`, white
/// space allowed between its tokens, then the name between quotes of one of
/// three kinds. The name is the first group.
pub open spec fn query_pattern() -> Seq<char> {
    r#"builder\s*\.\s*queryField\s*\(\s*["'`]([^"'`]+)["'`]"#@
}

/// The pattern of a call that defines a mutation, as for a query.
pub open spec fn mutation_pattern() -> Seq<char> {
    r#"builder\s*\.\s*mutationField\s*\(\s*["'`]([^"'`]+)["'`]"#@
}

/// What the scan of one file found: whether the file was searched at all,
/// and the name of every definition in it, in the order of the text, a name
/// as often as it is defined.
#[derive(Debug, Clone, PartialEq, Eq)]
pub struct Matches {
    pub scanned: bool,
    pub queries: Vec<String>,
    pub mutations: Vec<String>,
}

/// The view of [`Matches`].
pub struct MatchesView {
    pub scanned: bool,
    pub queries: Seq<Seq<char>>,
    pub mutations: Seq<Seq<char>>,
}

impl View for Matches {
    type V = MatchesView;

    open spec fn view(&self) -> MatchesView {
        MatchesView {
            scanned: self.scanned,
            queries: view_all(self.queries@),
            mutations: view_all(self.mutations@),
        }
    }
}

/// The names among `groups`, in their order.
pub open spec fn names_in_order(groups: Seq<Option<Seq<char>>>) -> Seq<Seq<char>> {
    groups.filter_map(|g: Option<Seq<char>>| g)
}

/// What a scan of the file text `content` with the two patterns finds. A
/// text without the word `builder` is not searched. There is no result where
/// a pattern does not compile.
pub open spec fn matches_in(content: Seq<char>, queries: Seq<char>, mutations: Seq<char>) -> Option<
    MatchesView,
> {
    if !contains(content, "builder"@) {
        Some(MatchesView { scanned: false, queries: Seq::empty(), mutations: Seq::empty() })
    } else {
        match (first_groups(queries, content), first_groups(mutations, content)) {
            (Some(found_queries), Some(found_mutations)) => Some(
                MatchesView {
                    scanned: true,
                    queries: names_in_order(found_queries),
                    mutations: names_in_order(found_mutations),
                },
            ),
            _ => None,
        }
    }
}

/// The names among `groups`.
pub open spec fn names_among(groups: Seq<Option<Seq<char>>>) -> Set<Seq<char>> {
    Set::new(|name: Seq<char>| groups.contains(Some(name)))
}

/// What a scan of the file text `content` with the two patterns makes of the
/// resolvers `before`. A text without the word `builder` adds nothing. Any
/// other text adds the names that the two patterns capture in it. There is
/// no result where a pattern does not compile.
pub open spec fn scanned_with(
    content: Seq<char>,
    queries: Seq<char>,
    mutations: Seq<char>,
    before: ManualResolversView,
) -> Option<ManualResolversView> {
    if !contains(content, "builder"@) {
        Some(before)
    } else {
        match (first_groups(queries, content), first_groups(mutations, content)) {
            (Some(found_queries), Some(found_mutations)) => Some(
                ManualResolversView {
                    queries: before.queries.union(names_among(found_queries)),
                    mutations: before.mutations.union(names_among(found_mutations)),
                },
            ),
            _ => None,
        }
    }
}

/// What a scan of the file text `content` makes of the resolvers `before`.
pub open spec fn scanned(content: Seq<char>, before: ManualResolversView) -> Option<
    ManualResolversView,
> {
    scanned_with(content, query_pattern(), mutation_pattern(), before)
}

/// Puts `name` among `names` unless it is there; tells whether it was new.
pub fn insert_name(names: &mut Vec<String>, name: String) -> (r: bool)
    ensures
        view_all(old(names)@).no_duplicates() ==> view_all(final(names)@).no_duplicates(),
        view_all(final(names)@).to_set() == view_all(old(names)@).to_set().insert(name@),
        r == !view_all(old(names)@).contains(name@),
{
    if has_name(names, name.as_str()) {
        proof {
            assert(view_all(names@).to_set().insert(name@) =~= view_all(names@).to_set());
        }
        false
    } else {
        proof {
            lemma_view_all_push(names@, name);
            let before = view_all(names@);
            let after = before.push(name@);
            assert forall|x: Seq<char>| after.to_set().contains(x) <==> before.to_set().insert(
                name@,
            ).contains(x) by {
                if after.contains(x) {
                    let k = choose|k: int| 0 <= k < after.len() && #[trigger] after[k] == x;
                    if k < before.len() {
                        assert(before[k] == x);
                    }
                }
                if before.contains(x) {
                    let k = choose|k: int| 0 <= k < before.len() && #[trigger] before[k] == x;
                    assert(after[k] == x);
                }
                if x == name@ {
                    assert(after[before.len() as int] == x);
                }
            }
            assert(after.to_set() =~= before.to_set().insert(name@));
        }
        names.push(name);
        true
    }
}

/// Puts every name among `found` among `names`.
pub fn insert_names(names: &mut Vec<String>, found: &Vec<Option<String>>)
    ensures
        view_all(old(names)@).no_duplicates() ==> view_all(final(names)@).no_duplicates(),
        view_all(final(names)@).to_set() == view_all(old(names)@).to_set().union(
            names_among(opt_views(found@)),
        ),
{
    let ghost before = view_all(names@).to_set();
    let ghost held_once = view_all(names@).no_duplicates();
    let ghost groups = opt_views(found@);
    let mut i: usize = 0;
    proof {
        assert(before.union(names_among(groups.take(0))) =~= before);
    }
    while i < found.len()
        invariant
            i <= found.len(),
            groups == opt_views(found@),
            held_once ==> view_all(names@).no_duplicates(),
            view_all(names@).to_set() == before.union(names_among(groups.take(i as int))),
        decreases found.len() - i,
    {
        let ghost so_far = names_among(groups.take(i as int));
        proof {
            let shorter = groups.take(i as int);
            let longer = groups.take(i + 1);
            let next = names_among(longer);
            assert forall|x: Seq<char>| next.contains(x) <==> (so_far.contains(x) || groups[i as int]
                == Some(x)) by {
                if longer.contains(Some(x)) {
                    let k = choose|k: int| 0 <= k < longer.len() && #[trigger] longer[k] == Some(x);
                    if k < i {
                        assert(shorter[k] == Some(x));
                    }
                }
                if shorter.contains(Some(x)) {
                    let k = choose|k: int| 0 <= k < shorter.len() && #[trigger] shorter[k] == Some(x);
                    assert(longer[k] == Some(x));
                }
                if groups[i as int] == Some(x) {
                    assert(longer[i as int] == Some(x));
                }
            }
        }
        match &found[i] {
            None => {
                proof {
                    assert(names_among(groups.take(i + 1)) =~= so_far);
                }
            },
            Some(name) => {
                insert_name(names, name.clone());
                proof {
                    assert(before.union(so_far).insert(name@) =~= before.union(
                        names_among(groups.take(i + 1)),
                    ));
                }
            },
        }
        i += 1;
    }
    proof {
        assert(groups.take(i as int) =~= groups);
    }
}

impl ManualResolvers {
    /// No list holds a name twice.
    pub open spec fn wf(&self) -> bool {
        view_all(self.queries@).no_duplicates() && view_all(self.mutations@).no_duplicates()
    }

    /// No resolvers.
    pub fn new() -> (r: Self)
        ensures
            r.wf(),
            r@.queries == Set::<Seq<char>>::empty(),
            r@.mutations == Set::<Seq<char>>::empty(),
    {
        let r = ManualResolvers { queries: Vec::new(), mutations: Vec::new() };
        proof {
            assert(r@.queries =~= Set::<Seq<char>>::empty());
            assert(r@.mutations =~= Set::<Seq<char>>::empty());
        }
        r
    }

    /// Whether a query of the name `name` is defined by hand.
    pub fn contains_query(&self, name: &str) -> (r: bool)
        ensures
            r == self@.queries.contains(name@),
    {
        has_name(&self.queries, name)
    }

    /// Whether a mutation of the name `name` is defined by hand.
    pub fn contains_mutation(&self, name: &str) -> (r: bool)
        ensures
            r == self@.mutations.contains(name@),
    {
        has_name(&self.mutations, name)
    }

    /// Records a query defined by hand; tells whether it was new.
    pub fn insert_query(&mut self, name: String) -> (r: bool)
        ensures
            old(self).wf() ==> final(self).wf(),
            final(self)@.queries == old(self)@.queries.insert(name@),
            final(self)@.mutations == old(self)@.mutations,
            r == !old(self)@.queries.contains(name@),
    {
        insert_name(&mut self.queries, name)
    }

    /// Records a mutation defined by hand; tells whether it was new.
    pub fn insert_mutation(&mut self, name: String) -> (r: bool)
        ensures
            old(self).wf() ==> final(self).wf(),
            final(self)@.mutations == old(self)@.mutations.insert(name@),
            final(self)@.queries == old(self)@.queries,
            r == !old(self)@.mutations.contains(name@),
    {
        insert_name(&mut self.mutations, name)
    }

    /// Records what the captures of the two patterns in one file hold: the
    /// names among `queries` and the names among `mutations`.
    pub fn record(&mut self, queries: &Vec<Option<String>>, mutations: &Vec<Option<String>>)
        ensures
            old(self).wf() ==> final(self).wf(),
            final(self)@.queries == old(self)@.queries.union(names_among(opt_views(queries@))),
            final(self)@.mutations == old(self)@.mutations.union(
                names_among(opt_views(mutations@)),
            ),
    {
        insert_names(&mut self.queries, queries);
        insert_names(&mut self.mutations, mutations);
    }
}

impl Default for ManualResolvers {
    fn default() -> (r: Self)
        ensures
            r.wf(),
            r@.queries == Set::<Seq<char>>::empty(),
            r@.mutations == Set::<Seq<char>>::empty(),
    {
        ManualResolvers::new()
    }
}

/// The pattern of a call that defines a query.
pub fn query_field_pattern() -> (r: &'static str)
    ensures
        r@ == query_pattern(),
{
    r#"builder\s*\.\s*queryField\s*\(\s*["'`]([^"'`]+)["'`]"#
}

/// The pattern of a call that defines a mutation.
pub fn mutation_field_pattern() -> (r: &'static str)
    ensures
        r@ == mutation_pattern(),
{
    r#"builder\s*\.\s*mutationField\s*\(\s*["'`]([^"'`]+)["'`]"#
}

/// The names among `found`, in their order.
pub fn names_of(found: &Vec<Option<String>>) -> (r: Vec<String>)
    ensures
        view_all(r@) == names_in_order(opt_views(found@)),
{
    let mut names: Vec<String> = Vec::new();
    let mut i: usize = 0;
    let ghost groups = opt_views(found@);
    proof {
        assert(groups.take(0).len() == 0);
        assert(view_all(names@) =~= Seq::<Seq<char>>::empty());
    }
    while i < found.len()
        invariant
            i <= found.len(),
            groups == opt_views(found@),
            view_all(names@) == names_in_order(groups.take(i as int)),
        decreases found.len() - i,
    {
        proof {
            groups.lemma_filter_map_take_succ(|g: Option<Seq<char>>| g, i as int);
            assert(view_all(names@) + Seq::<Seq<char>>::empty() =~= view_all(names@));
        }
        match &found[i] {
            None => {},
            Some(name) => {
                let owned = name.clone();
                proof {
                    lemma_view_all_push(names@, owned);
                    assert(view_all(names@).push(owned@) =~= view_all(names@) + seq![owned@]);
                }
                names.push(owned);
            },
        }
        i += 1;
    }
    proof {
        assert(groups.take(i as int) =~= groups);
    }
    names
}

/// Scans the text of one source file with the two patterns given, records in
/// `resolvers` the names that their first groups capture, and tells what it
/// found. The scan fails, and records nothing, where a pattern does not
/// compile. Resolvers that hold each name once still do so afterwards.
pub fn scan_with(
    content: &str,
    queries: &str,
    mutations: &str,
    resolvers: &mut ManualResolvers,
) -> (r: Result<Matches, ScanError>)
    ensures
        old(resolvers).wf() ==> final(resolvers).wf(),
        match r {
            Ok(found) => matches_in(content@, queries@, mutations@) == Some(found@)
                && scanned_with(content@, queries@, mutations@, old(resolvers)@) == Some(
                final(resolvers)@,
            ),
            Err(_) => matches_in(content@, queries@, mutations@) is None && scanned_with(
                content@,
                queries@,
                mutations@,
                old(resolvers)@,
            ) is None && *final(resolvers) == *old(resolvers),
        },
{
    if !contains_text(&chars_of(content), &chars_of("builder")) {
        let none = Matches { scanned: false, queries: Vec::new(), mutations: Vec::new() };
        proof {
            assert(none@.queries =~= Seq::<Seq<char>>::empty());
            assert(none@.mutations =~= Seq::<Seq<char>>::empty());
        }
        return Ok(none);
    }
    let found_queries = match capture_first_groups(queries, content) {
        Ok(found) => found,
        Err(_) => {
            return Err(ScanError::InvalidPattern);
        },
    };
    let found_mutations = match capture_first_groups(mutations, content) {
        Ok(found) => found,
        Err(_) => {
            return Err(ScanError::InvalidPattern);
        },
    };
    resolvers.record(&found_queries, &found_mutations);
    Ok(
        Matches {
            scanned: true,
            queries: names_of(&found_queries),
            mutations: names_of(&found_mutations),
        },
    )
}

/// Scans the text of one source file, records in `resolvers` the queries and
/// mutations that it defines, and tells what it found.
pub fn scan_content(content: &str, resolvers: &mut ManualResolvers) -> (r: Result<
    Matches,
    ScanError,
>)
    ensures
        old(resolvers).wf() ==> final(resolvers).wf(),
        match r {
            Ok(found) => matches_in(content@, query_pattern(), mutation_pattern()) == Some(found@)
                && scanned(content@, old(resolvers)@) == Some(final(resolvers)@),
            Err(_) => matches_in(content@, query_pattern(), mutation_pattern()) is None && scanned(
                content@,
                old(resolvers)@,
            ) is None && *final(resolvers) == *old(resolvers),
        },
{
    scan_with(content, query_field_pattern(), mutation_field_pattern(), resolvers)
}

} // verus!
