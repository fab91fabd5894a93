use vstd::prelude::*;
use vstd::string::StringExecFns;

use crate::project::{Config, Project};

verus! {

/// A name passes the driver's project filter when no filter was given, or
/// when it equals the filtered name exactly.
pub open spec fn passes_filter(name: Seq<char>, filter: Option<Seq<char>>) -> bool {
    match filter {
        Option::None => true,
        Option::Some(f) => name == f,
    }
}

/// The view of an optional borrowed filter argument.
pub open spec fn filter_view(filter: Option<&String>) -> Option<Seq<char>> {
    match filter {
        Option::None => Option::None,
        Option::Some(f) => Option::Some(f@),
    }
}

/// The positions among the first `n` names whose name passes the filter, in
/// order.
pub open spec fn selected_upto(names: Seq<Seq<char>>, filter: Option<Seq<char>>, n: int) -> Seq<
    int,
>
    decreases n,
{
    if n <= 0 {
        Seq::empty()
    } else {
        selected_upto(names, filter, n - 1) + if passes_filter(names[n - 1], filter) {
            seq![n - 1]
        } else {
            Seq::empty()
        }
    }
}

/// The positions whose name passes the filter, in declaration order.
pub open spec fn selected_indices(names: Seq<Seq<char>>, filter: Option<Seq<char>>) -> Seq<int> {
    selected_upto(names, filter, names.len() as int)
}

/// The names of a configuration's projects, in declaration order.
pub open spec fn config_names(c: Config) -> Seq<Seq<char>> {
    c.projects@.map_values(|p: Project| p.name@)
}

/// Exact-match test used when selecting projects by name.
pub fn name_passes_filter(name: &String, filter: Option<&String>) -> (b: bool)
    ensures
        b == passes_filter(name@, filter_view(filter)),
{
    match filter {
        Option::None => true,
        Option::Some(f) => *name == *f,
    }
}

/// Decide which projects a run works on: every one in declaration order, or
/// exactly those whose name equals the `--project` filter.
pub fn select_projects(config: &Config, filter: Option<&String>) -> (r: Vec<usize>)
    ensures
        r@.map_values(|u: usize| u as int) == selected_indices(
            config_names(*config),
            filter_view(filter),
        ),
        forall|k: int| 0 <= k < r@.len() ==> r@[k] < config.projects@.len(),
{
    let ghost names = config_names(*config);
    let ghost fv = filter_view(filter);
    let n = config.projects.len();
    let mut r: Vec<usize> = Vec::new();
    let mut i: usize = 0;
    while i < n
        invariant
            n == config.projects@.len(),
            names == config_names(*config),
            fv == filter_view(filter),
            0 <= i <= n,
            r@.map_values(|u: usize| u as int) == selected_upto(names, fv, i as int),
            forall|k: int| 0 <= k < r@.len() ==> r@[k] < n,
        decreases n - i,
    {
        let picked = name_passes_filter(&config.projects[i].name, filter);
        if picked {
            r.push(i);
        }
        proof {
            assert(names[i as int] == config.projects@[i as int].name@);
            assert(r@.map_values(|u: usize| u as int) =~= selected_upto(names, fv, i + 1));
        }
        i += 1;
    }
    r
}

/// With zero projects nothing is selected, whatever the filter says.
pub proof fn lemma_empty_config_selects_nothing(filter: Option<Seq<char>>)
    ensures
        selected_indices(Seq::empty(), filter) == Seq::<int>::empty(),
{
}

proof fn lemma_no_filter_selects_upto(names: Seq<Seq<char>>, n: int)
    requires
        0 <= n <= names.len(),
    ensures
        selected_upto(names, Option::None, n) =~= Seq::new(n as nat, |i: int| i),
    decreases n,
{
    if n > 0 {
        lemma_no_filter_selects_upto(names, n - 1);
    }
}

/// Without a filter every project is selected, once each, in declaration
/// order.
pub proof fn lemma_no_filter_selects_all(names: Seq<Seq<char>>)
    ensures
        selected_indices(names, Option::None) == Seq::new(names.len(), |i: int| i),
{
    lemma_no_filter_selects_upto(names, names.len() as int);
}

proof fn lemma_unique_match_upto(names: Seq<Seq<char>>, f: Seq<char>, i: int, n: int)
    requires
        0 <= i < names.len(),
        names[i] == f,
        forall|k: int| 0 <= k < names.len() && k != i ==> names[k] != f,
        0 <= n <= names.len(),
    ensures
        selected_upto(names, Option::Some(f), n) =~= if n <= i {
            Seq::<int>::empty()
        } else {
            seq![i]
        },
    decreases n,
{
    if n > 0 {
        lemma_unique_match_upto(names, f, i, n - 1);
    }
}

/// A filter matching exactly one name selects exactly that project.
pub proof fn lemma_filter_unique_match(names: Seq<Seq<char>>, f: Seq<char>, i: int)
    requires
        0 <= i < names.len(),
        names[i] == f,
        forall|k: int| 0 <= k < names.len() && k != i ==> names[k] != f,
    ensures
        selected_indices(names, Option::Some(f)) == seq![i],
{
    lemma_unique_match_upto(names, f, i, names.len() as int);
}

proof fn lemma_no_match_upto(names: Seq<Seq<char>>, f: Seq<char>, n: int)
    requires
        forall|k: int| 0 <= k < names.len() ==> names[k] != f,
        0 <= n <= names.len(),
    ensures
        selected_upto(names, Option::Some(f), n) =~= Seq::<int>::empty(),
    decreases n,
{
    if n > 0 {
        lemma_no_match_upto(names, f, n - 1);
    }
}

/// A filter matching no name selects nothing; the driver then reports that
/// no valid projects were found.
pub proof fn lemma_filter_no_match(names: Seq<Seq<char>>, f: Seq<char>)
    requires
        forall|k: int| 0 <= k < names.len() ==> names[k] != f,
    ensures
        selected_indices(names, Option::Some(f)) == Seq::<int>::empty(),
{
    lemma_no_match_upto(names, f, names.len() as int);
}

/// The completion line the driver prints after attempting a project's
/// pipeline: it names the project and nothing else of it.
pub fn completion_message(name: &str) -> (m: String)
    ensures
        m@ == "\r\nPlan survey complete for "@ + name@ + "\n\r\n"@,
{
    let mut m = "\r\nPlan survey complete for ".to_owned();
    m.append(name);
    m.append("\n\r\n");
    m
}

/// The line the driver prints when the run selected no project at all.
pub fn no_projects_message() -> (m: String)
    ensures
        m@ == "\r\nNo valid projects found in the config file!\n\r\n"@,
{
    "\r\nNo valid projects found in the config file!\n\r\n".to_owned()
}

} // verus!
