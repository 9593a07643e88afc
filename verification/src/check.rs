//! Which of a template's dependencies are missing from the system.
use vstd::prelude::*;

use crate::common::Dependency;
use crate::execution::views;
use crate::templates::Template;
use crate::text::{join_seq, join_strings, push_str, string_from_chars};

verus! {

/// Checks if a command is available in the system PATH.
///
/// Calls `which::which` and reports whether it found an executable; what it
/// finds depends on `PATH` and on the file system, so nothing is stated of
/// the result.
#[verifier::external_body]
pub fn is_command_available(command: &str) -> bool {
    which::which(command).is_ok()
}

/// The dependencies whose command was not found, in their original order:
/// `available[i]` tells whether the command of `deps[i]` was found.
pub open spec fn unavailable(deps: Seq<Dependency>, available: Seq<bool>) -> Seq<Dependency>
    decreases deps.len(),
{
    if deps.len() == 0 {
        Seq::empty()
    } else {
        let rest = unavailable(deps.drop_last(), available.drop_last());
        if available.last() {
            rest
        } else {
            rest.push(deps.last())
        }
    }
}

/// Each dependency whose command was not found is listed, and everything
/// listed is a dependency whose command was not found.
pub proof fn lemma_unavailable_lists_exactly_the_missing(deps: Seq<Dependency>, available: Seq<bool>)
    requires
        deps.len() == available.len(),
    ensures
        forall|i: int|
            0 <= i < deps.len() && !available[i] ==> unavailable(deps, available).contains(
                #[trigger] deps[i],
            ),
        forall|k: int|
            #![trigger unavailable(deps, available)[k]]
            0 <= k < unavailable(deps, available).len() ==> exists|i: int|
                #![trigger deps[i]]
                0 <= i < deps.len() && !available[i] && deps[i] == unavailable(deps, available)[k],
        unavailable(deps, available).len() <= deps.len(),
    decreases deps.len(),
{
    if deps.len() > 0 {
        let d = deps.drop_last();
        let a = available.drop_last();
        lemma_unavailable_lists_exactly_the_missing(d, a);
        let rest = unavailable(d, a);
        let all = unavailable(deps, available);
        assert forall|i: int|
            0 <= i < deps.len() && !available[i] implies all.contains(#[trigger] deps[i]) by {
            if i < deps.len() - 1 {
                assert(d[i] == deps[i] && a[i] == available[i]);
                assert(rest.contains(d[i]));
                let k = choose|k: int| 0 <= k < rest.len() && rest[k] == d[i];
                assert(all[k] == rest[k]);
            } else {
                assert(all[rest.len() as int] == deps.last());
            }
        }
        assert forall|k: int| #![trigger all[k]] 0 <= k < all.len() implies exists|i: int|
            #![trigger deps[i]]
            0 <= i < deps.len() && !available[i] && deps[i] == all[k] by {
            if k < rest.len() {
                assert(all[k] == rest[k]);
                let i = choose|i: int| 0 <= i < d.len() && !a[i] && d[i] == rest[k];
                assert(deps[i] == d[i] && available[i] == a[i]);
            } else {
                assert(deps[deps.len() - 1] == all[k]);
            }
        }
    }
}

/// The dependencies of `deps` whose command is not available, given the
/// availability of each.
pub fn select_missing(deps: &Vec<Dependency>, available: &Vec<bool>) -> (r: Vec<Dependency>)
    requires
        deps@.len() == available@.len(),
    ensures
        r@ == unavailable(deps@, available@),
{
    let mut out: Vec<Dependency> = Vec::new();
    let mut i: usize = 0;
    while i < deps.len()
        invariant
            deps@.len() == available@.len(),
            i <= deps@.len(),
            out@ == unavailable(deps@.take(i as int), available@.take(i as int)),
        decreases deps@.len() - i,
    {
        assert(deps@.take(i + 1).drop_last() =~= deps@.take(i as int));
        assert(available@.take(i + 1).drop_last() =~= available@.take(i as int));
        if !available[i] {
            out.push(deps[i].clone());
        }
        i += 1;
    }
    assert(deps@.take(deps@.len() as int) =~= deps@);
    assert(available@.take(available@.len() as int) =~= available@);
    out
}

/// `found` is an answer that `is_command_available` can give when asked
/// about a command spelled `name`.
pub open spec fn answer_for_name(name: Seq<char>, found: bool) -> bool {
    exists|s: &str| s@ == name && #[trigger] call_ensures(is_command_available, (s,), found)
}

/// Asks `check` about `name` and hands its answer back.
fn ask<F: Fn(&str) -> bool>(check: &F, name: &str) -> (r: bool)
    requires
        call_requires(*check, (name,)),
    ensures
        call_ensures(*check, (name,), r),
{
    check(name)
}

/// Returns a list of missing dependencies for a given template: those whose
/// command `is_command_available` does not find, in the template's order.
/// The command asked about is each dependency's name.
pub fn missing_dependencies(template: &Template) -> (r: Vec<Dependency>)
    ensures
        exists|available: Seq<bool>|
            available.len() == template.dependencies@.len() && r@ == unavailable(
                template.dependencies@,
                available,
            ) && forall|i: int|
                0 <= i < available.len() ==> #[trigger] answer_for_name(
                    template.dependencies@[i].name@,
                    available[i],
                ),
{
    let deps = &template.dependencies;
    let mut available: Vec<bool> = Vec::new();
    let mut i: usize = 0;
    while i < deps.len()
        invariant
            i <= deps@.len(),
            available@.len() == i,
            forall|k: int| 0 <= k < i ==> #[trigger] answer_for_name(deps@[k].name@, available@[k]),
        decreases deps@.len() - i,
    {
        let name = deps[i].name.as_str();
        let found = ask(&is_command_available, name);
        assert(answer_for_name(deps@[i as int].name@, found));
        available.push(found);
        i += 1;
    }
    let r = select_missing(deps, &available);
    assert(available@.len() == template.dependencies@.len() && r@ == unavailable(
        template.dependencies@,
        available@,
    ));
    r
}

/// The line shown for one dependency.
pub open spec fn dependency_line(d: Dependency) -> Seq<char> {
    d.name@ + " -> install: "@ + d.install_hint@
}

/// The report on a list of dependencies: one line per dependency.
pub open spec fn dependency_report(deps: Seq<Dependency>) -> Seq<char> {
    join_seq(deps.map_values(|d: Dependency| dependency_line(d)), "\n"@)
}

/// Formats dependencies as `name -> install: hint`, one per line.
pub fn format_dependencies(deps: &[Dependency]) -> (r: String)
    ensures
        r@ == dependency_report(deps@),
{
    let mut lines: Vec<String> = Vec::new();
    let mut i: usize = 0;
    while i < deps.len()
        invariant
            i <= deps@.len(),
            views(lines@) == deps@.take(i as int).map_values(|d: Dependency| dependency_line(d)),
        decreases deps@.len() - i,
    {
        let mut line: Vec<char> = Vec::new();
        push_str(&mut line, deps[i].name.as_str());
        push_str(&mut line, " -> install: ");
        push_str(&mut line, deps[i].install_hint.as_str());
        let ghost before = views(lines@);
        lines.push(string_from_chars(line.as_slice()));
        assert(views(lines@) =~= before.push(dependency_line(deps@[i as int])));
        assert(deps@.take(i + 1).map_values(|d: Dependency| dependency_line(d)) =~= deps@.take(
            i as int,
        ).map_values(|d: Dependency| dependency_line(d)).push(dependency_line(deps@[i as int])));
        i += 1;
    }
    assert(deps@.take(deps@.len() as int) =~= deps@);
    let joined = join_strings(&lines, "\n");
    assert(views(lines@) == lines@.map_values(|p: String| p@));
    string_from_chars(joined.as_slice())
}

/// Formats the missing dependencies shown before project initialization;
/// the same report as `format_dependencies`.
pub fn format_missing_dependencies(deps: &[Dependency]) -> (r: String)
    ensures
        r@ == dependency_report(deps@),
{
    format_dependencies(deps)
}

} // verus!
