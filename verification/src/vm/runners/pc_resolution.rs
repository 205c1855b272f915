//! Resolving identifiers to program counters: an alias stands for its
//! destination, a function for its pc. The laws below relate resolution to
//! the identifier table.
use vstd::prelude::*;

use crate::types::errors::program_errors::ProgramError;
use crate::types::program::{lookup, SpecIdentifier};
use crate::vm::errors::cairo_run_errors::CairoRunError;
use crate::vm::errors::runner_errors::RunnerError;

verus! {

/// Why an identifier gives no pc, with names by their characters.
pub enum PcError {
    /// A function identifier has no pc.
    NoPC,
    /// No identifier has this name.
    EntrypointNotFound(Seq<char>),
    /// An alias, of this full name, has no destination.
    AliasMissingDestination(Seq<char>),
    /// An identifier, of this full name, has this type, neither alias nor function.
    InvalidIdentifierTypeForPc(Seq<char>, Seq<char>),
}

/// The string, or a default where there is none.
pub open spec fn str_or(o: Option<Seq<char>>, default: Seq<char>) -> Seq<char> {
    match o {
        Some(s) => s,
        None => default,
    }
}

/// Resolves an identifier to a pc, following at most `fuel` identifiers: a
/// function gives its pc; an alias gives what its destination gives. `None`
/// where the fuel runs out.
pub open spec fn resolve_pc(
    t: Seq<(Seq<char>, SpecIdentifier)>,
    id: SpecIdentifier,
    fuel: nat,
) -> Option<Result<usize, PcError>>
    decreases fuel,
{
    if fuel == 0 {
        None
    } else if id.type_ == Some("function"@) {
        Some(
            match id.pc {
                Some(pc) => Ok(pc),
                None => Err(PcError::NoPC),
            },
        )
    } else if id.type_ == Some("alias"@) {
        match id.destination {
            None => Some(Err(PcError::AliasMissingDestination(str_or(id.full_name, ""@)))),
            Some(dest) => match lookup(t, dest) {
                None => Some(Err(PcError::EntrypointNotFound(dest))),
                Some(next) => resolve_pc(t, next, (fuel - 1) as nat),
            },
        }
    } else {
        Some(
            Err(
                PcError::InvalidIdentifierTypeForPc(
                    str_or(id.full_name, "<unknown>"@),
                    str_or(id.type_, "<unknown>"@),
                ),
            ),
        )
    }
}

/// Resolving the identifier ends: its chain of aliases does not run in a circle.
pub open spec fn resolves(t: Seq<(Seq<char>, SpecIdentifier)>, id: SpecIdentifier) -> bool {
    exists|fuel: nat| #[trigger] resolve_pc(t, id, fuel) is Some
}

/// What resolving an identifier gives, where it ends.
pub open spec fn pc_of(t: Seq<(Seq<char>, SpecIdentifier)>, id: SpecIdentifier) -> Result<usize, PcError> {
    resolve_pc(t, id, choose|fuel: nat| #[trigger] resolve_pc(t, id, fuel) is Some).unwrap()
}

/// The full name of a function of the main module.
pub open spec fn main_name(entrypoint: Seq<char>) -> Seq<char> {
    "__main__."@ + entrypoint
}

/// Resolving the named function of the main module ends, where it exists.
pub open spec fn function_pc_resolves(t: Seq<(Seq<char>, SpecIdentifier)>, entrypoint: Seq<char>) -> bool {
    match lookup(t, main_name(entrypoint)) {
        None => true,
        Some(id) => resolves(t, id),
    }
}

/// The pc of the named function of the main module.
pub open spec fn function_pc(t: Seq<(Seq<char>, SpecIdentifier)>, entrypoint: Seq<char>) -> Result<usize, PcError> {
    match lookup(t, main_name(entrypoint)) {
        None => Err(PcError::EntrypointNotFound(entrypoint)),
        Some(id) => pc_of(t, id),
    }
}

/// The run error is the one the resolution error describes.
pub open spec fn is_pc_error(e: CairoRunError, pe: PcError) -> bool {
    match pe {
        PcError::NoPC => e matches CairoRunError::Runner(RunnerError::NoPC),
        PcError::EntrypointNotFound(n) => e matches CairoRunError::Program(ProgramError::EntrypointNotFound(s))
            && s@ == n,
        PcError::AliasMissingDestination(n) => e matches CairoRunError::Program(
            ProgramError::AliasMissingDestination(s),
        ) && s@ == n,
        PcError::InvalidIdentifierTypeForPc(n, ty) => e matches CairoRunError::Program(
            ProgramError::InvalidIdentifierTypeForPc(s1, s2),
        ) && s1@ == n && s2@ == ty,
    }
}

/// The result is the one the resolution result describes.
pub open spec fn is_pc_result(r: Result<usize, CairoRunError>, s: Result<usize, PcError>) -> bool {
    match s {
        Ok(pc) => r matches Ok(p) && p == pc,
        Err(pe) => r matches Err(e) && is_pc_error(e, pe),
    }
}


/// A function of the main module is looked up under `__main__.` followed by
/// its name, and only there: where that identifier exists, the function
/// resolves as it does; where it does not, the entrypoint is not found.
pub proof fn function_pc_is_resolution_of_main_identifier(
    t: Seq<(Seq<char>, SpecIdentifier)>,
    entrypoint: Seq<char>,
)
    ensures
        lookup(t, main_name(entrypoint)) matches Some(id) ==> function_pc_resolves(t, entrypoint) == resolves(
            t,
            id,
        ) && function_pc(t, entrypoint) == pc_of(t, id),
        lookup(t, main_name(entrypoint)) is None ==> function_pc_resolves(t, entrypoint) && function_pc(
            t,
            entrypoint,
        ) == Err::<usize, PcError>(PcError::EntrypointNotFound(entrypoint)),
{
}

/// More fuel does not change a resolution that has ended.
proof fn lemma_resolve_pc_more_fuel(
    t: Seq<(Seq<char>, SpecIdentifier)>,
    id: SpecIdentifier,
    f1: nat,
    f2: nat,
)
    requires
        resolve_pc(t, id, f1) is Some,
        f1 <= f2,
    ensures
        resolve_pc(t, id, f2) == resolve_pc(t, id, f1),
    decreases f1,
{
    if id.type_ != Some("function"@) && id.type_ == Some("alias"@) {
        if let Some(dest) = id.destination {
            if let Some(next) = lookup(t, dest) {
                lemma_resolve_pc_more_fuel(t, next, (f1 - 1) as nat, (f2 - 1) as nat);
            }
        }
    }
}

/// Resolution does not depend on how far it was allowed to look: any fuel
/// with which it ends gives the one result of the identifier.
pub proof fn resolution_is_independent_of_fuel(
    t: Seq<(Seq<char>, SpecIdentifier)>,
    id: SpecIdentifier,
    fuel: nat,
)
    requires
        resolve_pc(t, id, fuel) is Some,
    ensures
        resolves(t, id),
        pc_of(t, id) == resolve_pc(t, id, fuel).unwrap(),
{
    let c = choose|f: nat| #[trigger] resolve_pc(t, id, f) is Some;
    if c <= fuel {
        lemma_resolve_pc_more_fuel(t, id, c, fuel);
    } else {
        lemma_resolve_pc_more_fuel(t, id, fuel, c);
    }
}

/// An alias whose destination exists resolves exactly when its destination
/// does, and then to the same result.
pub proof fn alias_resolves_as_its_destination(
    t: Seq<(Seq<char>, SpecIdentifier)>,
    id: SpecIdentifier,
    next: SpecIdentifier,
)
    requires
        id.type_ == Some("alias"@),
        id.destination matches Some(dest) && lookup(t, dest) == Some(next),
    ensures
        resolves(t, id) == resolves(t, next),
        resolves(t, id) ==> pc_of(t, id) == pc_of(t, next),
{
    reveal_strlit("alias");
    reveal_strlit("function");
    assert("alias"@.len() != "function"@.len());
    assert(id.type_ != Some("function"@));
    if resolves(t, id) {
        let f = choose|f: nat| #[trigger] resolve_pc(t, id, f) is Some;
        assert(resolve_pc(t, next, (f - 1) as nat) == resolve_pc(t, id, f));
        resolution_is_independent_of_fuel(t, id, f);
        resolution_is_independent_of_fuel(t, next, (f - 1) as nat);
    }
    if resolves(t, next) {
        let f = choose|f: nat| #[trigger] resolve_pc(t, next, f) is Some;
        assert(resolve_pc(t, id, f + 1) == resolve_pc(t, next, f));
        resolution_is_independent_of_fuel(t, id, f + 1);
    }
}

/// A function identifier resolves, to its pc where it has one and to
/// `NoPC` where it has none.
pub proof fn function_resolves_to_its_pc(t: Seq<(Seq<char>, SpecIdentifier)>, id: SpecIdentifier)
    requires
        id.type_ == Some("function"@),
    ensures
        resolves(t, id),
        pc_of(t, id) == match id.pc {
            Some(pc) => Ok::<usize, PcError>(pc),
            None => Err(PcError::NoPC),
        },
{
    resolution_is_independent_of_fuel(t, id, 1);
}

/// An identifier that is neither an alias nor a function resolves, to the
/// error that names its type.
pub proof fn other_identifier_is_refused(t: Seq<(Seq<char>, SpecIdentifier)>, id: SpecIdentifier)
    requires
        id.type_ != Some("function"@),
        id.type_ != Some("alias"@),
    ensures
        resolves(t, id),
        pc_of(t, id) == Err::<usize, PcError>(
            PcError::InvalidIdentifierTypeForPc(str_or(id.full_name, "<unknown>"@), str_or(id.type_, "<unknown>"@)),
        ),
{
    resolution_is_independent_of_fuel(t, id, 1);
}

/// The identifier an alias leads to, where the identifier is an alias whose
/// destination exists.
pub open spec fn alias_next(t: Seq<(Seq<char>, SpecIdentifier)>, id: SpecIdentifier) -> Option<SpecIdentifier> {
    if id.type_ != Some("function"@) && id.type_ == Some("alias"@) {
        match id.destination {
            Some(dest) => lookup(t, dest),
            None => None,
        }
    } else {
        None
    }
}

/// The identifier reached after following `k` aliases, where there are that many.
pub open spec fn walk(t: Seq<(Seq<char>, SpecIdentifier)>, id: SpecIdentifier, k: nat) -> Option<SpecIdentifier>
    decreases k,
{
    if k == 0 {
        Some(id)
    } else {
        match alias_next(t, id) {
            Some(next) => walk(t, next, (k - 1) as nat),
            None => None,
        }
    }
}

proof fn lemma_unresolved_iff_walk(t: Seq<(Seq<char>, SpecIdentifier)>, id: SpecIdentifier, fuel: nat)
    ensures
        resolve_pc(t, id, fuel) is None <==> walk(t, id, fuel) is Some,
    decreases fuel,
{
    if fuel > 0 {
        if let Some(next) = alias_next(t, id) {
            lemma_unresolved_iff_walk(t, next, (fuel - 1) as nat);
        }
    }
}

proof fn lemma_walk_prefix(t: Seq<(Seq<char>, SpecIdentifier)>, id: SpecIdentifier, k1: nat, k2: nat)
    requires
        k1 <= k2,
        walk(t, id, k2) is Some,
    ensures
        walk(t, id, k1) is Some,
    decreases k1,
{
    if k1 > 0 {
        lemma_walk_prefix(t, alias_next(t, id).unwrap(), (k1 - 1) as nat, (k2 - 1) as nat);
    }
}

proof fn lemma_walk_compose(t: Seq<(Seq<char>, SpecIdentifier)>, id: SpecIdentifier, a: nat, m: nat)
    ensures
        walk(t, id, a + m) == match walk(t, id, a) {
            Some(x) => walk(t, x, m),
            None => None,
        },
    decreases a,
{
    if a > 0 {
        if let Some(next) = alias_next(t, id) {
            lemma_walk_compose(t, next, (a - 1) as nat, m);
            assert((a + m - 1) as nat == ((a - 1) as nat + m) as nat);
        }
    }
}

proof fn lemma_lookup_in_table(t: Seq<(Seq<char>, SpecIdentifier)>, name: Seq<char>)
    requires
        lookup(t, name) is Some,
    ensures
        exists|j: int| 0 <= j < t.len() && #[trigger] t[j].1 == lookup(t, name).unwrap(),
    decreases t.len(),
{
    if t.last().0 == name {
        assert(t[t.len() - 1].1 == lookup(t, name).unwrap());
    } else {
        lemma_lookup_in_table(t.drop_last(), name);
        let j = choose|j: int| 0 <= j < t.drop_last().len() && #[trigger] t.drop_last()[j].1 == lookup(t, name).unwrap();
        assert(t[j].1 == lookup(t, name).unwrap());
    }
}

proof fn lemma_walk_in_table(t: Seq<(Seq<char>, SpecIdentifier)>, id: SpecIdentifier, k: nat)
    requires
        k >= 1,
        walk(t, id, k) is Some,
    ensures
        exists|j: int| 0 <= j < t.len() && #[trigger] t[j].1 == walk(t, id, k).unwrap(),
    decreases k,
{
    let next = alias_next(t, id).unwrap();
    if k == 1 {
        lemma_lookup_in_table(t, id.destination.unwrap());
    } else {
        lemma_walk_in_table(t, next, (k - 1) as nat);
    }
}

/// Once the walk comes back to an identifier, it goes on for ever.
proof fn lemma_cycle_walks_on(t: Seq<(Seq<char>, SpecIdentifier)>, x: SpecIdentifier, p: nat, n: nat)
    requires
        p > 0,
        walk(t, x, p) == Some(x),
        forall|k: nat| k <= p ==> (#[trigger] walk(t, x, k)) is Some,
    ensures
        walk(t, x, n) is Some,
    decreases n,
{
    if n > p {
        lemma_cycle_walks_on(t, x, p, (n - p) as nat);
        lemma_walk_compose(t, x, p, (n - p) as nat);
        assert((p + (n - p) as nat) as nat == n);
    } else {
        assert(walk(t, x, n) is Some);
    }
}

/// Resolution either ends within one identifier more than the table holds,
/// or never: the aliases it follows then run in a circle.
pub proof fn resolution_ends_within_table_length(t: Seq<(Seq<char>, SpecIdentifier)>, id: SpecIdentifier)
    ensures
        resolves(t, id) <==> resolve_pc(t, id, t.len() + 1) is Some,
{
    let len = t.len();
    if resolve_pc(t, id, len + 1) is Some {
        assert(resolves(t, id));
    } else {
        lemma_unresolved_iff_walk(t, id, len + 1);
        // each of the identifiers reached after 1 ..= len + 1 steps is an entry of the table
        let steps = vstd::set_lib::set_int_range(1, len + 2int);
        let index_of = |k: int| choose|j: int| 0 <= j < t.len() && #[trigger] t[j].1 == walk(t, id, k as nat).unwrap();
        assert forall|k: int| #[trigger] steps.contains(k) implies 0 <= index_of(k) < len && t[index_of(k)].1
            == walk(t, id, k as nat).unwrap() by {
            lemma_walk_prefix(t, id, k as nat, len + 1);
            lemma_walk_in_table(t, id, k as nat);
        }
        // two of the len + 1 steps reach the same entry
        let ghost found = exists|a: int, b: int|
            steps.contains(a) && steps.contains(b) && a < b && #[trigger] index_of(a) == #[trigger] index_of(b);
        if !found {
            assert(vstd::relations::injective_on(index_of, steps)) by {
                assert forall|a: int, b: int| steps.contains(a) && steps.contains(b) && #[trigger] index_of(a)
                    == #[trigger] index_of(b) implies a == b by {
                    if a < b {
                        assert(found);
                    } else if b < a {
                        assert(found);
                    }
                }
            }
            vstd::set_lib::lemma_int_range(1, len + 2int);
            vstd::set_lib::lemma_int_range(0, len as int);
            vstd::set_lib::lemma_map_size(steps, steps.map(index_of), index_of);
            assert(steps.map(index_of).subset_of(vstd::set_lib::set_int_range(0, len as int)));
            vstd::set_lib::lemma_len_subset(steps.map(index_of), vstd::set_lib::set_int_range(0, len as int));
            assert(false);
        }
        let (a, b) = choose|a: int, b: int|
            steps.contains(a) && steps.contains(b) && a < b && #[trigger] index_of(a) == #[trigger] index_of(b);
        let x = walk(t, id, a as nat).unwrap();
        let p = (b - a) as nat;
        lemma_walk_prefix(t, id, a as nat, len + 1);
        lemma_walk_prefix(t, id, b as nat, len + 1);
        assert(walk(t, id, b as nat) == Some(x));
        lemma_walk_compose(t, id, a as nat, p);
        assert((a as nat + p) as nat == b as nat);
        assert(walk(t, x, p) == Some(x));
        assert forall|k: nat| k <= p implies (#[trigger] walk(t, x, k)) is Some by {
            lemma_walk_compose(t, id, a as nat, k);
            lemma_walk_prefix(t, id, (a as nat + k) as nat, len + 1);
        }
        assert forall|fuel: nat| !(#[trigger] resolve_pc(t, id, fuel) is Some) by {
            lemma_cycle_walks_on(t, x, p, fuel);
            lemma_walk_compose(t, id, a as nat, fuel);
            lemma_walk_prefix(t, id, fuel, (a as nat + fuel) as nat);
            lemma_unresolved_iff_walk(t, id, fuel);
        }
    }
}

} // verus!
