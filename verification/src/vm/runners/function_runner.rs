//! Function runner methods for `CairoRunner`: setting up a runner for
//! testing Cairo 0 functions, finding builtin bases and resolving function
//! entrypoints to program counters.
use vstd::prelude::*;

use crate::types::builtin_name::{ordered_builtin_list, spec_ordered_builtin_list, BuiltinName};
use crate::types::errors::program_errors::ProgramError;
use crate::types::layout::CairoLayout;
use crate::types::layout_name::LayoutName;
use crate::types::program::{opt_str_view, Identifier, Program};
use crate::types::relocatable::Relocatable;
use crate::vm::errors::cairo_run_errors::CairoRunError;
use crate::vm::errors::runner_errors::RunnerError;
use crate::vm::runners::cairo_runner::{builtin_base, runner_names, BuiltinRunner, CairoRunner};
use crate::vm::runners::pc_resolution::{
    function_pc, function_pc_resolves, is_pc_result, pc_of, resolution_ends_within_table_length, resolve_pc,
    resolves, str_or,
};

verus! {

/// Identifies a Cairo function entrypoint either by function name or by program counter.
pub enum EntryPoint<'a> {
    Name(&'a str),
    Pc(usize),
}

proof fn lemma_builtin_base_of_distinct(runners: Seq<BuiltinRunner>, i: int)
    requires
        0 <= i < runners.len(),
        runner_names(runners).no_duplicates(),
    ensures
        builtin_base(runners, runners[i].name) == Some(runners[i].base),
    decreases runners.len(),
{
    if i > 0 {
        assert(runner_names(runners)[0] != runner_names(runners)[i]);
        assert(runner_names(runners.drop_first()) == runner_names(runners).drop_first());
        assert(runners.drop_first()[i - 1] == runners[i]);
        lemma_builtin_base_of_distinct(runners.drop_first(), i - 1);
    }
}

proof fn lemma_builtin_base_of_absent(runners: Seq<BuiltinRunner>, name: BuiltinName)
    requires
        !runner_names(runners).contains(name),
    ensures
        builtin_base(runners, name) is None,
    decreases runners.len(),
{
    if runners.len() > 0 {
        assert(runner_names(runners)[0] == runners[0].name);
        assert(runner_names(runners.drop_first()) == runner_names(runners).drop_first());
        lemma_builtin_base_of_absent(runners.drop_first(), name);
    }
}

/// In a runner set up for testing, the k-th standard builtin has its base at
/// segment k + 2 (after the program and execution segments): output at 2,
/// pedersen at 3, range_check at 4, ecdsa at 5, bitwise at 6, ec_op at 7,
/// keccak at 8, poseidon at 9, range_check96 at 10, add_mod at 11 and
/// mul_mod at 12; the segment arena, which is not among them, has none.
pub proof fn testing_runner_builtin_bases(runners: Seq<BuiltinRunner>)
    requires
        runner_names(runners) == spec_ordered_builtin_list(),
        forall|i: int| 0 <= i < runners.len() ==> #[trigger] runners[i].base == i + 2,
    ensures
        forall|k: int|
            0 <= k < spec_ordered_builtin_list().len() ==> builtin_base(runners, #[trigger] spec_ordered_builtin_list()[k])
                == Some((k + 2) as usize),
        builtin_base(runners, BuiltinName::segment_arena) is None,
        builtin_base(runners, BuiltinName::output) == Some(2usize),
        builtin_base(runners, BuiltinName::pedersen) == Some(3usize),
        builtin_base(runners, BuiltinName::range_check) == Some(4usize),
        builtin_base(runners, BuiltinName::ecdsa) == Some(5usize),
        builtin_base(runners, BuiltinName::bitwise) == Some(6usize),
        builtin_base(runners, BuiltinName::ec_op) == Some(7usize),
        builtin_base(runners, BuiltinName::keccak) == Some(8usize),
        builtin_base(runners, BuiltinName::poseidon) == Some(9usize),
        builtin_base(runners, BuiltinName::range_check96) == Some(10usize),
        builtin_base(runners, BuiltinName::add_mod) == Some(11usize),
        builtin_base(runners, BuiltinName::mul_mod) == Some(12usize),
{
    let list = spec_ordered_builtin_list();
    assert(runners.len() == list.len());
    assert(list.no_duplicates()) by {
        assert forall|a: int, b: int| 0 <= a < list.len() && 0 <= b < list.len() && a != b implies list[a] != list[b] by {
            assert(list[0] == BuiltinName::output);
        }
    }
    assert forall|k: int| 0 <= k < list.len() implies builtin_base(runners, #[trigger] list[k]) == Some((k + 2) as usize) by {
        assert(runner_names(runners)[k] == runners[k].name);
        lemma_builtin_base_of_distinct(runners, k);
    }
    assert(!list.contains(BuiltinName::segment_arena));
    lemma_builtin_base_of_absent(runners, BuiltinName::segment_arena);
    assert(builtin_base(runners, list[0]) == Some(2usize));
    assert(builtin_base(runners, list[1]) == Some(3usize));
    assert(builtin_base(runners, list[2]) == Some(4usize));
    assert(builtin_base(runners, list[3]) == Some(5usize));
    assert(builtin_base(runners, list[4]) == Some(6usize));
    assert(builtin_base(runners, list[5]) == Some(7usize));
    assert(builtin_base(runners, list[6]) == Some(8usize));
    assert(builtin_base(runners, list[7]) == Some(9usize));
    assert(builtin_base(runners, list[8]) == Some(10usize));
    assert(builtin_base(runners, list[9]) == Some(11usize));
    assert(builtin_base(runners, list[10]) == Some(12usize));
}

fn string_or(o: &Option<String>, default: &str) -> (s: String)
    ensures
        s@ == str_or(opt_str_view(*o), default@),
{
    match o {
        Some(v) => v.clone(),
        None => String::from_str(default),
    }
}

impl CairoRunner {
    /// Creates a `CairoRunner` pre-initialized with all 11 standard builtins and segments.
    /// This is the common-case constructor for executing individual Cairo 0 functions.
    pub fn new_for_testing(program: &Program) -> (r: Result<CairoRunner, CairoRunError>)
        ensures
            r matches Ok(runner) && {
                &&& runner.program.builtins@ == spec_ordered_builtin_list()
                &&& runner.program.identifier_table() == program.identifier_table()
                &&& runner.layout == CairoLayout::spec_plain_instance()
                &&& runner_names(runner.vm.builtin_runners@) == spec_ordered_builtin_list()
                &&& forall|i: int|
                    0 <= i < runner.vm.builtin_runners@.len() ==> #[trigger] runner.vm.builtin_runners@[i].base
                        == i + 2
                &&& runner.vm.segments.segment_count == spec_ordered_builtin_list().len() + 2
                &&& runner.program_base == Some(Relocatable { segment_index: 0, offset: 0 })
                &&& runner.execution_base == Some(Relocatable { segment_index: 1, offset: 0 })
                &&& !runner.proof_mode
                &&& !runner.trace_enabled
                &&& !runner.disable_trace_padding
            },
    {
        let mut runner = match CairoRunner::new(program, LayoutName::plain, None, false, false, false) {
            Ok(runner) => runner,
            Err(e) => return Err(CairoRunError::Runner(e)),
        };
        match runner.initialize_all_builtins() {
            Ok(()) => {},
            Err(e) => return Err(CairoRunError::Runner(e)),
        }
        assert(runner.vm.builtin_runners@.len() == runner_names(runner.vm.builtin_runners@).len());
        assert(spec_ordered_builtin_list().len() == 11);
        runner.initialize_segments(None);
        proof {
            assert forall|i: int| 0 <= i < runner.vm.builtin_runners@.len() implies
                #[trigger] runner.vm.builtin_runners@[i].name == spec_ordered_builtin_list()[i] by {
                assert(runner_names(runner.vm.builtin_runners@)[i] == runner.vm.builtin_runners@[i].name);
            }
            assert(runner_names(runner.vm.builtin_runners@) == spec_ordered_builtin_list());
        }
        Ok(runner)
    }

    /// Initializes the 11 standard builtins used for Cairo function testing.
    pub fn initialize_all_builtins(&mut self) -> (r: Result<(), RunnerError>)
        ensures
            r is Ok,
            final(self).program.builtins@ == spec_ordered_builtin_list(),
            runner_names(final(self).vm.builtin_runners@) == spec_ordered_builtin_list(),
            final(self).program.identifier_table() == old(self).program.identifier_table(),
            final(self).vm.segments == old(self).vm.segments,
            final(self).layout == old(self).layout,
            final(self).program_base == old(self).program_base,
            final(self).execution_base == old(self).execution_base,
            final(self).proof_mode == old(self).proof_mode,
            final(self).trace_enabled == old(self).trace_enabled,
            final(self).disable_trace_padding == old(self).disable_trace_padding,
    {
        self.vm.builtin_runners.clear();
        self.program.builtins = ordered_builtin_list();
        assert(runner_names(self.vm.builtin_runners@) == Seq::<BuiltinName>::empty());
        let r = self.initialize_program_builtins();
        r
    }

    /// Resolves `__main__.<entrypoint>` to its PC, following alias chains.
    pub fn get_function_pc(&self, entrypoint: &str) -> (r: Result<usize, CairoRunError>)
        requires
            function_pc_resolves(self.program.identifier_table(), entrypoint@),
        ensures
            is_pc_result(r, function_pc(self.program.identifier_table(), entrypoint@)),
    {
        let mut full_name = String::from_str("__main__.");
        full_name.append(entrypoint);
        match self.program.get_identifier(full_name.as_str()) {
            None => Err(CairoRunError::Program(ProgramError::EntrypointNotFound(String::from_str(entrypoint)))),
            Some(identifier) => self.get_pc_from_identifier(identifier),
        }
    }

    /// Resolves an identifier to its PC: a function gives its pc, an alias
    /// what its destination gives.
    pub fn get_pc_from_identifier(&self, identifier: &Identifier) -> (r: Result<usize, CairoRunError>)
        requires
            resolves(self.program.identifier_table(), identifier@),
        ensures
            is_pc_result(r, pc_of(self.program.identifier_table(), identifier@)),
    {
        let ghost t = self.program.identifier_table();
        let ghost fuel = choose|fuel: nat| #[trigger] resolve_pc(t, identifier@, fuel) is Some;
        let ghost mut f = fuel;
        let function_str = String::from_str("function");
        let alias_str = String::from_str("alias");
        let mut cur = identifier;
        loop
            invariant
                t == self.program.identifier_table(),
                resolve_pc(t, identifier@, fuel) is Some,
                resolve_pc(t, cur@, f) == resolve_pc(t, identifier@, fuel),
                pc_of(t, identifier@) == resolve_pc(t, identifier@, fuel).unwrap(),
                function_str@ == "function"@,
                alias_str@ == "alias"@,
            decreases f,
        {
            let is_function = match &cur.type_ {
                Some(ty) => *ty == function_str,
                None => false,
            };
            let is_alias = match &cur.type_ {
                Some(ty) => *ty == alias_str,
                None => false,
            };
            if is_function {
                return match cur.pc {
                    Some(pc) => Ok(pc),
                    None => Err(CairoRunError::Runner(RunnerError::NoPC)),
                };
            } else if is_alias {
                match &cur.destination {
                    None => {
                        return Err(
                            CairoRunError::Program(
                                ProgramError::AliasMissingDestination(string_or(&cur.full_name, "")),
                            ),
                        );
                    },
                    Some(dest) => match self.program.get_identifier(dest.as_str()) {
                        None => {
                            return Err(CairoRunError::Program(ProgramError::EntrypointNotFound(dest.clone())));
                        },
                        Some(next) => {
                            cur = next;
                            proof {
                                f = (f - 1) as nat;
                            }
                        },
                    },
                }
            } else {
                return Err(
                    CairoRunError::Program(
                        ProgramError::InvalidIdentifierTypeForPc(
                            string_or(&cur.full_name, "<unknown>"),
                            string_or(&cur.type_, "<unknown>"),
                        ),
                    ),
                );
            }
        }
    }

    /// Whether resolving the identifier ends, that is, whether the aliases it
    /// leads through do not run in a circle. What `get_pc_from_identifier`
    /// needs of its argument.
    pub fn identifier_resolves(&self, identifier: &Identifier) -> (b: bool)
        ensures
            b == resolves(self.program.identifier_table(), identifier@),
    {
        let ghost t = self.program.identifier_table();
        let len = self.program.identifiers.len();
        proof {
            resolution_ends_within_table_length(t, identifier@);
            assert(t.len() == len);
        }
        let function_str = String::from_str("function");
        let alias_str = String::from_str("alias");
        let mut cur = identifier;
        let mut remaining = len;
        loop
            invariant
                t == self.program.identifier_table(),
                t.len() == len,
                remaining <= len,
                resolve_pc(t, cur@, (remaining + 1) as nat) == resolve_pc(t, identifier@, (len + 1) as nat),
                resolves(t, identifier@) <==> resolve_pc(t, identifier@, (len + 1) as nat) is Some,
                function_str@ == "function"@,
                alias_str@ == "alias"@,
            decreases remaining,
        {
            let is_function = match &cur.type_ {
                Some(ty) => *ty == function_str,
                None => false,
            };
            let is_alias = match &cur.type_ {
                Some(ty) => *ty == alias_str,
                None => false,
            };
            if is_function || !is_alias {
                return true;
            }
            let next = match &cur.destination {
                None => {
                    return true;
                },
                Some(dest) => match self.program.get_identifier(dest.as_str()) {
                    None => {
                        return true;
                    },
                    Some(next) => next,
                },
            };
            if remaining == 0 {
                assert(resolve_pc(t, next@, 0) is None);
                return false;
            }
            cur = next;
            remaining = remaining - 1;
        }
    }

    /// Whether resolving the named function of the main module ends, where it
    /// exists. What `get_function_pc` needs of its argument.
    pub fn entrypoint_resolves(&self, entrypoint: &str) -> (b: bool)
        ensures
            b == function_pc_resolves(self.program.identifier_table(), entrypoint@),
    {
        let mut full_name = String::from_str("__main__.");
        full_name.append(entrypoint);
        match self.program.get_identifier(full_name.as_str()) {
            None => true,
            Some(identifier) => self.identifier_resolves(identifier),
        }
    }

    /// The pc at which a run from the given entrypoint starts: a named
    /// function of the main module is resolved, a pc is taken as it is.
    pub fn entrypoint_pc(&self, entrypoint: EntryPoint) -> (r: Result<usize, CairoRunError>)
        requires
            entrypoint matches EntryPoint::Name(name) ==> function_pc_resolves(
                self.program.identifier_table(),
                name@,
            ),
        ensures
            match entrypoint {
                EntryPoint::Name(name) => is_pc_result(r, function_pc(self.program.identifier_table(), name@)),
                EntryPoint::Pc(pc) => r matches Ok(p) && p == pc,
            },
    {
        match entrypoint {
            EntryPoint::Name(name) => self.get_function_pc(name),
            EntryPoint::Pc(pc) => Ok(pc),
        }
    }
}

} // verus!
