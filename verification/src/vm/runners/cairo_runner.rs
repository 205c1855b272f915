use vstd::prelude::*;

use crate::types::builtin_name::BuiltinName;
use crate::types::layout::{CairoLayout, CairoLayoutParams};
use crate::types::layout_name::LayoutName;
use crate::types::program::Program;
use crate::types::relocatable::{MaybeRelocatable, Relocatable};
use crate::vm::errors::runner_errors::RunnerError;

verus! {

/// A builtin's runner: which builtin it runs and the segment it was given.
#[derive(Clone, Copy, Debug)]
pub struct BuiltinRunner {
    pub name: BuiltinName,
    pub base: usize,
}

impl BuiltinRunner {
    pub fn name(&self) -> (n: BuiltinName)
        ensures
            n == self.name,
    {
        self.name
    }

    pub fn base(&self) -> (b: usize)
        ensures
            b == self.base,
    {
        self.base
    }
}

/// The VM's memory segments, counted.
#[derive(Debug)]
pub struct MemorySegmentManager {
    pub segment_count: usize,
}

impl MemorySegmentManager {
    /// How many segments there are.
    pub fn num_segments(&self) -> (n: usize)
        ensures
            n == self.segment_count,
    {
        self.segment_count
    }

    /// Adds a segment and returns its address.
    pub fn add(&mut self) -> (r: Relocatable)
        requires
            old(self).segment_count < usize::MAX,
        ensures
            final(self).segment_count == old(self).segment_count + 1,
            r.segment_index == old(self).segment_count as isize,
            r.offset == 0,
    {
        let index = self.segment_count;
        self.segment_count = index + 1;
        Relocatable { segment_index: index as isize, offset: 0 }
    }
}

/// The VM's state, as far as preparing a run reads it: the builtin runners
/// and the memory segments.
#[derive(Debug)]
pub struct VirtualMachine {
    pub builtin_runners: Vec<BuiltinRunner>,
    pub segments: MemorySegmentManager,
}

/// The names of a list of builtin runners, in order.
pub open spec fn runner_names(runners: Seq<BuiltinRunner>) -> Seq<BuiltinName> {
    runners.map_values(|r: BuiltinRunner| r.name)
}

/// The base of the first runner of the given builtin, where there is one.
pub open spec fn builtin_base(runners: Seq<BuiltinRunner>, name: BuiltinName) -> Option<usize>
    decreases runners.len(),
{
    if runners.len() == 0 {
        None
    } else if runners[0].name == name {
        Some(runners[0].base)
    } else {
        builtin_base(runners.drop_first(), name)
    }
}

/// A runner of a Cairo program: the program, the layout it runs in, the VM
/// and the mode of the run.
pub struct CairoRunner {
    pub program: Program,
    pub layout: CairoLayout,
    pub vm: VirtualMachine,
    pub program_base: Option<Relocatable>,
    pub execution_base: Option<Relocatable>,
    pub proof_mode: bool,
    pub trace_enabled: bool,
    pub disable_trace_padding: bool,
}

/// A runner is given the layout of the name it was asked for: each fixed
/// name selects the fixed layout that carries that name, and the dynamic name
/// the layout its parameters describe, which is named dynamic.
pub proof fn runner_layout_has_the_asked_name(layout: LayoutName, params: Option<CairoLayoutParams>)
    requires
        layout == LayoutName::dynamic ==> params is Some,
    ensures
        CairoRunner::spec_layout(layout, params).name == layout,
        layout != LayoutName::dynamic ==> CairoRunner::spec_layout(layout, params)
            == CairoRunner::spec_layout(layout, None),
{
    crate::types::layout::fixed_layouts_are_as_documented();
}

impl CairoRunner {
    /// The layout that a layout name selects.
    pub open spec fn spec_layout(layout: LayoutName, params: Option<CairoLayoutParams>) -> CairoLayout {
        match layout {
            LayoutName::plain => CairoLayout::spec_plain_instance(),
            LayoutName::small => CairoLayout::spec_small_instance(),
            LayoutName::dex => CairoLayout::spec_dex_instance(),
            LayoutName::recursive => CairoLayout::spec_recursive_instance(),
            LayoutName::starknet => CairoLayout::spec_starknet_instance(),
            LayoutName::starknet_with_keccak => CairoLayout::spec_starknet_with_keccak_instance(),
            LayoutName::recursive_large_output => CairoLayout::spec_recursive_large_output_instance(),
            LayoutName::recursive_with_poseidon => CairoLayout::spec_recursive_with_poseidon(),
            LayoutName::all_solidity => CairoLayout::spec_all_solidity_instance(),
            LayoutName::all_cairo => CairoLayout::spec_all_cairo_instance(),
            LayoutName::dynamic => CairoLayout::spec_dynamic_instance(params.unwrap()),
        }
    }

    /// A runner for `program` in the named layout, with no builtin runners
    /// and no segments yet. A dynamic layout needs its parameters: without
    /// them the runner is refused with `MissingDynamicLayoutParams`.
    pub fn new(
        program: &Program,
        layout: LayoutName,
        dynamic_layout_params: Option<CairoLayoutParams>,
        proof_mode: bool,
        trace_enabled: bool,
        disable_trace_padding: bool,
    ) -> (r: Result<CairoRunner, RunnerError>)
        requires
            layout == LayoutName::dynamic ==> (dynamic_layout_params matches Some(p)
                ==> p.log_diluted_units_per_step < 32),
        ensures
            (layout == LayoutName::dynamic && dynamic_layout_params is None) ==> r matches Err(
                RunnerError::MissingDynamicLayoutParams,
            ),
            !(layout == LayoutName::dynamic && dynamic_layout_params is None) ==> (r matches Ok(runner) && {
                &&& runner.program.builtins@ == program.builtins@
                &&& runner.program.identifier_table() == program.identifier_table()
                &&& runner.layout == Self::spec_layout(layout, dynamic_layout_params)
                &&& runner.vm.builtin_runners@.len() == 0
                &&& runner.vm.segments.segment_count == 0
                &&& runner.program_base is None
                &&& runner.execution_base is None
                &&& runner.proof_mode == proof_mode
                &&& runner.trace_enabled == trace_enabled
                &&& runner.disable_trace_padding == disable_trace_padding
            }),
    {
        let cairo_layout = match layout {
            LayoutName::plain => CairoLayout::plain_instance(),
            LayoutName::small => CairoLayout::small_instance(),
            LayoutName::dex => CairoLayout::dex_instance(),
            LayoutName::recursive => CairoLayout::recursive_instance(),
            LayoutName::starknet => CairoLayout::starknet_instance(),
            LayoutName::starknet_with_keccak => CairoLayout::starknet_with_keccak_instance(),
            LayoutName::recursive_large_output => CairoLayout::recursive_large_output_instance(),
            LayoutName::recursive_with_poseidon => CairoLayout::recursive_with_poseidon(),
            LayoutName::all_solidity => CairoLayout::all_solidity_instance(),
            LayoutName::all_cairo => CairoLayout::all_cairo_instance(),
            LayoutName::dynamic => match dynamic_layout_params {
                Some(params) => CairoLayout::dynamic_instance(params),
                None => {
                    return Err(RunnerError::MissingDynamicLayoutParams);
                },
            },
        };
        Ok(
            CairoRunner {
                program: program.duplicate(),
                layout: cairo_layout,
                vm: VirtualMachine {
                    builtin_runners: Vec::new(),
                    segments: MemorySegmentManager { segment_count: 0 },
                },
                program_base: None,
                execution_base: None,
                proof_mode,
                trace_enabled,
                disable_trace_padding,
            },
        )
    }

    /// Whether the run is in proof mode.
    pub fn is_proof_mode(&self) -> (b: bool)
        ensures
            b == self.proof_mode,
    {
        self.proof_mode
    }

    /// Adds a runner for each of the program's builtins, in the program's
    /// order, after the runners already there.
    pub fn initialize_program_builtins(&mut self) -> (r: Result<(), RunnerError>)
        ensures
            r is Ok,
            runner_names(final(self).vm.builtin_runners@) == runner_names(old(self).vm.builtin_runners@)
                + old(self).program.builtins@,
            final(self).program.builtins@ == old(self).program.builtins@,
            final(self).program.identifier_table() == old(self).program.identifier_table(),
            final(self).vm.segments == old(self).vm.segments,
            final(self).layout == old(self).layout,
            final(self).program_base == old(self).program_base,
            final(self).execution_base == old(self).execution_base,
            final(self).proof_mode == old(self).proof_mode,
            final(self).trace_enabled == old(self).trace_enabled,
            final(self).disable_trace_padding == old(self).disable_trace_padding,
    {
        let n = self.program.builtins.len();
        let ghost start = runner_names(self.vm.builtin_runners@);
        for i in 0..n
            invariant
                n == self.program.builtins.len(),
                self.program.builtins@ == old(self).program.builtins@,
                self.program.identifier_table() == old(self).program.identifier_table(),
                self.vm.segments == old(self).vm.segments,
                self.layout == old(self).layout,
                self.program_base == old(self).program_base,
                self.execution_base == old(self).execution_base,
                self.proof_mode == old(self).proof_mode,
                self.trace_enabled == old(self).trace_enabled,
                self.disable_trace_padding == old(self).disable_trace_padding,
                start == runner_names(old(self).vm.builtin_runners@),
                runner_names(self.vm.builtin_runners@) == start + self.program.builtins@.take(i as int),
        {
            let name = self.program.builtins[i];
            self.vm.builtin_runners.push(BuiltinRunner { name, base: 0 });
            assert(self.program.builtins@.take(i + 1) == self.program.builtins@.take(i as int).push(name));
            assert(runner_names(self.vm.builtin_runners@) == (start + self.program.builtins@.take(i as int)).push(name));
        }
        assert(self.program.builtins@.take(n as int) == self.program.builtins@);
        Ok(())
    }

    /// Adds the program segment (unless a base is given), the execution
    /// segment, and a segment for each builtin runner, in the runners' order.
    pub fn initialize_segments(&mut self, program_base: Option<Relocatable>)
        requires
            old(self).vm.segments.segment_count + old(self).vm.builtin_runners@.len() + 2 <= usize::MAX,
        ensures
            ({
                let first = old(self).vm.segments.segment_count + if program_base is None { 1int } else { 0int };
                &&& final(self).program_base == Some(
                    match program_base {
                        Some(b) => b,
                        None => Relocatable { segment_index: old(self).vm.segments.segment_count as isize, offset: 0 },
                    },
                )
                &&& final(self).execution_base == Some(Relocatable { segment_index: first as isize, offset: 0 })
                &&& final(self).vm.builtin_runners@.len() == old(self).vm.builtin_runners@.len()
                &&& forall|i: int|
                    0 <= i < final(self).vm.builtin_runners@.len() ==> {
                        &&& #[trigger] final(self).vm.builtin_runners@[i].name == old(self).vm.builtin_runners@[i].name
                        &&& final(self).vm.builtin_runners@[i].base == first + 1 + i
                    }
                &&& final(self).vm.segments.segment_count == first + 1 + old(self).vm.builtin_runners@.len()
            }),
            final(self).program.builtins@ == old(self).program.builtins@,
            final(self).program.identifier_table() == old(self).program.identifier_table(),
            final(self).layout == old(self).layout,
            final(self).proof_mode == old(self).proof_mode,
            final(self).trace_enabled == old(self).trace_enabled,
            final(self).disable_trace_padding == old(self).disable_trace_padding,
    {
        let base = match program_base {
            Some(b) => b,
            None => self.vm.segments.add(),
        };
        self.program_base = Some(base);
        let execution_base = self.vm.segments.add();
        self.execution_base = Some(execution_base);
        let ghost first = old(self).vm.segments.segment_count + if program_base is None { 1int } else { 0int };
        let n = self.vm.builtin_runners.len();
        for i in 0..n
            invariant
                n == self.vm.builtin_runners@.len(),
                n == old(self).vm.builtin_runners@.len(),
                first == old(self).vm.segments.segment_count + if program_base is None { 1int } else { 0int },
                self.vm.segments.segment_count == first + 1 + i,
                first + 1 + n <= usize::MAX,
                self.program_base == Some(base),
                self.execution_base == Some(execution_base),
                self.program.builtins@ == old(self).program.builtins@,
                self.program.identifier_table() == old(self).program.identifier_table(),
                self.layout == old(self).layout,
                self.proof_mode == old(self).proof_mode,
                self.trace_enabled == old(self).trace_enabled,
                self.disable_trace_padding == old(self).disable_trace_padding,
                forall|j: int| 0 <= j < n ==> #[trigger] self.vm.builtin_runners@[j].name == old(self).vm.builtin_runners@[j].name,
                forall|j: int| 0 <= j < i ==> #[trigger] self.vm.builtin_runners@[j].base == first + 1 + j,
        {
            let name = self.vm.builtin_runners[i].name;
            let _segment = self.vm.segments.add();
            let index = self.vm.segments.segment_count - 1;
            self.vm.builtin_runners.set(i, BuiltinRunner { name, base: index });
        }
    }

    /// The base of the first runner of the given builtin, as an address at
    /// offset 0 of its segment.
    pub fn get_builtin_base(&self, builtin_name: BuiltinName) -> (r: Option<MaybeRelocatable>)
        ensures
            r == match builtin_base(self.vm.builtin_runners@, builtin_name) {
                Some(base) => Some(
                    MaybeRelocatable::RelocatableValue(Relocatable { segment_index: base as isize, offset: 0 }),
                ),
                None => None,
            },
    {
        let n = self.vm.builtin_runners.len();
        assert(self.vm.builtin_runners@.skip(0) == self.vm.builtin_runners@);
        for i in 0..n
            invariant
                n == self.vm.builtin_runners@.len(),
                builtin_base(self.vm.builtin_runners@, builtin_name) == builtin_base(
                    self.vm.builtin_runners@.skip(i as int),
                    builtin_name,
                ),
        {
            assert(self.vm.builtin_runners@.skip(i as int).drop_first() == self.vm.builtin_runners@.skip(i + 1));
            let b = &self.vm.builtin_runners[i];
            if b.name() == builtin_name {
                return Some(MaybeRelocatable::from_segment_offset(b.base() as isize, 0));
            }
        }
        None
    }
}

} // verus!
