use cairo_vm::types::builtin_name::BuiltinName;
use cairo_vm::types::errors::program_errors::ProgramError;
use cairo_vm::types::layout::CairoLayoutParams;
use cairo_vm::types::layout_name::LayoutName;
use cairo_vm::types::program::{Identifier, Program};
use cairo_vm::types::relocatable::{MaybeRelocatable, Relocatable};
use cairo_vm::vm::errors::cairo_run_errors::CairoRunError;
use cairo_vm::vm::errors::runner_errors::RunnerError;
use cairo_vm::vm::runners::cairo_runner::CairoRunner;
use cairo_vm::vm::runners::function_runner::EntryPoint;

fn function(name: &str, pc: Option<usize>) -> (String, Identifier) {
    (
        name.to_string(),
        Identifier {
            pc,
            type_: Some("function".to_string()),
            full_name: Some(name.to_string()),
            destination: None,
        },
    )
}

fn alias(name: &str, destination: Option<&str>) -> (String, Identifier) {
    (
        name.to_string(),
        Identifier {
            pc: None,
            type_: Some("alias".to_string()),
            full_name: Some(name.to_string()),
            destination: destination.map(|d| d.to_string()),
        },
    )
}

/// The identifier table of the example program: `assert_nn` is imported
/// from the math library, whose function sits at pc 0.
fn load_program() -> Program {
    Program::new(
        vec![BuiltinName::range_check],
        vec![
            function("starkware.cairo.common.math.assert_nn", Some(0)),
            alias("__main__.assert_nn", Some("starkware.cairo.common.math.assert_nn")),
            function("__main__.assert_nn_manual_implementation", Some(4)),
            function("__main__.evaluate_fib", Some(11)),
            function("__main__.main", Some(31)),
        ],
    )
}

#[test]
fn new_for_testing_initializes_expected_builtin_bases() {
    let program = load_program();
    let runner = CairoRunner::new_for_testing(&program).unwrap();

    assert_eq!(runner.vm.builtin_runners.len(), 11);
    let expected_builtins = [
        BuiltinName::pedersen,
        BuiltinName::range_check,
        BuiltinName::output,
        BuiltinName::ecdsa,
        BuiltinName::bitwise,
        BuiltinName::ec_op,
        BuiltinName::keccak,
        BuiltinName::poseidon,
        BuiltinName::range_check96,
        BuiltinName::add_mod,
        BuiltinName::mul_mod,
    ];
    for builtin in expected_builtins {
        assert!(runner.get_builtin_base(builtin).is_some());
    }
    assert!(runner
        .get_builtin_base(BuiltinName::segment_arena)
        .is_none());
    assert_eq!(runner.vm.segments.num_segments(), 11 + 2);
}

#[test]
fn new_without_builtins_has_no_builtin_bases_or_segments() {
    let program = load_program();
    let runner =
        CairoRunner::new(&program, LayoutName::plain, None, false, false, false).unwrap();

    assert!(runner.get_builtin_base(BuiltinName::range_check).is_none());
    assert_eq!(runner.vm.segments.num_segments(), 0);
}

#[test]
fn get_function_pc_assert_nn_resolves_alias_to_pc_0() {
    let program = load_program();
    let runner = CairoRunner::new_for_testing(&program).unwrap();

    let pc = runner.get_function_pc("assert_nn").unwrap();
    assert_eq!(
        pc, 0,
        "assert_nn is an alias to starkware.cairo.common.math.assert_nn which has pc 0"
    );
}

#[test]
fn get_function_pc_assert_nn_manual_implementation_returns_pc_4() {
    let program = load_program();
    let runner = CairoRunner::new_for_testing(&program).unwrap();

    let pc = runner
        .get_function_pc("assert_nn_manual_implementation")
        .unwrap();
    assert_eq!(
        pc, 4,
        "assert_nn_manual_implementation is a function with pc 4"
    );
}

#[test]
fn builtin_bases_follow_the_standard_order() {
    let runner = CairoRunner::new_for_testing(&load_program()).unwrap();
    assert_eq!(
        runner.get_builtin_base(BuiltinName::output),
        Some(MaybeRelocatable::RelocatableValue(Relocatable::new(2, 0)))
    );
    assert_eq!(
        runner.get_builtin_base(BuiltinName::mul_mod),
        Some(MaybeRelocatable::from_segment_offset(12, 0))
    );
    assert_eq!(runner.program_base, Some(Relocatable::new(0, 0)));
    assert_eq!(runner.execution_base, Some(Relocatable::new(1, 0)));
    assert_eq!(runner.program.builtins.len(), 11);
    assert!(!runner.proof_mode);
    assert!(!runner.trace_enabled);
    assert!(!runner.disable_trace_padding);
}

#[test]
fn initialize_segments_with_given_program_base() {
    let program = load_program();
    let mut runner =
        CairoRunner::new(&program, LayoutName::small, None, false, false, false).unwrap();
    assert!(runner.initialize_program_builtins().is_ok());
    runner.initialize_segments(Some(Relocatable::new(7, 3)));
    assert_eq!(runner.program_base, Some(Relocatable::new(7, 3)));
    assert_eq!(runner.execution_base, Some(Relocatable::new(0, 0)));
    assert_eq!(
        runner.get_builtin_base(BuiltinName::range_check),
        Some(MaybeRelocatable::from_segment_offset(1, 0))
    );
    assert_eq!(runner.vm.segments.num_segments(), 2);
}

#[test]
fn dynamic_runner_uses_its_parameters() {
    let program = load_program();
    let params = CairoLayoutParams {
        rc_units: 8,
        log_diluted_units_per_step: 3,
        ..Default::default()
    };
    let runner =
        CairoRunner::new(&program, LayoutName::dynamic, Some(params), true, false, false).unwrap();
    assert_eq!(runner.layout.name, LayoutName::dynamic);
    assert_eq!(runner.layout.rc_units, 8);
    assert_eq!(runner.layout.diluted_pool_instance_def.unwrap().units_per_step, 8);
    assert!(runner.is_proof_mode());
}

#[test]
fn get_function_pc_missing_entrypoint_returns_entrypoint_not_found() {
    let runner = CairoRunner::new_for_testing(&load_program()).unwrap();
    match runner.get_function_pc("missing_entrypoint") {
        Err(CairoRunError::Program(ProgramError::EntrypointNotFound(ep))) => {
            assert_eq!(ep, "missing_entrypoint")
        }
        _ => panic!("expected EntrypointNotFound"),
    }
}

#[test]
fn get_function_pc_reports_alias_and_type_errors() {
    let program = Program::new(
        vec![],
        vec![
            alias("__main__.no_dest", None),
            alias("__main__.dangling", Some("lib.gone")),
            function("__main__.no_pc", None),
            (
                "__main__.my_struct".to_string(),
                Identifier {
                    pc: None,
                    type_: Some("struct".to_string()),
                    full_name: Some("__main__.my_struct".to_string()),
                    destination: None,
                },
            ),
            (
                "__main__.untyped".to_string(),
                Identifier { pc: Some(3), type_: None, full_name: None, destination: None },
            ),
        ],
    );
    let runner = CairoRunner::new(&program, LayoutName::plain, None, false, false, false).unwrap();
    match runner.get_function_pc("no_dest") {
        Err(CairoRunError::Program(ProgramError::AliasMissingDestination(n))) => {
            assert_eq!(n, "__main__.no_dest")
        }
        _ => panic!("expected AliasMissingDestination"),
    }
    match runner.get_function_pc("dangling") {
        Err(CairoRunError::Program(ProgramError::EntrypointNotFound(n))) => assert_eq!(n, "lib.gone"),
        _ => panic!("expected EntrypointNotFound"),
    }
    assert!(matches!(
        runner.get_function_pc("no_pc"),
        Err(CairoRunError::Runner(RunnerError::NoPC))
    ));
    match runner.get_function_pc("my_struct") {
        Err(CairoRunError::Program(ProgramError::InvalidIdentifierTypeForPc(n, t))) => {
            assert_eq!(n, "__main__.my_struct");
            assert_eq!(t, "struct");
        }
        _ => panic!("expected InvalidIdentifierTypeForPc"),
    }
    match runner.get_function_pc("untyped") {
        Err(CairoRunError::Program(ProgramError::InvalidIdentifierTypeForPc(n, t))) => {
            assert_eq!(n, "<unknown>");
            assert_eq!(t, "<unknown>");
        }
        _ => panic!("expected InvalidIdentifierTypeForPc"),
    }
}

#[test]
fn later_identifier_entries_replace_earlier_ones() {
    let program = Program::new(
        vec![],
        vec![
            function("__main__.f", Some(1)),
            function("lib.g", Some(9)),
            alias("__main__.f", Some("lib.g")),
        ],
    );
    let runner = CairoRunner::new(&program, LayoutName::plain, None, false, false, false).unwrap();
    assert_eq!(runner.get_function_pc("f").unwrap(), 9);
    assert_eq!(program.get_identifier("lib.g").unwrap().pc, Some(9));
    assert!(program.get_identifier("lib.h").is_none());
}

#[test]
fn entrypoint_pc_by_name_and_by_pc() {
    let runner = CairoRunner::new_for_testing(&load_program()).unwrap();
    assert_eq!(runner.entrypoint_pc(EntryPoint::Name("main")).unwrap(), 31);
    assert_eq!(runner.entrypoint_pc(EntryPoint::Pc(77)).unwrap(), 77);
    assert!(matches!(
        runner.entrypoint_pc(EntryPoint::Name("nope")),
        Err(CairoRunError::Program(ProgramError::EntrypointNotFound(_)))
    ));
}

#[test]
fn circular_aliases_do_not_resolve() {
    let program = Program::new(
        vec![],
        vec![
            alias("__main__.a", Some("lib.b")),
            alias("lib.b", Some("lib.c")),
            alias("lib.c", Some("lib.b")),
            alias("__main__.self_loop", Some("__main__.self_loop")),
            alias("__main__.d", Some("lib.e")),
            alias("lib.e", Some("lib.f")),
            function("lib.f", Some(5)),
        ],
    );
    let runner = CairoRunner::new(&program, LayoutName::plain, None, false, false, false).unwrap();
    assert!(!runner.entrypoint_resolves("a"));
    assert!(!runner.entrypoint_resolves("self_loop"));
    assert!(runner.entrypoint_resolves("d"));
    assert!(runner.entrypoint_resolves("missing"));
    assert_eq!(runner.get_function_pc("d").unwrap(), 5);
    let b = program.get_identifier("lib.b").unwrap();
    assert!(!runner.identifier_resolves(b));
    let e = program.get_identifier("lib.e").unwrap();
    assert!(runner.identifier_resolves(e));
    assert_eq!(runner.get_pc_from_identifier(e).unwrap(), 5);
}

#[test]
fn example_program_entrypoints_resolve() {
    let runner = CairoRunner::new_for_testing(&load_program()).unwrap();
    for name in ["main", "evaluate_fib", "assert_nn", "assert_nn_manual_implementation"] {
        assert!(runner.entrypoint_resolves(name));
    }
}

#[test]
fn dynamic_runner_without_parameters_is_refused() {
    let program = load_program();
    assert!(matches!(
        CairoRunner::new(&program, LayoutName::dynamic, None, false, false, false),
        Err(RunnerError::MissingDynamicLayoutParams)
    ));
}
