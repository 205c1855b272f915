use cairo_vm::types::builtins_instance_def::BuiltinsInstanceDef;
use cairo_vm::types::instance_definitions::{
    BitwiseInstanceDef, DilutedPoolInstanceDef, EcOpInstanceDef, EcdsaInstanceDef, KeccakInstanceDef,
    ModInstanceDef, PedersenInstanceDef, PoseidonInstanceDef, RangeCheckInstanceDef,
};
use cairo_vm::types::layout::{bool_from_int_or_bool, CairoLayout, CairoLayoutParams, IntOrBool};
use cairo_vm::types::layout_name::LayoutName;

#[test]
fn get_plain_instance() {
    let layout = CairoLayout::plain_instance();
    let builtins = BuiltinsInstanceDef::plain();
    assert_eq!(layout.name, LayoutName::plain);
    assert_eq!(layout.rc_units, 16);
    assert_eq!(layout.builtins, builtins);
    assert_eq!(layout.public_memory_fraction, 4);
    assert_eq!(layout.diluted_pool_instance_def, None);
}

#[test]
fn get_small_instance() {
    let layout = CairoLayout::small_instance();
    let builtins = BuiltinsInstanceDef::small();
    assert_eq!(layout.name, LayoutName::small);
    assert_eq!(layout.rc_units, 16);
    assert_eq!(layout.builtins, builtins);
    assert_eq!(layout.public_memory_fraction, 4);
    assert_eq!(layout.diluted_pool_instance_def, None);
}

#[test]
fn get_dex_instance() {
    let layout = CairoLayout::dex_instance();
    let builtins = BuiltinsInstanceDef::dex();
    assert_eq!(layout.name, LayoutName::dex);
    assert_eq!(layout.rc_units, 4);
    assert_eq!(layout.builtins, builtins);
    assert_eq!(layout.public_memory_fraction, 4);
    assert_eq!(layout.diluted_pool_instance_def, None);
}

#[test]
fn get_recursive_instance() {
    let layout = CairoLayout::recursive_instance();
    let builtins = BuiltinsInstanceDef::recursive();
    assert_eq!(layout.name, LayoutName::recursive);
    assert_eq!(layout.rc_units, 4);
    assert_eq!(layout.builtins, builtins);
    assert_eq!(layout.public_memory_fraction, 8);
    assert_eq!(
        layout.diluted_pool_instance_def,
        Some(DilutedPoolInstanceDef::default())
    );
}

#[test]
fn get_starknet_instance() {
    let layout = CairoLayout::starknet_instance();
    let builtins = BuiltinsInstanceDef::starknet();
    assert_eq!(layout.name, LayoutName::starknet);
    assert_eq!(layout.rc_units, 4);
    assert_eq!(layout.builtins, builtins);
    assert_eq!(layout.public_memory_fraction, 8);
    assert_eq!(
        layout.diluted_pool_instance_def,
        Some(DilutedPoolInstanceDef::new(2, 4, 16))
    );
}

#[test]
fn get_starknet_with_keccak_instance() {
    let layout = CairoLayout::starknet_with_keccak_instance();
    let builtins = BuiltinsInstanceDef::starknet_with_keccak();
    assert_eq!(layout.name, LayoutName::starknet_with_keccak);
    assert_eq!(layout.rc_units, 4);
    assert_eq!(layout.builtins, builtins);
    assert_eq!(layout.public_memory_fraction, 8);
    assert_eq!(
        layout.diluted_pool_instance_def,
        Some(DilutedPoolInstanceDef::default())
    );
}

#[test]
fn get_recursive_large_output_instance() {
    let layout = CairoLayout::recursive_large_output_instance();
    let builtins = BuiltinsInstanceDef::recursive_large_output();
    assert_eq!(layout.name, LayoutName::recursive_large_output);
    assert_eq!(layout.rc_units, 4);
    assert_eq!(layout.builtins, builtins);
    assert_eq!(layout.public_memory_fraction, 8);
    assert_eq!(
        layout.diluted_pool_instance_def,
        Some(DilutedPoolInstanceDef::default())
    );
}

#[test]
fn get_all_cairo_instance() {
    let layout = CairoLayout::all_cairo_instance();
    let builtins = BuiltinsInstanceDef::all_cairo();
    assert_eq!(layout.name, LayoutName::all_cairo);
    assert_eq!(layout.rc_units, 4);
    assert_eq!(layout.builtins, builtins);
    assert_eq!(layout.public_memory_fraction, 8);
    assert_eq!(
        layout.diluted_pool_instance_def,
        Some(DilutedPoolInstanceDef::default())
    );
}

#[test]
fn get_all_solidity_instance() {
    let layout = CairoLayout::all_solidity_instance();
    let builtins = BuiltinsInstanceDef::all_solidity();
    assert_eq!(layout.name, LayoutName::all_solidity);
    assert_eq!(layout.rc_units, 8);
    assert_eq!(layout.builtins, builtins);
    assert_eq!(layout.public_memory_fraction, 8);
    assert_eq!(
        layout.diluted_pool_instance_def,
        Some(DilutedPoolInstanceDef::default())
    );
}

#[test]
fn get_dynamic_instance() {
    // dummy cairo layout params
    let params = CairoLayoutParams {
        rc_units: 32,
        log_diluted_units_per_step: 5,
        uses_pedersen_builtin: true,
        pedersen_ratio: 32,
        uses_range_check_builtin: true,
        range_check_ratio: 32,
        uses_ecdsa_builtin: true,
        ecdsa_ratio: 32,
        uses_bitwise_builtin: true,
        bitwise_ratio: 32,
        uses_ec_op_builtin: true,
        ec_op_ratio: 32,
        uses_keccak_builtin: true,
        keccak_ratio: 32,
        uses_poseidon_builtin: false,
        uses_range_check96_builtin: false,
        uses_add_mod_builtin: false,
        uses_mul_mod_builtin: true,
        mul_mod_ratio: 32,
        ..Default::default()
    };

    let layout = CairoLayout::dynamic_instance(params);

    assert_eq!(layout.name, LayoutName::dynamic);
    assert_eq!(layout.rc_units, 32);
    assert_eq!(layout.public_memory_fraction, 4); // hardcoded
    assert_eq!(
        layout.diluted_pool_instance_def,
        Some(DilutedPoolInstanceDef {
            units_per_step: 32,
            ..DilutedPoolInstanceDef::default() // hardcoded
        })
    );

    assert!(layout.builtins.output);
    assert_eq!(
        layout.builtins.pedersen,
        Some(PedersenInstanceDef { ratio: Some(32) })
    );
    assert_eq!(
        layout.builtins.range_check,
        Some(RangeCheckInstanceDef { ratio: Some(32) })
    );
    assert_eq!(
        layout.builtins.ecdsa,
        Some(EcdsaInstanceDef { ratio: Some(32) })
    );
    assert_eq!(
        layout.builtins.bitwise,
        Some(BitwiseInstanceDef { ratio: Some(32) })
    );
    assert_eq!(
        layout.builtins.ec_op,
        Some(EcOpInstanceDef { ratio: Some(32) })
    );
    assert_eq!(
        layout.builtins.keccak,
        Some(KeccakInstanceDef { ratio: Some(32) })
    );
    assert_eq!(layout.builtins.poseidon, None,);
    assert_eq!(layout.builtins.range_check96, None,);
    assert_eq!(layout.builtins.add_mod, None);
    assert_eq!(
        layout.builtins.mul_mod,
        Some(ModInstanceDef {
            ratio: Some(32),
            word_bit_len: 1, // hardcoded
            batch_size: 96   // hardcoded
        })
    );
}

#[test]
fn get_recursive_with_poseidon_instance() {
    let layout = CairoLayout::recursive_with_poseidon();
    assert_eq!(layout.name, LayoutName::recursive_with_poseidon);
    assert_eq!(layout.rc_units, 4);
    assert_eq!(layout.builtins, BuiltinsInstanceDef::recursive_with_poseidon());
    assert_eq!(layout.public_memory_fraction, 8);
    assert_eq!(
        layout.diluted_pool_instance_def,
        Some(DilutedPoolInstanceDef::new(8, 4, 16))
    );
}

#[test]
fn dynamic_instance_without_builtins_offers_only_output() {
    let params = CairoLayoutParams {
        rc_units: 4,
        log_diluted_units_per_step: 0,
        ..Default::default()
    };
    let layout = CairoLayout::dynamic_instance(params);
    assert_eq!(layout.rc_units, 4);
    let mut expected = BuiltinsInstanceDef::plain();
    expected.output = true;
    assert_eq!(layout.builtins, expected);
    assert_eq!(
        layout.diluted_pool_instance_def,
        Some(DilutedPoolInstanceDef::new(1, 4, 16))
    );
}

#[test]
fn dynamic_instance_largest_diluted_step() {
    let params = CairoLayoutParams {
        log_diluted_units_per_step: 31,
        uses_add_mod_builtin: true,
        add_mod_ratio: 128,
        uses_range_check96_builtin: true,
        range_check96_ratio: 8,
        uses_poseidon_builtin: true,
        poseidon_ratio: 256,
        ..Default::default()
    };
    let layout = CairoLayout::dynamic_instance(params);
    assert_eq!(
        layout.diluted_pool_instance_def.unwrap().units_per_step,
        2_147_483_648
    );
    assert_eq!(layout.builtins.add_mod, Some(ModInstanceDef::new(Some(128), 1, 96)));
    assert_eq!(layout.builtins.range_check96, Some(RangeCheckInstanceDef::new(Some(8))));
    assert_eq!(layout.builtins.poseidon, Some(PoseidonInstanceDef::new(Some(256))));
    assert_eq!(layout.builtins.pedersen, None);
}

#[test]
fn default_instance_definitions() {
    assert_eq!(PedersenInstanceDef::default().ratio, Some(8));
    assert_eq!(RangeCheckInstanceDef::default().ratio, Some(8));
    assert_eq!(EcdsaInstanceDef::default().ratio, Some(512));
    assert_eq!(BitwiseInstanceDef::default().ratio, Some(256));
    assert_eq!(EcOpInstanceDef::default().ratio, Some(256));
    assert_eq!(KeccakInstanceDef::default().ratio, Some(2048));
    assert_eq!(PoseidonInstanceDef::default().ratio, Some(32));
    assert_eq!(DilutedPoolInstanceDef::default(), DilutedPoolInstanceDef::new(16, 4, 16));
}

#[test]
fn flags_read_from_int_or_bool() {
    assert!(!bool_from_int_or_bool(IntOrBool::Int(0)));
    assert!(bool_from_int_or_bool(IntOrBool::Int(1)));
    assert!(bool_from_int_or_bool(IntOrBool::Int(-7)));
    assert!(bool_from_int_or_bool(IntOrBool::Boolean(true)));
    assert!(!bool_from_int_or_bool(IntOrBool::Boolean(false)));
}
