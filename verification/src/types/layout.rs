use vstd::prelude::*;

use crate::types::builtins_instance_def::BuiltinsInstanceDef;
use crate::types::instance_definitions::{
    BitwiseInstanceDef, DilutedPoolInstanceDef, EcOpInstanceDef, EcdsaInstanceDef, KeccakInstanceDef,
    ModInstanceDef, PedersenInstanceDef, PoseidonInstanceDef, RangeCheckInstanceDef,
};
use crate::types::layout_name::LayoutName;
use vstd::arithmetic::power2::pow2;

verus! {

/// Memory units each step of the CPU uses.
pub const MEMORY_UNITS_PER_STEP: u32 = 8;

/// A memory layout: its name, the range-check units per step, the builtins
/// it offers, the share of public memory and its diluted pool.
#[derive(Debug)]
pub struct CairoLayout {
    pub name: LayoutName,
    pub rc_units: u32,
    pub builtins: BuiltinsInstanceDef,
    pub public_memory_fraction: u32,
    pub diluted_pool_instance_def: Option<DilutedPoolInstanceDef>,
}

/// The parameters of a dynamic layout.
#[derive(Clone, Copy, Debug)]
pub struct CairoLayoutParams {
    pub rc_units: u32,
    pub log_diluted_units_per_step: u32,
    pub uses_pedersen_builtin: bool,
    pub pedersen_ratio: u32,
    pub uses_range_check_builtin: bool,
    pub range_check_ratio: u32,
    pub uses_ecdsa_builtin: bool,
    pub ecdsa_ratio: u32,
    pub uses_bitwise_builtin: bool,
    pub bitwise_ratio: u32,
    pub uses_ec_op_builtin: bool,
    pub ec_op_ratio: u32,
    pub uses_keccak_builtin: bool,
    pub keccak_ratio: u32,
    pub uses_poseidon_builtin: bool,
    pub poseidon_ratio: u32,
    pub uses_range_check96_builtin: bool,
    pub range_check96_ratio: u32,
    pub uses_add_mod_builtin: bool,
    pub add_mod_ratio: u32,
    pub uses_mul_mod_builtin: bool,
    pub mul_mod_ratio: u32,
    // the following are not used right now
    pub cpu_component_step: u32,
    pub memory_units_per_step: u32,
    pub range_check96_ratio_den: u32,
    pub mul_mod_ratio_den: u32,
    pub add_mod_ratio_den: u32,
}

impl CairoLayoutParams {
    /// The parameters with every number 0 and every flag false.
    pub open spec fn spec_default() -> CairoLayoutParams {
        CairoLayoutParams {
            rc_units: 0,
            log_diluted_units_per_step: 0,
            uses_pedersen_builtin: false,
            pedersen_ratio: 0,
            uses_range_check_builtin: false,
            range_check_ratio: 0,
            uses_ecdsa_builtin: false,
            ecdsa_ratio: 0,
            uses_bitwise_builtin: false,
            bitwise_ratio: 0,
            uses_ec_op_builtin: false,
            ec_op_ratio: 0,
            uses_keccak_builtin: false,
            keccak_ratio: 0,
            uses_poseidon_builtin: false,
            poseidon_ratio: 0,
            uses_range_check96_builtin: false,
            range_check96_ratio: 0,
            uses_add_mod_builtin: false,
            add_mod_ratio: 0,
            uses_mul_mod_builtin: false,
            mul_mod_ratio: 0,
            cpu_component_step: 0,
            memory_units_per_step: 0,
            range_check96_ratio_den: 0,
            mul_mod_ratio_den: 0,
            add_mod_ratio_den: 0,
        }
    }
}

impl Default for CairoLayoutParams {
    fn default() -> (p: Self)
        ensures
            p == Self::spec_default(),
    {
        CairoLayoutParams {
            rc_units: 0,
            log_diluted_units_per_step: 0,
            uses_pedersen_builtin: false,
            pedersen_ratio: 0,
            uses_range_check_builtin: false,
            range_check_ratio: 0,
            uses_ecdsa_builtin: false,
            ecdsa_ratio: 0,
            uses_bitwise_builtin: false,
            bitwise_ratio: 0,
            uses_ec_op_builtin: false,
            ec_op_ratio: 0,
            uses_keccak_builtin: false,
            keccak_ratio: 0,
            uses_poseidon_builtin: false,
            poseidon_ratio: 0,
            uses_range_check96_builtin: false,
            range_check96_ratio: 0,
            uses_add_mod_builtin: false,
            add_mod_ratio: 0,
            uses_mul_mod_builtin: false,
            mul_mod_ratio: 0,
            cpu_component_step: 0,
            memory_units_per_step: 0,
            range_check96_ratio_den: 0,
            mul_mod_ratio_den: 0,
            add_mod_ratio_den: 0,
        }
    }
}

/// A flag as a parameters file may write it: as an integer or as a boolean.
#[derive(Clone, Copy, Debug)]
pub enum IntOrBool {
    Int(i64),
    Boolean(bool),
}

/// Reads a flag written as an integer or a boolean: an integer is true
/// unless it is 0, a boolean is itself.
pub fn bool_from_int_or_bool(v: IntOrBool) -> (b: bool)
    ensures
        b == match v {
            IntOrBool::Int(i) => i != 0,
            IntOrBool::Boolean(x) => x,
        },
{
    match v {
        IntOrBool::Int(0) => false,
        IntOrBool::Int(_) => true,
        IntOrBool::Boolean(x) => x,
    }
}

/// A dynamic layout always offers the output builtin and, of the others,
/// exactly those its parameters use, each at the ratio the parameters give;
/// its diluted pool has 2^log_diluted_units_per_step units per step.
pub proof fn dynamic_layout_follows_its_parameters(params: CairoLayoutParams)
    ensures
        ({
            let l = CairoLayout::spec_dynamic_instance(params);
            let b = l.builtins;
            &&& b.output
            &&& (b.pedersen is Some <==> params.uses_pedersen_builtin)
            &&& (b.pedersen matches Some(d) ==> d.ratio == Some(params.pedersen_ratio))
            &&& (b.range_check is Some <==> params.uses_range_check_builtin)
            &&& (b.range_check matches Some(d) ==> d.ratio == Some(params.range_check_ratio))
            &&& (b.ecdsa is Some <==> params.uses_ecdsa_builtin)
            &&& (b.ecdsa matches Some(d) ==> d.ratio == Some(params.ecdsa_ratio))
            &&& (b.bitwise is Some <==> params.uses_bitwise_builtin)
            &&& (b.bitwise matches Some(d) ==> d.ratio == Some(params.bitwise_ratio))
            &&& (b.ec_op is Some <==> params.uses_ec_op_builtin)
            &&& (b.ec_op matches Some(d) ==> d.ratio == Some(params.ec_op_ratio))
            &&& (b.keccak is Some <==> params.uses_keccak_builtin)
            &&& (b.keccak matches Some(d) ==> d.ratio == Some(params.keccak_ratio))
            &&& (b.poseidon is Some <==> params.uses_poseidon_builtin)
            &&& (b.poseidon matches Some(d) ==> d.ratio == Some(params.poseidon_ratio))
            &&& (b.range_check96 is Some <==> params.uses_range_check96_builtin)
            &&& (b.range_check96 matches Some(d) ==> d.ratio == Some(params.range_check96_ratio))
            &&& (b.add_mod is Some <==> params.uses_add_mod_builtin)
            &&& (b.add_mod matches Some(d) ==> d.ratio == Some(params.add_mod_ratio))
            &&& (b.mul_mod is Some <==> params.uses_mul_mod_builtin)
            &&& (b.mul_mod matches Some(d) ==> d.ratio == Some(params.mul_mod_ratio))
            &&& l.rc_units == params.rc_units
            &&& l.diluted_pool_instance_def matches Some(pool) && pool.units_per_step == pow2(
                params.log_diluted_units_per_step as nat,
            ) as u32
        }),
{
}

/// The fixed layouts, each with its own name, its range-check units, its
/// public memory fraction, its diluted pool, and the builtins it offers at
/// their ratios (a modular-arithmetic builtin has word bit length 1 and batch
/// size 96); every builtin not listed is absent.
pub proof fn fixed_layouts_are_as_documented()
    ensures
        ({
            let l = CairoLayout::spec_plain_instance();
            &&& l.name == LayoutName::plain
            &&& l.rc_units == 16
            &&& l.public_memory_fraction == 4
            &&& l.diluted_pool_instance_def is None
            &&& l.builtins.output == false
            &&& l.builtins.pedersen is None
            &&& l.builtins.range_check is None
            &&& l.builtins.ecdsa is None
            &&& l.builtins.bitwise is None
            &&& l.builtins.ec_op is None
            &&& l.builtins.keccak is None
            &&& l.builtins.poseidon is None
            &&& l.builtins.range_check96 is None
            &&& l.builtins.add_mod is None
            &&& l.builtins.mul_mod is None
        }),
        ({
            let l = CairoLayout::spec_small_instance();
            &&& l.name == LayoutName::small
            &&& l.rc_units == 16
            &&& l.public_memory_fraction == 4
            &&& l.diluted_pool_instance_def is None
            &&& l.builtins.output == true
            &&& l.builtins.pedersen == Some(PedersenInstanceDef { ratio: Some(8u32) })
            &&& l.builtins.range_check == Some(RangeCheckInstanceDef { ratio: Some(8u32) })
            &&& l.builtins.ecdsa == Some(EcdsaInstanceDef { ratio: Some(512u32) })
            &&& l.builtins.bitwise is None
            &&& l.builtins.ec_op is None
            &&& l.builtins.keccak is None
            &&& l.builtins.poseidon is None
            &&& l.builtins.range_check96 is None
            &&& l.builtins.add_mod is None
            &&& l.builtins.mul_mod is None
        }),
        ({
            let l = CairoLayout::spec_dex_instance();
            &&& l.name == LayoutName::dex
            &&& l.rc_units == 4
            &&& l.public_memory_fraction == 4
            &&& l.diluted_pool_instance_def is None
            &&& l.builtins.output == true
            &&& l.builtins.pedersen == Some(PedersenInstanceDef { ratio: Some(8u32) })
            &&& l.builtins.range_check == Some(RangeCheckInstanceDef { ratio: Some(8u32) })
            &&& l.builtins.ecdsa == Some(EcdsaInstanceDef { ratio: Some(512u32) })
            &&& l.builtins.bitwise is None
            &&& l.builtins.ec_op is None
            &&& l.builtins.keccak is None
            &&& l.builtins.poseidon is None
            &&& l.builtins.range_check96 is None
            &&& l.builtins.add_mod is None
            &&& l.builtins.mul_mod is None
        }),
        ({
            let l = CairoLayout::spec_recursive_instance();
            &&& l.name == LayoutName::recursive
            &&& l.rc_units == 4
            &&& l.public_memory_fraction == 8
            &&& l.diluted_pool_instance_def == Some(DilutedPoolInstanceDef { units_per_step: 16, spacing: 4, n_bits: 16 })
            &&& l.builtins.output == true
            &&& l.builtins.pedersen == Some(PedersenInstanceDef { ratio: Some(128u32) })
            &&& l.builtins.range_check == Some(RangeCheckInstanceDef { ratio: Some(8u32) })
            &&& l.builtins.ecdsa is None
            &&& l.builtins.bitwise == Some(BitwiseInstanceDef { ratio: Some(8u32) })
            &&& l.builtins.ec_op is None
            &&& l.builtins.keccak is None
            &&& l.builtins.poseidon is None
            &&& l.builtins.range_check96 is None
            &&& l.builtins.add_mod is None
            &&& l.builtins.mul_mod is None
        }),
        ({
            let l = CairoLayout::spec_starknet_instance();
            &&& l.name == LayoutName::starknet
            &&& l.rc_units == 4
            &&& l.public_memory_fraction == 8
            &&& l.diluted_pool_instance_def == Some(DilutedPoolInstanceDef { units_per_step: 2, spacing: 4, n_bits: 16 })
            &&& l.builtins.output == true
            &&& l.builtins.pedersen == Some(PedersenInstanceDef { ratio: Some(32u32) })
            &&& l.builtins.range_check == Some(RangeCheckInstanceDef { ratio: Some(16u32) })
            &&& l.builtins.ecdsa == Some(EcdsaInstanceDef { ratio: Some(2048u32) })
            &&& l.builtins.bitwise == Some(BitwiseInstanceDef { ratio: Some(64u32) })
            &&& l.builtins.ec_op == Some(EcOpInstanceDef { ratio: Some(1024u32) })
            &&& l.builtins.keccak is None
            &&& l.builtins.poseidon == Some(PoseidonInstanceDef { ratio: Some(32u32) })
            &&& l.builtins.range_check96 is None
            &&& l.builtins.add_mod is None
            &&& l.builtins.mul_mod is None
        }),
        ({
            let l = CairoLayout::spec_starknet_with_keccak_instance();
            &&& l.name == LayoutName::starknet_with_keccak
            &&& l.rc_units == 4
            &&& l.public_memory_fraction == 8
            &&& l.diluted_pool_instance_def == Some(DilutedPoolInstanceDef { units_per_step: 16, spacing: 4, n_bits: 16 })
            &&& l.builtins.output == true
            &&& l.builtins.pedersen == Some(PedersenInstanceDef { ratio: Some(32u32) })
            &&& l.builtins.range_check == Some(RangeCheckInstanceDef { ratio: Some(16u32) })
            &&& l.builtins.ecdsa == Some(EcdsaInstanceDef { ratio: Some(2048u32) })
            &&& l.builtins.bitwise == Some(BitwiseInstanceDef { ratio: Some(64u32) })
            &&& l.builtins.ec_op == Some(EcOpInstanceDef { ratio: Some(1024u32) })
            &&& l.builtins.keccak == Some(KeccakInstanceDef { ratio: Some(2048u32) })
            &&& l.builtins.poseidon == Some(PoseidonInstanceDef { ratio: Some(32u32) })
            &&& l.builtins.range_check96 is None
            &&& l.builtins.add_mod is None
            &&& l.builtins.mul_mod is None
        }),
        ({
            let l = CairoLayout::spec_recursive_large_output_instance();
            &&& l.name == LayoutName::recursive_large_output
            &&& l.rc_units == 4
            &&& l.public_memory_fraction == 8
            &&& l.diluted_pool_instance_def == Some(DilutedPoolInstanceDef { units_per_step: 16, spacing: 4, n_bits: 16 })
            &&& l.builtins.output == true
            &&& l.builtins.pedersen == Some(PedersenInstanceDef { ratio: Some(128u32) })
            &&& l.builtins.range_check == Some(RangeCheckInstanceDef { ratio: Some(8u32) })
            &&& l.builtins.ecdsa is None
            &&& l.builtins.bitwise == Some(BitwiseInstanceDef { ratio: Some(8u32) })
            &&& l.builtins.ec_op is None
            &&& l.builtins.keccak is None
            &&& l.builtins.poseidon == Some(PoseidonInstanceDef { ratio: Some(8u32) })
            &&& l.builtins.range_check96 is None
            &&& l.builtins.add_mod is None
            &&& l.builtins.mul_mod is None
        }),
        ({
            let l = CairoLayout::spec_recursive_with_poseidon();
            &&& l.name == LayoutName::recursive_with_poseidon
            &&& l.rc_units == 4
            &&& l.public_memory_fraction == 8
            &&& l.diluted_pool_instance_def == Some(DilutedPoolInstanceDef { units_per_step: 8, spacing: 4, n_bits: 16 })
            &&& l.builtins.output == true
            &&& l.builtins.pedersen == Some(PedersenInstanceDef { ratio: Some(256u32) })
            &&& l.builtins.range_check == Some(RangeCheckInstanceDef { ratio: Some(16u32) })
            &&& l.builtins.ecdsa is None
            &&& l.builtins.bitwise == Some(BitwiseInstanceDef { ratio: Some(16u32) })
            &&& l.builtins.ec_op is None
            &&& l.builtins.keccak is None
            &&& l.builtins.poseidon == Some(PoseidonInstanceDef { ratio: Some(64u32) })
            &&& l.builtins.range_check96 is None
            &&& l.builtins.add_mod is None
            &&& l.builtins.mul_mod is None
        }),
        ({
            let l = CairoLayout::spec_all_cairo_instance();
            &&& l.name == LayoutName::all_cairo
            &&& l.rc_units == 4
            &&& l.public_memory_fraction == 8
            &&& l.diluted_pool_instance_def == Some(DilutedPoolInstanceDef { units_per_step: 16, spacing: 4, n_bits: 16 })
            &&& l.builtins.output == true
            &&& l.builtins.pedersen == Some(PedersenInstanceDef { ratio: Some(256u32) })
            &&& l.builtins.range_check == Some(RangeCheckInstanceDef { ratio: Some(8u32) })
            &&& l.builtins.ecdsa == Some(EcdsaInstanceDef { ratio: Some(2048u32) })
            &&& l.builtins.bitwise == Some(BitwiseInstanceDef { ratio: Some(16u32) })
            &&& l.builtins.ec_op == Some(EcOpInstanceDef { ratio: Some(1024u32) })
            &&& l.builtins.keccak == Some(KeccakInstanceDef { ratio: Some(2048u32) })
            &&& l.builtins.poseidon == Some(PoseidonInstanceDef { ratio: Some(256u32) })
            &&& l.builtins.range_check96 == Some(RangeCheckInstanceDef { ratio: Some(8u32) })
            &&& l.builtins.add_mod == Some(ModInstanceDef { ratio: Some(128u32), word_bit_len: 1, batch_size: 96 })
            &&& l.builtins.mul_mod == Some(ModInstanceDef { ratio: Some(256u32), word_bit_len: 1, batch_size: 96 })
        }),
        ({
            let l = CairoLayout::spec_all_solidity_instance();
            &&& l.name == LayoutName::all_solidity
            &&& l.rc_units == 8
            &&& l.public_memory_fraction == 8
            &&& l.diluted_pool_instance_def == Some(DilutedPoolInstanceDef { units_per_step: 16, spacing: 4, n_bits: 16 })
            &&& l.builtins.output == true
            &&& l.builtins.pedersen == Some(PedersenInstanceDef { ratio: Some(8u32) })
            &&& l.builtins.range_check == Some(RangeCheckInstanceDef { ratio: Some(8u32) })
            &&& l.builtins.ecdsa == Some(EcdsaInstanceDef { ratio: Some(512u32) })
            &&& l.builtins.bitwise == Some(BitwiseInstanceDef { ratio: Some(256u32) })
            &&& l.builtins.ec_op == Some(EcOpInstanceDef { ratio: Some(256u32) })
            &&& l.builtins.keccak is None
            &&& l.builtins.poseidon is None
            &&& l.builtins.range_check96 is None
            &&& l.builtins.add_mod is None
            &&& l.builtins.mul_mod is None
        }),
{
}

impl CairoLayout {
    pub open spec fn spec_plain_instance() -> CairoLayout {
        CairoLayout {
            name: LayoutName::plain,
            rc_units: 16,
            builtins: BuiltinsInstanceDef::spec_plain(),
            public_memory_fraction: 4,
            diluted_pool_instance_def: None,
        }
    }

    pub open spec fn spec_small_instance() -> CairoLayout {
        CairoLayout {
            name: LayoutName::small,
            rc_units: 16,
            builtins: BuiltinsInstanceDef::spec_small(),
            public_memory_fraction: 4,
            diluted_pool_instance_def: None,
        }
    }

    pub open spec fn spec_dex_instance() -> CairoLayout {
        CairoLayout {
            name: LayoutName::dex,
            rc_units: 4,
            builtins: BuiltinsInstanceDef::spec_dex(),
            public_memory_fraction: 4,
            diluted_pool_instance_def: None,
        }
    }

    pub open spec fn spec_recursive_instance() -> CairoLayout {
        CairoLayout {
            name: LayoutName::recursive,
            rc_units: 4,
            builtins: BuiltinsInstanceDef::spec_recursive(),
            public_memory_fraction: 8,
            diluted_pool_instance_def: Some(DilutedPoolInstanceDef::spec_default()),
        }
    }

    pub open spec fn spec_starknet_instance() -> CairoLayout {
        CairoLayout {
            name: LayoutName::starknet,
            rc_units: 4,
            builtins: BuiltinsInstanceDef::spec_starknet(),
            public_memory_fraction: 8,
            diluted_pool_instance_def: Some(DilutedPoolInstanceDef { units_per_step: 2, spacing: 4, n_bits: 16 }),
        }
    }

    pub open spec fn spec_starknet_with_keccak_instance() -> CairoLayout {
        CairoLayout {
            name: LayoutName::starknet_with_keccak,
            rc_units: 4,
            builtins: BuiltinsInstanceDef::spec_starknet_with_keccak(),
            public_memory_fraction: 8,
            diluted_pool_instance_def: Some(DilutedPoolInstanceDef::spec_default()),
        }
    }

    pub open spec fn spec_recursive_large_output_instance() -> CairoLayout {
        CairoLayout {
            name: LayoutName::recursive_large_output,
            rc_units: 4,
            builtins: BuiltinsInstanceDef::spec_recursive_large_output(),
            public_memory_fraction: 8,
            diluted_pool_instance_def: Some(DilutedPoolInstanceDef::spec_default()),
        }
    }

    pub open spec fn spec_recursive_with_poseidon() -> CairoLayout {
        CairoLayout {
            name: LayoutName::recursive_with_poseidon,
            rc_units: 4,
            builtins: BuiltinsInstanceDef::spec_recursive_with_poseidon(),
            public_memory_fraction: 8,
            diluted_pool_instance_def: Some(DilutedPoolInstanceDef { units_per_step: 8, spacing: 4, n_bits: 16 }),
        }
    }

    pub open spec fn spec_all_cairo_instance() -> CairoLayout {
        CairoLayout {
            name: LayoutName::all_cairo,
            rc_units: 4,
            builtins: BuiltinsInstanceDef::spec_all_cairo(),
            public_memory_fraction: 8,
            diluted_pool_instance_def: Some(DilutedPoolInstanceDef::spec_default()),
        }
    }

    pub open spec fn spec_all_solidity_instance() -> CairoLayout {
        CairoLayout {
            name: LayoutName::all_solidity,
            rc_units: 8,
            builtins: BuiltinsInstanceDef::spec_all_solidity(),
            public_memory_fraction: 8,
            diluted_pool_instance_def: Some(DilutedPoolInstanceDef::spec_default()),
        }
    }

    /// The dynamic layout of the given parameters: their range-check units,
    /// a public memory fraction of 4, a default diluted pool with
    /// 2^log_diluted_units_per_step units per step, and the builtins the
    /// parameters use.
    pub open spec fn spec_dynamic_instance(params: CairoLayoutParams) -> CairoLayout {
        CairoLayout {
            name: LayoutName::dynamic,
            rc_units: params.rc_units,
            builtins: BuiltinsInstanceDef::spec_dynamic(params),
            public_memory_fraction: 4,
            diluted_pool_instance_def: Some(
                DilutedPoolInstanceDef {
                    units_per_step: pow2(params.log_diluted_units_per_step as nat) as u32,
                    ..DilutedPoolInstanceDef::spec_default()
                },
            ),
        }
    }

    pub fn plain_instance() -> (l: CairoLayout)
        ensures
            l == Self::spec_plain_instance(),
    {
        CairoLayout {
            name: LayoutName::plain,
            rc_units: 16,
            builtins: BuiltinsInstanceDef::plain(),
            public_memory_fraction: 4,
            diluted_pool_instance_def: None,
        }
    }

    pub fn small_instance() -> (l: CairoLayout)
        ensures
            l == Self::spec_small_instance(),
    {
        CairoLayout {
            name: LayoutName::small,
            rc_units: 16,
            builtins: BuiltinsInstanceDef::small(),
            public_memory_fraction: 4,
            diluted_pool_instance_def: None,
        }
    }

    pub fn dex_instance() -> (l: CairoLayout)
        ensures
            l == Self::spec_dex_instance(),
    {
        CairoLayout {
            name: LayoutName::dex,
            rc_units: 4,
            builtins: BuiltinsInstanceDef::dex(),
            public_memory_fraction: 4,
            diluted_pool_instance_def: None,
        }
    }

    pub fn recursive_instance() -> (l: CairoLayout)
        ensures
            l == Self::spec_recursive_instance(),
    {
        CairoLayout {
            name: LayoutName::recursive,
            rc_units: 4,
            builtins: BuiltinsInstanceDef::recursive(),
            public_memory_fraction: 8,
            diluted_pool_instance_def: Some(DilutedPoolInstanceDef::default()),
        }
    }

    pub fn starknet_instance() -> (l: CairoLayout)
        ensures
            l == Self::spec_starknet_instance(),
    {
        CairoLayout {
            name: LayoutName::starknet,
            rc_units: 4,
            builtins: BuiltinsInstanceDef::starknet(),
            public_memory_fraction: 8,
            diluted_pool_instance_def: Some(DilutedPoolInstanceDef::new(2, 4, 16)),
        }
    }

    pub fn starknet_with_keccak_instance() -> (l: CairoLayout)
        ensures
            l == Self::spec_starknet_with_keccak_instance(),
    {
        CairoLayout {
            name: LayoutName::starknet_with_keccak,
            rc_units: 4,
            builtins: BuiltinsInstanceDef::starknet_with_keccak(),
            public_memory_fraction: 8,
            diluted_pool_instance_def: Some(DilutedPoolInstanceDef::default()),
        }
    }

    pub fn recursive_large_output_instance() -> (l: CairoLayout)
        ensures
            l == Self::spec_recursive_large_output_instance(),
    {
        CairoLayout {
            name: LayoutName::recursive_large_output,
            rc_units: 4,
            builtins: BuiltinsInstanceDef::recursive_large_output(),
            public_memory_fraction: 8,
            diluted_pool_instance_def: Some(DilutedPoolInstanceDef::default()),
        }
    }

    pub fn recursive_with_poseidon() -> (l: CairoLayout)
        ensures
            l == Self::spec_recursive_with_poseidon(),
    {
        CairoLayout {
            name: LayoutName::recursive_with_poseidon,
            rc_units: 4,
            builtins: BuiltinsInstanceDef::recursive_with_poseidon(),
            public_memory_fraction: 8,
            diluted_pool_instance_def: Some(DilutedPoolInstanceDef::new(8, 4, 16)),
        }
    }

    pub fn all_cairo_instance() -> (l: CairoLayout)
        ensures
            l == Self::spec_all_cairo_instance(),
    {
        CairoLayout {
            name: LayoutName::all_cairo,
            rc_units: 4,
            builtins: BuiltinsInstanceDef::all_cairo(),
            public_memory_fraction: 8,
            diluted_pool_instance_def: Some(DilutedPoolInstanceDef::default()),
        }
    }

    pub fn all_solidity_instance() -> (l: CairoLayout)
        ensures
            l == Self::spec_all_solidity_instance(),
    {
        CairoLayout {
            name: LayoutName::all_solidity,
            rc_units: 8,
            builtins: BuiltinsInstanceDef::all_solidity(),
            public_memory_fraction: 8,
            diluted_pool_instance_def: Some(DilutedPoolInstanceDef::default()),
        }
    }

    /// The layout that the given parameters describe. Raising 2 to
    /// `log_diluted_units_per_step` must fit in a `u32`.
    pub fn dynamic_instance(params: CairoLayoutParams) -> (l: CairoLayout)
        requires
            params.log_diluted_units_per_step < 32,
        ensures
            l == Self::spec_dynamic_instance(params),
    {
        let log = params.log_diluted_units_per_step;
        proof {
            vstd::bits::lemma_u32_pow2_no_overflow(log as nat);
            vstd::bits::lemma_u32_shl_is_mul(1, log);
        }
        let units_per_step: u32 = 1u32 << log;
        CairoLayout {
            name: LayoutName::dynamic,
            rc_units: params.rc_units,
            public_memory_fraction: 4,
            diluted_pool_instance_def: Some(
                DilutedPoolInstanceDef { units_per_step, ..DilutedPoolInstanceDef::default() },
            ),
            builtins: BuiltinsInstanceDef::dynamic(&params),
        }
    }
}

} // verus!
