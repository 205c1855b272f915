use vstd::prelude::*;

use crate::types::instance_definitions::{
    BitwiseInstanceDef, EcOpInstanceDef, EcdsaInstanceDef, KeccakInstanceDef, ModInstanceDef,
    PedersenInstanceDef, PoseidonInstanceDef, RangeCheckInstanceDef,
};
use crate::types::layout::CairoLayoutParams;

verus! {

/// Which builtins a layout offers, and how often each appears.
#[derive(Clone, Copy, Debug, PartialEq, Eq, Structural)]
pub struct BuiltinsInstanceDef {
    pub output: bool,
    pub pedersen: Option<PedersenInstanceDef>,
    pub range_check: Option<RangeCheckInstanceDef>,
    pub ecdsa: Option<EcdsaInstanceDef>,
    pub bitwise: Option<BitwiseInstanceDef>,
    pub ec_op: Option<EcOpInstanceDef>,
    pub keccak: Option<KeccakInstanceDef>,
    pub poseidon: Option<PoseidonInstanceDef>,
    pub range_check96: Option<RangeCheckInstanceDef>,
    pub add_mod: Option<ModInstanceDef>,
    pub mul_mod: Option<ModInstanceDef>,
}

pub open spec fn pedersen_def(r: u32) -> Option<PedersenInstanceDef> {
    Some(PedersenInstanceDef { ratio: Some(r) })
}

pub open spec fn range_check_def(r: u32) -> Option<RangeCheckInstanceDef> {
    Some(RangeCheckInstanceDef { ratio: Some(r) })
}

pub open spec fn ecdsa_def(r: u32) -> Option<EcdsaInstanceDef> {
    Some(EcdsaInstanceDef { ratio: Some(r) })
}

pub open spec fn bitwise_def(r: u32) -> Option<BitwiseInstanceDef> {
    Some(BitwiseInstanceDef { ratio: Some(r) })
}

pub open spec fn ec_op_def(r: u32) -> Option<EcOpInstanceDef> {
    Some(EcOpInstanceDef { ratio: Some(r) })
}

pub open spec fn keccak_def(r: u32) -> Option<KeccakInstanceDef> {
    Some(KeccakInstanceDef { ratio: Some(r) })
}

pub open spec fn poseidon_def(r: u32) -> Option<PoseidonInstanceDef> {
    Some(PoseidonInstanceDef { ratio: Some(r) })
}

/// A modular-arithmetic builtin of the given ratio, with word bit length 1
/// and batch size 96.
pub open spec fn mod_def(r: u32) -> Option<ModInstanceDef> {
    Some(ModInstanceDef { ratio: Some(r), word_bit_len: 1, batch_size: 96 })
}

/// `Some(d)` where `used` holds, `None` otherwise.
pub open spec fn when<T>(used: bool, d: Option<T>) -> Option<T> {
    if used { d } else { None }
}

impl BuiltinsInstanceDef {
    pub open spec fn spec_plain() -> BuiltinsInstanceDef {
        BuiltinsInstanceDef {
            output: false,
            pedersen: None,
            range_check: None,
            ecdsa: None,
            bitwise: None,
            ec_op: None,
            keccak: None,
            poseidon: None,
            range_check96: None,
            add_mod: None,
            mul_mod: None,
        }
    }

    pub open spec fn spec_small() -> BuiltinsInstanceDef {
        BuiltinsInstanceDef {
            output: true,
            pedersen: pedersen_def(8),
            range_check: range_check_def(8),
            ecdsa: ecdsa_def(512),
            ..Self::spec_plain()
        }
    }

    pub open spec fn spec_dex() -> BuiltinsInstanceDef {
        Self::spec_small()
    }

    pub open spec fn spec_recursive() -> BuiltinsInstanceDef {
        BuiltinsInstanceDef {
            output: true,
            pedersen: pedersen_def(128),
            range_check: range_check_def(8),
            bitwise: bitwise_def(8),
            ..Self::spec_plain()
        }
    }

    pub open spec fn spec_starknet() -> BuiltinsInstanceDef {
        BuiltinsInstanceDef {
            output: true,
            pedersen: pedersen_def(32),
            range_check: range_check_def(16),
            ecdsa: ecdsa_def(2048),
            bitwise: bitwise_def(64),
            ec_op: ec_op_def(1024),
            poseidon: poseidon_def(32),
            ..Self::spec_plain()
        }
    }

    pub open spec fn spec_starknet_with_keccak() -> BuiltinsInstanceDef {
        BuiltinsInstanceDef { keccak: keccak_def(2048), ..Self::spec_starknet() }
    }

    pub open spec fn spec_recursive_large_output() -> BuiltinsInstanceDef {
        BuiltinsInstanceDef {
            output: true,
            pedersen: pedersen_def(128),
            range_check: range_check_def(8),
            bitwise: bitwise_def(8),
            poseidon: poseidon_def(8),
            ..Self::spec_plain()
        }
    }

    pub open spec fn spec_recursive_with_poseidon() -> BuiltinsInstanceDef {
        BuiltinsInstanceDef {
            output: true,
            pedersen: pedersen_def(256),
            range_check: range_check_def(16),
            bitwise: bitwise_def(16),
            poseidon: poseidon_def(64),
            ..Self::spec_plain()
        }
    }

    pub open spec fn spec_all_cairo() -> BuiltinsInstanceDef {
        BuiltinsInstanceDef {
            output: true,
            pedersen: pedersen_def(256),
            range_check: range_check_def(8),
            ecdsa: ecdsa_def(2048),
            bitwise: bitwise_def(16),
            ec_op: ec_op_def(1024),
            keccak: keccak_def(2048),
            poseidon: poseidon_def(256),
            range_check96: range_check_def(8),
            add_mod: mod_def(128),
            mul_mod: mod_def(256),
        }
    }

    pub open spec fn spec_all_solidity() -> BuiltinsInstanceDef {
        BuiltinsInstanceDef {
            output: true,
            pedersen: pedersen_def(8),
            range_check: range_check_def(8),
            ecdsa: ecdsa_def(512),
            bitwise: bitwise_def(256),
            ec_op: ec_op_def(256),
            ..Self::spec_plain()
        }
    }

    /// The builtins of a dynamic layout: the output builtin, and each other
    /// builtin that the parameters use, at the ratio they give.
    pub open spec fn spec_dynamic(params: CairoLayoutParams) -> BuiltinsInstanceDef {
        BuiltinsInstanceDef {
            output: true,
            pedersen: when(params.uses_pedersen_builtin, pedersen_def(params.pedersen_ratio)),
            range_check: when(params.uses_range_check_builtin, range_check_def(params.range_check_ratio)),
            ecdsa: when(params.uses_ecdsa_builtin, ecdsa_def(params.ecdsa_ratio)),
            bitwise: when(params.uses_bitwise_builtin, bitwise_def(params.bitwise_ratio)),
            ec_op: when(params.uses_ec_op_builtin, ec_op_def(params.ec_op_ratio)),
            keccak: when(params.uses_keccak_builtin, keccak_def(params.keccak_ratio)),
            poseidon: when(params.uses_poseidon_builtin, poseidon_def(params.poseidon_ratio)),
            range_check96: when(params.uses_range_check96_builtin, range_check_def(params.range_check96_ratio)),
            add_mod: when(params.uses_add_mod_builtin, mod_def(params.add_mod_ratio)),
            mul_mod: when(params.uses_mul_mod_builtin, mod_def(params.mul_mod_ratio)),
        }
    }

    pub fn plain() -> (b: BuiltinsInstanceDef)
        ensures
            b == Self::spec_plain(),
    {
        BuiltinsInstanceDef {
            output: false,
            pedersen: None,
            range_check: None,
            ecdsa: None,
            bitwise: None,
            ec_op: None,
            keccak: None,
            poseidon: None,
            range_check96: None,
            add_mod: None,
            mul_mod: None,
        }
    }

    pub fn small() -> (b: BuiltinsInstanceDef)
        ensures
            b == Self::spec_small(),
    {
        BuiltinsInstanceDef {
            output: true,
            pedersen: Some(PedersenInstanceDef::default()),
            range_check: Some(RangeCheckInstanceDef::default()),
            ecdsa: Some(EcdsaInstanceDef::default()),
            ..Self::plain()
        }
    }

    pub fn dex() -> (b: BuiltinsInstanceDef)
        ensures
            b == Self::spec_dex(),
    {
        BuiltinsInstanceDef {
            output: true,
            pedersen: Some(PedersenInstanceDef::default()),
            range_check: Some(RangeCheckInstanceDef::default()),
            ecdsa: Some(EcdsaInstanceDef::default()),
            ..Self::plain()
        }
    }

    pub fn recursive() -> (b: BuiltinsInstanceDef)
        ensures
            b == Self::spec_recursive(),
    {
        BuiltinsInstanceDef {
            output: true,
            pedersen: Some(PedersenInstanceDef::new(Some(128))),
            range_check: Some(RangeCheckInstanceDef::default()),
            bitwise: Some(BitwiseInstanceDef::new(Some(8))),
            ..Self::plain()
        }
    }

    pub fn starknet() -> (b: BuiltinsInstanceDef)
        ensures
            b == Self::spec_starknet(),
    {
        BuiltinsInstanceDef {
            output: true,
            pedersen: Some(PedersenInstanceDef::new(Some(32))),
            range_check: Some(RangeCheckInstanceDef::new(Some(16))),
            ecdsa: Some(EcdsaInstanceDef::new(Some(2048))),
            bitwise: Some(BitwiseInstanceDef::new(Some(64))),
            ec_op: Some(EcOpInstanceDef::new(Some(1024))),
            poseidon: Some(PoseidonInstanceDef::new(Some(32))),
            ..Self::plain()
        }
    }

    pub fn starknet_with_keccak() -> (b: BuiltinsInstanceDef)
        ensures
            b == Self::spec_starknet_with_keccak(),
    {
        BuiltinsInstanceDef { keccak: Some(KeccakInstanceDef::new(Some(2048))), ..Self::starknet() }
    }

    pub fn recursive_large_output() -> (b: BuiltinsInstanceDef)
        ensures
            b == Self::spec_recursive_large_output(),
    {
        BuiltinsInstanceDef {
            output: true,
            pedersen: Some(PedersenInstanceDef::new(Some(128))),
            range_check: Some(RangeCheckInstanceDef::default()),
            bitwise: Some(BitwiseInstanceDef::new(Some(8))),
            poseidon: Some(PoseidonInstanceDef::new(Some(8))),
            ..Self::plain()
        }
    }

    pub fn recursive_with_poseidon() -> (b: BuiltinsInstanceDef)
        ensures
            b == Self::spec_recursive_with_poseidon(),
    {
        BuiltinsInstanceDef {
            output: true,
            pedersen: Some(PedersenInstanceDef::new(Some(256))),
            range_check: Some(RangeCheckInstanceDef::new(Some(16))),
            bitwise: Some(BitwiseInstanceDef::new(Some(16))),
            poseidon: Some(PoseidonInstanceDef::new(Some(64))),
            ..Self::plain()
        }
    }

    pub fn all_cairo() -> (b: BuiltinsInstanceDef)
        ensures
            b == Self::spec_all_cairo(),
    {
        BuiltinsInstanceDef {
            output: true,
            pedersen: Some(PedersenInstanceDef::new(Some(256))),
            range_check: Some(RangeCheckInstanceDef::default()),
            ecdsa: Some(EcdsaInstanceDef::new(Some(2048))),
            bitwise: Some(BitwiseInstanceDef::new(Some(16))),
            ec_op: Some(EcOpInstanceDef::new(Some(1024))),
            keccak: Some(KeccakInstanceDef::new(Some(2048))),
            poseidon: Some(PoseidonInstanceDef::new(Some(256))),
            range_check96: Some(RangeCheckInstanceDef::new(Some(8))),
            add_mod: Some(ModInstanceDef::new(Some(128), 1, 96)),
            mul_mod: Some(ModInstanceDef::new(Some(256), 1, 96)),
        }
    }

    pub fn all_solidity() -> (b: BuiltinsInstanceDef)
        ensures
            b == Self::spec_all_solidity(),
    {
        BuiltinsInstanceDef {
            output: true,
            pedersen: Some(PedersenInstanceDef::default()),
            range_check: Some(RangeCheckInstanceDef::default()),
            ecdsa: Some(EcdsaInstanceDef::default()),
            bitwise: Some(BitwiseInstanceDef::default()),
            ec_op: Some(EcOpInstanceDef::default()),
            ..Self::plain()
        }
    }

    pub fn dynamic(params: &CairoLayoutParams) -> (b: BuiltinsInstanceDef)
        ensures
            b == Self::spec_dynamic(*params),
    {
        BuiltinsInstanceDef {
            output: true,
            pedersen: if params.uses_pedersen_builtin {
                Some(PedersenInstanceDef::new(Some(params.pedersen_ratio)))
            } else {
                None
            },
            range_check: if params.uses_range_check_builtin {
                Some(RangeCheckInstanceDef::new(Some(params.range_check_ratio)))
            } else {
                None
            },
            ecdsa: if params.uses_ecdsa_builtin {
                Some(EcdsaInstanceDef::new(Some(params.ecdsa_ratio)))
            } else {
                None
            },
            bitwise: if params.uses_bitwise_builtin {
                Some(BitwiseInstanceDef::new(Some(params.bitwise_ratio)))
            } else {
                None
            },
            ec_op: if params.uses_ec_op_builtin {
                Some(EcOpInstanceDef::new(Some(params.ec_op_ratio)))
            } else {
                None
            },
            keccak: if params.uses_keccak_builtin {
                Some(KeccakInstanceDef::new(Some(params.keccak_ratio)))
            } else {
                None
            },
            poseidon: if params.uses_poseidon_builtin {
                Some(PoseidonInstanceDef::new(Some(params.poseidon_ratio)))
            } else {
                None
            },
            range_check96: if params.uses_range_check96_builtin {
                Some(RangeCheckInstanceDef::new(Some(params.range_check96_ratio)))
            } else {
                None
            },
            add_mod: if params.uses_add_mod_builtin {
                Some(ModInstanceDef::new(Some(params.add_mod_ratio), 1, 96))
            } else {
                None
            },
            mul_mod: if params.uses_mul_mod_builtin {
                Some(ModInstanceDef::new(Some(params.mul_mod_ratio), 1, 96))
            } else {
                None
            },
        }
    }
}

} // verus!
