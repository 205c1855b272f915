use vstd::prelude::*;

verus! {

/// How often the Pedersen builtin appears: once every `ratio` steps.
#[derive(Clone, Copy, Debug, PartialEq, Eq, Structural)]
pub struct PedersenInstanceDef {
    pub ratio: Option<u32>,
}

/// How often a range-check builtin appears.
#[derive(Clone, Copy, Debug, PartialEq, Eq, Structural)]
pub struct RangeCheckInstanceDef {
    pub ratio: Option<u32>,
}

/// How often the ECDSA builtin appears.
#[derive(Clone, Copy, Debug, PartialEq, Eq, Structural)]
pub struct EcdsaInstanceDef {
    pub ratio: Option<u32>,
}

/// How often the bitwise builtin appears.
#[derive(Clone, Copy, Debug, PartialEq, Eq, Structural)]
pub struct BitwiseInstanceDef {
    pub ratio: Option<u32>,
}

/// How often the EC-op builtin appears.
#[derive(Clone, Copy, Debug, PartialEq, Eq, Structural)]
pub struct EcOpInstanceDef {
    pub ratio: Option<u32>,
}

/// How often the Keccak builtin appears.
#[derive(Clone, Copy, Debug, PartialEq, Eq, Structural)]
pub struct KeccakInstanceDef {
    pub ratio: Option<u32>,
}

/// How often the Poseidon builtin appears.
#[derive(Clone, Copy, Debug, PartialEq, Eq, Structural)]
pub struct PoseidonInstanceDef {
    pub ratio: Option<u32>,
}

/// How often a modular-arithmetic builtin appears, and its word and batch sizes.
#[derive(Clone, Copy, Debug, PartialEq, Eq, Structural)]
pub struct ModInstanceDef {
    pub ratio: Option<u32>,
    pub word_bit_len: u32,
    pub batch_size: usize,
}

/// The diluted pool: units per step, spacing and number of bits.
#[derive(Clone, Copy, Debug, PartialEq, Eq, Structural)]
pub struct DilutedPoolInstanceDef {
    pub units_per_step: u32,
    pub spacing: u32,
    pub n_bits: u32,
}

impl PedersenInstanceDef {
    pub fn new(ratio: Option<u32>) -> (d: Self)
        ensures
            d.ratio == ratio,
    {
        PedersenInstanceDef { ratio }
    }

}

impl RangeCheckInstanceDef {
    pub fn new(ratio: Option<u32>) -> (d: Self)
        ensures
            d.ratio == ratio,
    {
        RangeCheckInstanceDef { ratio }
    }

}

impl EcdsaInstanceDef {
    pub fn new(ratio: Option<u32>) -> (d: Self)
        ensures
            d.ratio == ratio,
    {
        EcdsaInstanceDef { ratio }
    }

}

impl BitwiseInstanceDef {
    pub fn new(ratio: Option<u32>) -> (d: Self)
        ensures
            d.ratio == ratio,
    {
        BitwiseInstanceDef { ratio }
    }

}

impl EcOpInstanceDef {
    pub fn new(ratio: Option<u32>) -> (d: Self)
        ensures
            d.ratio == ratio,
    {
        EcOpInstanceDef { ratio }
    }

}

impl KeccakInstanceDef {
    pub fn new(ratio: Option<u32>) -> (d: Self)
        ensures
            d.ratio == ratio,
    {
        KeccakInstanceDef { ratio }
    }
}

impl PoseidonInstanceDef {
    pub fn new(ratio: Option<u32>) -> (d: Self)
        ensures
            d.ratio == ratio,
    {
        PoseidonInstanceDef { ratio }
    }
}

impl ModInstanceDef {
    pub fn new(ratio: Option<u32>, word_bit_len: u32, batch_size: usize) -> (d: Self)
        ensures
            d.ratio == ratio,
            d.word_bit_len == word_bit_len,
            d.batch_size == batch_size,
    {
        ModInstanceDef { ratio, word_bit_len, batch_size }
    }
}

impl DilutedPoolInstanceDef {
    pub fn new(units_per_step: u32, spacing: u32, n_bits: u32) -> (d: Self)
        ensures
            d.units_per_step == units_per_step,
            d.spacing == spacing,
            d.n_bits == n_bits,
    {
        DilutedPoolInstanceDef { units_per_step, spacing, n_bits }
    }

    /// The default pool: 16 units per step, spacing 4, 16 bits.
    pub open spec fn spec_default() -> DilutedPoolInstanceDef {
        DilutedPoolInstanceDef { units_per_step: 16, spacing: 4, n_bits: 16 }
    }
}

impl Default for PedersenInstanceDef {
    /// The default ratio, 8.
    fn default() -> (d: Self)
        ensures
            d.ratio == Some(8u32),
    {
        PedersenInstanceDef { ratio: Some(8) }
    }
}

impl Default for RangeCheckInstanceDef {
    /// The default ratio, 8.
    fn default() -> (d: Self)
        ensures
            d.ratio == Some(8u32),
    {
        RangeCheckInstanceDef { ratio: Some(8) }
    }
}

impl Default for EcdsaInstanceDef {
    /// The default ratio, 512.
    fn default() -> (d: Self)
        ensures
            d.ratio == Some(512u32),
    {
        EcdsaInstanceDef { ratio: Some(512) }
    }
}

impl Default for BitwiseInstanceDef {
    /// The default ratio, 256.
    fn default() -> (d: Self)
        ensures
            d.ratio == Some(256u32),
    {
        BitwiseInstanceDef { ratio: Some(256) }
    }
}

impl Default for EcOpInstanceDef {
    /// The default ratio, 256.
    fn default() -> (d: Self)
        ensures
            d.ratio == Some(256u32),
    {
        EcOpInstanceDef { ratio: Some(256) }
    }
}

impl Default for KeccakInstanceDef {
    /// The default ratio, 2048.
    fn default() -> (d: Self)
        ensures
            d.ratio == Some(2048u32),
    {
        KeccakInstanceDef { ratio: Some(2048) }
    }
}

impl Default for PoseidonInstanceDef {
    /// The default ratio, 32.
    fn default() -> (d: Self)
        ensures
            d.ratio == Some(32u32),
    {
        PoseidonInstanceDef { ratio: Some(32) }
    }
}

impl Default for DilutedPoolInstanceDef {
    /// The default pool: 16 units per step, spacing 4, 16 bits.
    fn default() -> (d: Self)
        ensures
            d == Self::spec_default(),
    {
        DilutedPoolInstanceDef { units_per_step: 16, spacing: 4, n_bits: 16 }
    }
}

} // verus!
