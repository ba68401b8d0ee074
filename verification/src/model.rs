//! Model variants and the deterministic artifact filename each one maps to,
//! plus the plain memory-statistics value handed out by the platform probe.

use vstd::prelude::*;

verus! {

/// Size/quality tier of the speech model; each variant maps to one canonical
/// artifact filename.
#[derive(Clone, Copy, Debug, PartialEq, Eq, Structural, Hash)]
pub enum ModelVariant {
    Tiny,
    Base,
    Small,
    Medium,
    Large,
}

/// The canonical artifact filename of a variant, as a sequence of characters.
pub open spec fn filename_of(v: ModelVariant) -> Seq<char> {
    match v {
        ModelVariant::Tiny => "ggml-tiny.bin"@,
        ModelVariant::Base => "ggml-base.bin"@,
        ModelVariant::Small => "ggml-small.bin"@,
        ModelVariant::Medium => "ggml-medium.bin"@,
        ModelVariant::Large => "ggml-large-v3.bin"@,
    }
}

impl ModelVariant {
    /// The canonical filename of the model artifact for this variant.
    pub fn to_filename(&self) -> (r: String)
        ensures
            r@ == filename_of(*self),
    {
        match self {
            ModelVariant::Tiny => String::from_str("ggml-tiny.bin"),
            ModelVariant::Base => String::from_str("ggml-base.bin"),
            ModelVariant::Small => String::from_str("ggml-small.bin"),
            ModelVariant::Medium => String::from_str("ggml-medium.bin"),
            ModelVariant::Large => String::from_str("ggml-large-v3.bin"),
        }
    }
}

/// Memory statistics in bytes, as reported by a platform probe.
#[derive(Clone, Copy, Debug, PartialEq, Eq, Structural)]
pub struct SystemMemory {
    pub total: u64,
    pub available: u64,
    pub used: u64,
    pub free: u64,
}

impl SystemMemory {
    /// Builds the statistics value from raw platform readings; `used` is the
    /// part of `total` not currently available, never negative.
    pub fn from_readings(total: u64, available: u64, free: u64) -> (r: SystemMemory)
        ensures
            r.total == total,
            r.available == available,
            r.free == free,
            r.used == if available <= total { total - available } else { 0int },
    {
        SystemMemory {
            total,
            available,
            used: if available <= total { total - available } else { 0 },
            free,
        }
    }
}

} // verus!
