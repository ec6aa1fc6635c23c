//! The algorithm catalog: a total mapping from an operator-facing algorithm
//! label to a concrete algorithm/key-usage profile. Resolution never fails;
//! an unrecognized label falls back to a defined default so that a bad label
//! still lets the operator attempt an operation and observe a provider-level
//! error if the profile is genuinely unusable.

use vstd::prelude::*;

verus! {

/// The family of asymmetric algorithms the provider supports.
#[derive(Clone, Copy, PartialEq, Eq, Structural, Debug)]
pub enum AlgorithmFamily {
    Rsa,
    Ecc,
}

/// The key-usage capability set requested for a key. Every operation in this
/// system asks for the same fixed capability: signing plus encryption.
#[derive(Clone, Copy, PartialEq, Eq, Structural, Debug)]
pub enum KeyUsageIntent {
    SignAndEncrypt,
}

/// A resolved algorithm profile: the family, the key size (RSA modulus bits)
/// or curve size (ECC), and the usage intent. Immutable once constructed;
/// created fresh per operation from a label.
#[derive(Clone, Copy, PartialEq, Eq, Structural, Debug)]
pub struct AlgorithmProfile {
    pub family: AlgorithmFamily,
    pub strength: u32,
    pub usage: KeyUsageIntent,
}

/// An RSA profile with the given modulus size in bits.
pub open spec fn rsa_profile(bits: u32) -> AlgorithmProfile {
    AlgorithmProfile {
        family: AlgorithmFamily::Rsa,
        strength: bits,
        usage: KeyUsageIntent::SignAndEncrypt,
    }
}

/// An ECC profile over a curve of the given size in bits.
pub open spec fn ecc_profile(curve_bits: u32) -> AlgorithmProfile {
    AlgorithmProfile {
        family: AlgorithmFamily::Ecc,
        strength: curve_bits,
        usage: KeyUsageIntent::SignAndEncrypt,
    }
}

/// The fallback profile for unrecognized labels: RSA with the smallest
/// supported key size.
pub open spec fn default_profile() -> AlgorithmProfile {
    rsa_profile(1024)
}

/// The profiles that `resolve` can produce.
pub open spec fn profile_wf(p: AlgorithmProfile) -> bool {
    ||| p == rsa_profile(1024)
    ||| p == rsa_profile(2048)
    ||| p == ecc_profile(256)
    ||| p == ecc_profile(384)
}

/// The profile a given label resolves to.
pub open spec fn spec_resolve(label: Seq<char>) -> AlgorithmProfile {
    if label == "RSA1024"@ {
        rsa_profile(1024)
    } else if label == "RSA2048"@ {
        rsa_profile(2048)
    } else if label == "ECC256"@ {
        ecc_profile(256)
    } else if label == "ECC384"@ {
        ecc_profile(384)
    } else {
        default_profile()
    }
}

/// Equality of two text slices by their character content.
fn text_eq(a: &str, b: &str) -> (r: bool)
    ensures
        r == (a@ == b@),
{
    let x: String = a.to_owned();
    let y: String = b.to_owned();
    x == y
}

/// Resolves a label into its profile. Total: every input yields a profile,
/// unrecognized labels yield the RSA-1024 default.
pub fn resolve(label: &str) -> (p: AlgorithmProfile)
    ensures
        p == spec_resolve(label@),
        profile_wf(p),
{
    if text_eq(label, "RSA1024") {
        AlgorithmProfile {
            family: AlgorithmFamily::Rsa,
            strength: 1024,
            usage: KeyUsageIntent::SignAndEncrypt,
        }
    } else if text_eq(label, "RSA2048") {
        AlgorithmProfile {
            family: AlgorithmFamily::Rsa,
            strength: 2048,
            usage: KeyUsageIntent::SignAndEncrypt,
        }
    } else if text_eq(label, "ECC256") {
        AlgorithmProfile {
            family: AlgorithmFamily::Ecc,
            strength: 256,
            usage: KeyUsageIntent::SignAndEncrypt,
        }
    } else if text_eq(label, "ECC384") {
        AlgorithmProfile {
            family: AlgorithmFamily::Ecc,
            strength: 384,
            usage: KeyUsageIntent::SignAndEncrypt,
        }
    } else {
        AlgorithmProfile {
            family: AlgorithmFamily::Rsa,
            strength: 1024,
            usage: KeyUsageIntent::SignAndEncrypt,
        }
    }
}

} // verus!
