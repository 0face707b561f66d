//! Small values that the subsystems pass around.

use crate::common::encoding::{
    base64_decode, base64_encode, encodable_len, encode_standard, has_encoded_shape,
};
use crate::rotation::policy::RotationPolicy;
use vstd::prelude::*;
use vstd::std_specs::convert::FromSpecImpl;
use vstd::string::*;

verus! {

/// Bytes that are shown as base64 text. The field holds the raw bytes.
#[derive(Debug, Clone, PartialEq, Eq)]
pub struct Base64String(pub Vec<u8>);

impl View for Base64String {
    type V = Seq<u8>;

    open spec fn view(&self) -> Seq<u8> {
        self.0@
    }
}

impl From<Vec<u8>> for Base64String {
    fn from(bytes: Vec<u8>) -> (out: Base64String) {
        Base64String(bytes)
    }
}

impl FromSpecImpl<Vec<u8>> for Base64String {
    open spec fn obeys_from_spec() -> bool {
        true
    }

    open spec fn from_spec(bytes: Vec<u8>) -> Base64String {
        Base64String(bytes)
    }
}

impl Base64String {
    /// The raw bytes.
    pub fn as_bytes(&self) -> (bytes: &[u8])
        ensures
            bytes@ == self@,
    {
        self.0.as_slice()
    }

    /// The bytes as base64 text, which decodes to the same bytes again.
    pub fn to_string(&self) -> (text: String)
        requires
            encodable_len(self@.len()),
        ensures
            text@ == base64_encode(self@),
            base64_decode(text@) == Some(self@),
            has_encoded_shape(text@, self@.len()),
    {
        encode_standard(self.0.as_slice())
    }
}

/// The associated data that an optional argument stands for: absent means
/// empty.
pub open spec fn associated(additional_data: Option<&[u8]>) -> Seq<u8> {
    match additional_data {
        Some(data) => data@,
        None => Seq::empty(),
    }
}

/// The associated data that an optional argument stands for, with `empty`
/// to borrow from where it is absent.
pub fn associated_or<'a>(additional_data: Option<&'a [u8]>, empty: &'a [u8]) -> (aad: &'a [u8])
    requires
        empty@.len() == 0,
    ensures
        aad@ == associated(additional_data),
{
    match additional_data {
        Some(data) => data,
        None => empty,
    }
}

/// Whether two byte strings are equal, found without leaving the loop early:
/// the time taken depends on the lengths alone.
pub fn constant_time_eq(a: &[u8], b: &[u8]) -> (same: bool)
    ensures
        same == (a@ == b@),
{
    if a.len() != b.len() {
        return false;
    }
    let mut diff: u8 = 0;
    let mut i: usize = 0;
    while i < a.len()
        invariant
            i <= a.len(),
            a.len() == b.len(),
            (diff == 0) == (forall|j: int| 0 <= j < i ==> a@[j] == b@[j]),
        decreases a.len() - i,
    {
        let x: u8 = a[i];
        let y: u8 = b[i];
        let ghost before = diff;
        diff = diff | (x ^ y);
        proof {
            assert((before | (x ^ y)) == 0 <==> (before == 0 && x == y)) by (bit_vector);
            if diff != 0 && before == 0 {
                assert(a@[i as int] != b@[i as int]);
            }
        }
        i += 1;
    }
    proof {
        if diff == 0 {
            assert(a@ =~= b@);
        }
    }
    diff == 0
}

/// Overwrites every byte of `buffer` with zero. Secrets are wiped with it
/// before their buffer is let go.
pub fn zeroize(buffer: &mut Vec<u8>)
    ensures
        final(buffer)@.len() == old(buffer)@.len(),
        forall|i: int| 0 <= i < final(buffer)@.len() ==> final(buffer)@[i] == 0,
{
    let mut i: usize = 0;
    while i < buffer.len()
        invariant
            i <= buffer@.len(),
            buffer@.len() == old(buffer)@.len(),
            forall|j: int| 0 <= j < i ==> buffer@[j] == 0,
        decreases buffer@.len() - i,
    {
        buffer[i] = 0;
        i += 1;
    }
}

/// What can be configured: parameters of key generation and the rotation
/// thresholds. There is nothing that must be given: an option that is not
/// set has its default.
#[derive(Debug, Clone, Copy, PartialEq, Eq)]
pub struct CryptoConfig {
    /// Size of the modulus of a classical key, in bits. Default 2048.
    pub rsa_key_bits: u64,
    /// Parameter set of a post-quantum key. Default 768.
    pub kyber_parameter_set: u64,
    /// When keys are rotated and how long retired ones are kept. Default:
    /// the default of `RotationPolicy`.
    pub rotation: RotationPolicy,
}

impl Default for CryptoConfig {
    fn default() -> (config: CryptoConfig)
        ensures
            config == CryptoConfig::default_spec(),
    {
        CryptoConfig {
            rsa_key_bits: 2048,
            kyber_parameter_set: 768,
            rotation: RotationPolicy { max_age: Some(7776000), max_uses: None, retention: 31536000 },
        }
    }
}

impl CryptoConfig {
    /// The configuration in which every option has its default.
    pub open spec fn default_spec() -> CryptoConfig {
        CryptoConfig {
            rsa_key_bits: 2048,
            kyber_parameter_set: 768,
            rotation: RotationPolicy {
                max_age: Some(7776000u64),
                max_uses: None,
                retention: 31536000,
            },
        }
    }

    /// The configuration with the option `name` set to `value`. The names
    /// are `rsa_key_bits`, `kyber_parameter_set`, `max_key_age`,
    /// `max_key_uses` and `key_retention`; under any other name nothing
    /// changes.
    pub open spec fn with_option_spec(self, name: Seq<char>, value: u64) -> CryptoConfig {
        if name == "rsa_key_bits"@ {
            CryptoConfig {
                rsa_key_bits: value,
                kyber_parameter_set: self.kyber_parameter_set,
                rotation: self.rotation,
            }
        } else if name == "kyber_parameter_set"@ {
            CryptoConfig {
                rsa_key_bits: self.rsa_key_bits,
                kyber_parameter_set: value,
                rotation: self.rotation,
            }
        } else if name == "max_key_age"@ {
            CryptoConfig {
                rsa_key_bits: self.rsa_key_bits,
                kyber_parameter_set: self.kyber_parameter_set,
                rotation: RotationPolicy {
                    max_age: Some(value),
                    max_uses: self.rotation.max_uses,
                    retention: self.rotation.retention,
                },
            }
        } else if name == "max_key_uses"@ {
            CryptoConfig {
                rsa_key_bits: self.rsa_key_bits,
                kyber_parameter_set: self.kyber_parameter_set,
                rotation: RotationPolicy {
                    max_age: self.rotation.max_age,
                    max_uses: Some(value),
                    retention: self.rotation.retention,
                },
            }
        } else if name == "key_retention"@ {
            CryptoConfig {
                rsa_key_bits: self.rsa_key_bits,
                kyber_parameter_set: self.kyber_parameter_set,
                rotation: RotationPolicy {
                    max_age: self.rotation.max_age,
                    max_uses: self.rotation.max_uses,
                    retention: value,
                },
            }
        } else {
            self
        }
    }

    /// The configuration after the first `count` of `options` have been set,
    /// in their order, starting from the defaults.
    pub open spec fn from_options_spec(options: Seq<(String, u64)>, count: nat) -> CryptoConfig
        decreases count,
    {
        if count == 0 {
            Self::default_spec()
        } else {
            Self::from_options_spec(options, (count - 1) as nat).with_option_spec(
                options[count - 1].0@,
                options[count - 1].1,
            )
        }
    }

    /// Sets one option by its name. An option that is not known is ignored.
    pub fn with_option(self, name: &str, value: u64) -> (config: CryptoConfig)
        ensures
            config == self.with_option_spec(name@, value),
    {
        let name = String::from_str(name);
        let mut config = self;
        if name == String::from_str("rsa_key_bits") {
            config.rsa_key_bits = value;
        } else if name == String::from_str("kyber_parameter_set") {
            config.kyber_parameter_set = value;
        } else if name == String::from_str("max_key_age") {
            config.rotation.max_age = Some(value);
        } else if name == String::from_str("max_key_uses") {
            config.rotation.max_uses = Some(value);
        } else if name == String::from_str("key_retention") {
            config.rotation.retention = value;
        }
        config
    }

    /// The configuration that a list of options gives: the defaults, with
    /// each option of the list set in turn. Where a name comes twice, the
    /// later value stands.
    pub fn from_options(options: &[(String, u64)]) -> (config: CryptoConfig)
        ensures
            config == Self::from_options_spec(options@, options@.len()),
    {
        let mut config = CryptoConfig::default();
        let mut i: usize = 0;
        while i < options.len()
            invariant
                i <= options@.len(),
                config == Self::from_options_spec(options@, i as nat),
            decreases options@.len() - i,
        {
            config = config.with_option(options[i].0.as_str(), options[i].1);
            i += 1;
        }
        config
    }
}

} // verus!

verus! {

/// The cryptographic system, and the half of a key pair, that key material
/// belongs to.
#[derive(Debug, Clone, Copy, PartialEq, Eq, Structural)]
pub enum SystemTag {
    /// Private key of the classical public-key scheme.
    ClassicalPrivate,
    /// Public key of the classical public-key scheme.
    ClassicalPublic,
    /// Private key of the post-quantum key-encapsulation scheme.
    PostQuantumPrivate,
    /// Public key of the post-quantum key-encapsulation scheme.
    PostQuantumPublic,
    /// Keys of both schemes, bundled for the hybrid system.
    HybridBundle,
    /// Key of the symmetric cipher.
    Symmetric,
}

impl SystemTag {
    /// The byte that stands for the tag wherever it is written down.
    pub open spec fn code_spec(self) -> u8 {
        match self {
            SystemTag::ClassicalPrivate => 1,
            SystemTag::ClassicalPublic => 2,
            SystemTag::PostQuantumPrivate => 3,
            SystemTag::PostQuantumPublic => 4,
            SystemTag::HybridBundle => 5,
            SystemTag::Symmetric => 6,
        }
    }

    /// The tag that a byte stands for, if any.
    pub open spec fn from_code_spec(code: u8) -> Option<SystemTag> {
        if code == 1 {
            Some(SystemTag::ClassicalPrivate)
        } else if code == 2 {
            Some(SystemTag::ClassicalPublic)
        } else if code == 3 {
            Some(SystemTag::PostQuantumPrivate)
        } else if code == 4 {
            Some(SystemTag::PostQuantumPublic)
        } else if code == 5 {
            Some(SystemTag::HybridBundle)
        } else if code == 6 {
            Some(SystemTag::Symmetric)
        } else {
            None
        }
    }

    /// The byte that stands for the tag.
    pub fn code(self) -> (code: u8)
        ensures
            code == self.code_spec(),
            Self::from_code_spec(code) == Some(self),
    {
        match self {
            SystemTag::ClassicalPrivate => 1,
            SystemTag::ClassicalPublic => 2,
            SystemTag::PostQuantumPrivate => 3,
            SystemTag::PostQuantumPublic => 4,
            SystemTag::HybridBundle => 5,
            SystemTag::Symmetric => 6,
        }
    }

    /// The tag that a byte stands for; `None` for a byte that stands for
    /// none.
    pub fn from_code(code: u8) -> (tag: Option<SystemTag>)
        ensures
            tag == Self::from_code_spec(code),
            tag matches Some(t) ==> t.code_spec() == code,
    {
        if code == 1 {
            Some(SystemTag::ClassicalPrivate)
        } else if code == 2 {
            Some(SystemTag::ClassicalPublic)
        } else if code == 3 {
            Some(SystemTag::PostQuantumPrivate)
        } else if code == 4 {
            Some(SystemTag::PostQuantumPublic)
        } else if code == 5 {
            Some(SystemTag::HybridBundle)
        } else if code == 6 {
            Some(SystemTag::Symmetric)
        } else {
            None
        }
    }
}

} // verus!
