//! Values of the contract ABI as far as the price oracle reads them, and the
//! decoder that turns a contract's answer into such values.

use vstd::prelude::*;

verus! {

/// A 256-bit unsigned integer, held as four 64-bit limbs, least significant first.
#[derive(Clone, Copy, Debug, PartialEq, Eq)]
pub struct U256 {
    pub limbs: [u64; 4],
}

/// Two to the power 32.
pub open spec fn pow2_32() -> nat {
    0x1_0000_0000
}

/// Two to the power 64.
pub open spec fn pow2_64() -> nat {
    0x1_0000_0000_0000_0000
}

impl U256 {
    /// The number that the limbs stand for.
    pub open spec fn value(self) -> nat {
        self.limbs[0] as nat + pow2_64() * (self.limbs[1] as nat + pow2_64() * (self.limbs[2] as nat
            + pow2_64() * (self.limbs[3] as nat)))
    }

    /// The number zero.
    pub fn zero() -> (r: U256)
        ensures
            r.value() == 0,
            r.limbs@ == seq![0u64, 0u64, 0u64, 0u64],
    {
        U256 { limbs: [0u64, 0u64, 0u64, 0u64] }
    }

    /// Builds the integer that equals `v`.
    pub fn from_u64(v: u64) -> (r: U256)
        ensures
            r.value() == v,
            r.limbs@ == seq![v, 0u64, 0u64, 0u64],
    {
        U256 { limbs: [v, 0u64, 0u64, 0u64] }
    }

    /// The low 32 bits: the value modulo 2^32. Wider values are cut, not rejected.
    pub fn low_u32(&self) -> (r: u32)
        ensures
            r as nat == self.value() % pow2_32(),
    {
        let low: u64 = self.limbs[0];
        let cut: u64 = low & 0xffff_ffffu64;
        proof {
            assert(cut == low % 0x1_0000_0000u64) by (bit_vector)
                requires
                    cut == low & 0xffff_ffffu64,
            ;
            let rest: nat = self.limbs[1] as nat + pow2_64() * (self.limbs[2] as nat + pow2_64() * (
            self.limbs[3] as nat));
            assert(self.value() == low as nat + pow2_64() * rest);
            assert((low as nat + pow2_64() * rest) % pow2_32() == (low as nat) % pow2_32())
                by (nonlinear_arith)
                requires
                    pow2_64() == pow2_32() * pow2_32(),
                    pow2_32() > 0,
            ;
        }
        cut as u32
    }

    /// The value, capped at `u64::MAX`.
    pub open spec fn spec_saturated_into_u64(self) -> u64 {
        if self.value() <= u64::MAX {
            self.value() as u64
        } else {
            u64::MAX
        }
    }

    /// The value where it fits in 64 bits, and `u64::MAX` where it does not.
    pub fn saturated_into_u64(&self) -> (r: u64)
        ensures
            r == self.spec_saturated_into_u64(),
    {
        if self.limbs[1] == 0 && self.limbs[2] == 0 && self.limbs[3] == 0 {
            self.limbs[0]
        } else {
            proof {
                let a: nat = self.limbs[1] as nat;
                let b: nat = self.limbs[2] as nat;
                let c: nat = self.limbs[3] as nat;
                assert(pow2_64() * (a + pow2_64() * (b + pow2_64() * c)) >= pow2_64())
                    by (nonlinear_arith)
                    requires
                        a > 0 || b > 0 || c > 0,
                        pow2_64() > 0,
                ;
            }
            u64::MAX
        }
    }
}

/// A 20-byte address of an account or a contract.
#[derive(Clone, Copy, Debug, PartialEq, Eq)]
pub struct H160 {
    pub bytes: [u8; 20],
}

impl H160 {
    /// The address made of twenty zero bytes.
    pub fn zero() -> (r: H160)
        ensures
            r.bytes@ == Seq::new(20, |i: int| 0u8),
    {
        let r = H160 { bytes: [0u8; 20] };
        assert(r.bytes@ =~= Seq::new(20, |i: int| 0u8));
        r
    }
}

/// The type of one field of a contract's answer.
#[derive(Clone, Copy, Debug, PartialEq, Eq)]
pub enum ParamKind {
    /// A 20-byte account address.
    Address,
    /// A byte string of any length.
    Bytes,
    /// A signed integer of the given width in bits.
    Int(usize),
    /// An unsigned integer of the given width in bits.
    Uint(usize),
    /// A truth value.
    Bool,
    /// A text.
    String,
    /// A byte string of the given length.
    FixedBytes(usize),
}

/// One decoded field: its kind, and its value where it is a number or a truth value.
#[derive(Clone, Copy, Debug, PartialEq, Eq)]
pub enum Field {
    Address,
    FixedBytes,
    Bytes,
    Int(U256),
    Uint(U256),
    Bool(bool),
    String,
    FixedArray,
    Array,
    Tuple,
}

impl Field {
    /// The value of an integer field, signed or unsigned; `None` for a field of
    /// any other kind.
    pub open spec fn spec_into_integer(self) -> Option<U256> {
        match self {
            Field::Int(v) => Some(v),
            Field::Uint(v) => Some(v),
            _ => None,
        }
    }

    /// The value of an integer field, signed or unsigned, as the 256 bits that
    /// encode it; `None` for a field of any other kind.
    pub fn into_integer(self) -> (r: Option<U256>)
        ensures
            r == self.spec_into_integer(),
    {
        match self {
            Field::Int(v) => Some(v),
            Field::Uint(v) => Some(v),
            _ => None,
        }
    }
}

/// `ethabi::Error`, the decoder's error. Nothing is read from it.
#[verifier::external_type_specification]
#[verifier::external_body]
pub struct ExDecodeFailure(ethabi::Error);

/// `ethabi::ParamType`, the decoder's own field type. It is only built and
/// handed to the decoder.
#[verifier::external_type_specification]
#[verifier::external_body]
pub struct ExForeignParamType(ethabi::ParamType);

/// `ethabi::Token`, the decoder's own decoded field. It is only taken from the
/// decoder and read into a `Field`.
#[verifier::external_type_specification]
#[verifier::external_body]
pub struct ExForeignToken(ethabi::Token);

/// What `ethabi::decode` makes of `data` under `schema`: the decoded fields, one
/// for each entry of the schema, or `None` where it reports an error.
pub uninterp spec fn abi_decoded(schema: Seq<ParamKind>, data: Seq<u8>) -> Option<Seq<Field>>;

/// The highest sum that the decoder forms from what it reads in the answer: an
/// offset and a length, each below 2^32, and the 32 bytes of the length word.
pub open spec fn max_dynamic_end() -> nat {
    0x2_0000_001e
}

/// Whether the decoder's sums of offsets and lengths stay within `usize` for
/// this schema. The decoder places field `i` at byte `32 * i`; a byte string or
/// a text lies where the answer says, at an offset below 2^32.
pub open spec fn schema_fits(schema: Seq<ParamKind>) -> bool {
    &&& 32 * schema.len() <= usize::MAX
    &&& forall|i: int|
        0 <= i < schema.len() ==> match #[trigger] schema[i] {
            ParamKind::FixedBytes(len) => 32 * i + len <= usize::MAX,
            ParamKind::Bytes => max_dynamic_end() <= usize::MAX,
            ParamKind::String => max_dynamic_end() <= usize::MAX,
            _ => true,
        }
}

/// What decoding `data` under `schema` gives: nothing where the schema does not
/// fit, since the decoder's sums are then not to be had.
pub open spec fn decoded(schema: Seq<ParamKind>, data: Seq<u8>) -> Option<Seq<Field>> {
    if schema_fits(schema) {
        abi_decoded(schema, data)
    } else {
        None
    }
}

/// Writes a field type as the `ethabi::ParamType` of the same name and size.
/// Nothing is claimed of the result.
#[verifier::external_body]
fn foreign_param_type(kind: &ParamKind) -> ethabi::ParamType {
    match *kind {
        ParamKind::Address => ethabi::ParamType::Address,
        ParamKind::Bytes => ethabi::ParamType::Bytes,
        ParamKind::Int(bits) => ethabi::ParamType::Int(bits),
        ParamKind::Uint(bits) => ethabi::ParamType::Uint(bits),
        ParamKind::Bool => ethabi::ParamType::Bool,
        ParamKind::String => ethabi::ParamType::String,
        ParamKind::FixedBytes(len) => ethabi::ParamType::FixedBytes(len),
    }
}

/// Reads an `ethabi::Token`: keeps its kind, the four limbs of a number and a
/// truth value, and drops every other payload. Nothing is claimed of the result.
#[verifier::external_body]
fn token_of_foreign(token: ethabi::Token) -> Field {
    match token {
        ethabi::Token::Address(_) => Field::Address,
        ethabi::Token::FixedBytes(_) => Field::FixedBytes,
        ethabi::Token::Bytes(_) => Field::Bytes,
        ethabi::Token::Int(v) => Field::Int(U256 { limbs: v.0 }),
        ethabi::Token::Uint(v) => Field::Uint(U256 { limbs: v.0 }),
        ethabi::Token::Bool(b) => Field::Bool(b),
        ethabi::Token::String(_) => Field::String,
        ethabi::Token::FixedArray(_) => Field::FixedArray,
        ethabi::Token::Array(_) => Field::Array,
        ethabi::Token::Tuple(_) => Field::Tuple,
    }
}

/// Calls `ethabi::decode` on the schema and the bytes. The contract names the
/// outcome `abi_decoded` and claims only that it depends on the schema and the
/// bytes alone; the error, where there is one, is handed on as it came. The
/// precondition keeps the sums that the decoder forms inside `usize`.
#[verifier::external_body]
fn abi_decode(schema: &[ParamKind], data: &[u8]) -> (r: Result<Vec<Field>, ethabi::Error>)
    requires
        schema_fits(schema@),
    ensures
        match r {
            Ok(tokens) => abi_decoded(schema@, data@) == Some(tokens@),
            Err(_) => abi_decoded(schema@, data@) is None,
        },
{
    let types: Vec<ethabi::ParamType> = schema.iter().map(foreign_param_type).collect();
    let tokens = ethabi::decode(&types, data)?;
    Ok(tokens.into_iter().map(token_of_foreign).collect())
}

/// Tests `schema_fits` on a schema.
fn check_schema_fits(schema: &[ParamKind]) -> (r: bool)
    ensures
        r == schema_fits(schema@),
{
    let n: usize = schema.len();
    if n > usize::MAX / 32 {
        return false;
    }
    let mut i: usize = 0;
    while i < n
        invariant
            n == schema.len(),
            32 * n <= usize::MAX,
            0 <= i <= n,
            forall|j: int|
                0 <= j < i ==> match #[trigger] schema@[j] {
                    ParamKind::FixedBytes(len) => 32 * j + len <= usize::MAX,
                    ParamKind::Bytes => max_dynamic_end() <= usize::MAX,
                    ParamKind::String => max_dynamic_end() <= usize::MAX,
                    _ => true,
                },
        decreases n - i,
    {
        match schema[i] {
            ParamKind::FixedBytes(len) => {
                if len > usize::MAX - 32 * i {
                    return false;
                }
            },
            ParamKind::Bytes => {
                if (usize::MAX as u64) < 0x2_0000_001eu64 {
                    return false;
                }
            },
            ParamKind::String => {
                if (usize::MAX as u64) < 0x2_0000_001eu64 {
                    return false;
                }
            },
            _ => {},
        }
        i += 1;
    }
    true
}

/// Decodes a contract's answer under a schema: the fields in the schema's order,
/// or `None` where the bytes do not match the schema.
pub fn decode(schema: &[ParamKind], data: &[u8]) -> (r: Option<Vec<Field>>)
    ensures
        match r {
            Some(tokens) => decoded(schema@, data@) == Some(tokens@),
            None => decoded(schema@, data@) is None,
        },
{
    if !check_schema_fits(schema) {
        return None;
    }
    match abi_decode(schema, data) {
        Ok(tokens) => Some(tokens),
        Err(_) => None,
    }
}

} // verus!
