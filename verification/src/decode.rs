//! Decoding a Schema from its canonical byte encoding.
//!
//! The decoder parses the bytes, rebuilds the entities through the same
//! validating constructors used for authoring, and then re-encodes the
//! result: it returns a Schema only when the input is exactly that
//! Schema's canonical encoding.  Any stored content id that does not match
//! the recomputed one therefore makes decoding fail, as does a trailing or
//! missing byte, a malformed table or an invariant violation.

use vstd::prelude::*;
use crate::api::{api_inner_wf, Api, ApiInner, Adaptor, AppendApi, Arithm, CallState,
    DestructibleApi};
use crate::codex::{Codex, CoreConfig, LibSite};
use crate::encode::bytes_eq;
use crate::schema::{assemble_ok, enc_schema, Schema, ScriptLib};
use crate::uint256::U256;

verus! {

/// A failure while decoding a Schema.
#[derive(Clone, Copy, PartialEq, Eq, Structural, Debug)]
pub enum DecodeError {
    /// The input ended before the structure was complete.
    Truncated,
    /// A tag byte holds a value outside its variant set.
    BadTag,
    /// A character is not a Unicode scalar value.
    BadChar,
    /// A length does not fit the platform.
    BadLength,
    /// The parsed parts violate a construction or assembly invariant.
    InvalidStructure,
    /// The input is not the canonical encoding of the parsed Schema: a
    /// stored id does not match the recomputed one, or bytes differ from
    /// the canonical form.
    NotCanonical,
}

/// Relies on char::from_u32: it returns `Some` exactly on Unicode scalar
/// values (below the surrogate range, or between it and 0x10FFFF), and the
/// returned character has the given scalar value.
#[verifier::external_body]
fn char_from_u32(x: u32) -> (r: Option<char>)
    ensures
        r is Some <==> (x < 0xD800 || (0xE000 <= x && x <= 0x10FFFF)),
        r matches Some(c) ==> c as u32 == x,
{
    char::from_u32(x)
}

/// Relies on String's FromIterator<char>: collecting characters yields the
/// string of exactly those characters, in order.
#[verifier::external_body]
fn string_from_chars(v: Vec<char>) -> (r: String)
    ensures
        r@ == v@,
{
    v.into_iter().collect()
}

/// Reads one byte.
fn take_u8(bytes: &Vec<u8>, pos: &mut usize) -> (r: Result<u8, DecodeError>) {
    if *pos < bytes.len() {
        let b: u8 = bytes[*pos];
        *pos = *pos + 1;
        Result::Ok(b)
    } else {
        Result::Err(DecodeError::Truncated)
    }
}

/// Reads a 16-bit value, little-endian.
fn take_u16(bytes: &Vec<u8>, pos: &mut usize) -> (r: Result<u16, DecodeError>) {
    let b0: u8 = take_u8(bytes, pos)?;
    let b1: u8 = take_u8(bytes, pos)?;
    Result::Ok((b0 as u16) | ((b1 as u16) << 8))
}

/// Reads a 32-bit value, little-endian.
fn take_u32(bytes: &Vec<u8>, pos: &mut usize) -> (r: Result<u32, DecodeError>) {
    let lo: u16 = take_u16(bytes, pos)?;
    let hi: u16 = take_u16(bytes, pos)?;
    Result::Ok((lo as u32) | ((hi as u32) << 16))
}

/// Reads a 64-bit value, little-endian.
fn take_u64(bytes: &Vec<u8>, pos: &mut usize) -> (r: Result<u64, DecodeError>) {
    let lo: u32 = take_u32(bytes, pos)?;
    let hi: u32 = take_u32(bytes, pos)?;
    Result::Ok((lo as u64) | ((hi as u64) << 32))
}

/// Reads a 128-bit value, little-endian.
fn take_u128(bytes: &Vec<u8>, pos: &mut usize) -> (r: Result<u128, DecodeError>) {
    let lo: u64 = take_u64(bytes, pos)?;
    let hi: u64 = take_u64(bytes, pos)?;
    Result::Ok((lo as u128) | ((hi as u128) << 64))
}

/// Reads a 256-bit value: lower half first.
fn take_u256(bytes: &Vec<u8>, pos: &mut usize) -> (r: Result<U256, DecodeError>) {
    let lo: u128 = take_u128(bytes, pos)?;
    let hi: u128 = take_u128(bytes, pos)?;
    Result::Ok(U256 { hi, lo })
}

/// Reads a boolean byte.
fn take_bool(bytes: &Vec<u8>, pos: &mut usize) -> (r: Result<bool, DecodeError>) {
    let b: u8 = take_u8(bytes, pos)?;
    if b == 0 {
        Result::Ok(false)
    } else if b == 1 {
        Result::Ok(true)
    } else {
        Result::Err(DecodeError::BadTag)
    }
}

/// Reads a length and checks that it fits the platform.
fn take_len(bytes: &Vec<u8>, pos: &mut usize) -> (r: Result<usize, DecodeError>) {
    let n: u64 = take_u64(bytes, pos)?;
    if n > (usize::MAX as u64) {
        Result::Err(DecodeError::BadLength)
    } else {
        Result::Ok(n as usize)
    }
}

/// Reads a string: character count, then each character.
fn take_string(bytes: &Vec<u8>, pos: &mut usize) -> (r: Result<String, DecodeError>) {
    let n: usize = take_len(bytes, pos)?;
    let mut chars: Vec<char> = Vec::new();
    let mut i: usize = 0;
    while i < n
        decreases n - i,
    {
        let x: u32 = take_u32(bytes, pos)?;
        match char_from_u32(x) {
            Option::Some(c) => chars.push(c),
            Option::None => {
                return Result::Err(DecodeError::BadChar);
            },
        }
        i = i + 1;
    }
    Result::Ok(string_from_chars(chars))
}

/// Reads an optional 64-bit value.
fn take_opt_u64(bytes: &Vec<u8>, pos: &mut usize) -> (r: Result<Option<u64>, DecodeError>) {
    let tag: u8 = take_u8(bytes, pos)?;
    if tag == 0 {
        Result::Ok(Option::None)
    } else if tag == 1 {
        let v: u64 = take_u64(bytes, pos)?;
        Result::Ok(Option::Some(v))
    } else {
        Result::Err(DecodeError::BadTag)
    }
}

/// Reads an optional string.
fn take_opt_string(bytes: &Vec<u8>, pos: &mut usize) -> (r: Result<
    Option<String>,
    DecodeError,
>) {
    let tag: u8 = take_u8(bytes, pos)?;
    if tag == 0 {
        Result::Ok(Option::None)
    } else if tag == 1 {
        let s: String = take_string(bytes, pos)?;
        Result::Ok(Option::Some(s))
    } else {
        Result::Err(DecodeError::BadTag)
    }
}

/// Reads an optional default operation.
fn take_opt_call(bytes: &Vec<u8>, pos: &mut usize) -> (r: Result<
    Option<CallState>,
    DecodeError,
>) {
    let tag: u8 = take_u8(bytes, pos)?;
    if tag == 0 {
        Result::Ok(Option::None)
    } else if tag == 1 {
        let method: String = take_string(bytes, pos)?;
        let destructible: String = take_string(bytes, pos)?;
        Result::Ok(Option::Some(CallState { method, destructible }))
    } else {
        Result::Err(DecodeError::BadTag)
    }
}

/// Reads an execution configuration.
fn take_config(bytes: &Vec<u8>, pos: &mut usize) -> (r: Result<CoreConfig, DecodeError>) {
    let halt: bool = take_bool(bytes, pos)?;
    let complexity_lim: Option<u64> = take_opt_u64(bytes, pos)?;
    Result::Ok(CoreConfig { halt, complexity_lim })
}

/// Reads an arithmetic discipline.
fn take_arithm(bytes: &Vec<u8>, pos: &mut usize) -> (r: Result<Arithm, DecodeError>) {
    let tag: u8 = take_u8(bytes, pos)?;
    if tag == 0 {
        Result::Ok(Arithm::NonFungible)
    } else if tag == 1 {
        Result::Ok(Arithm::Fungible)
    } else {
        Result::Err(DecodeError::BadTag)
    }
}

/// Reads an adaptor.
fn take_adaptor(bytes: &Vec<u8>, pos: &mut usize) -> (r: Result<Adaptor, DecodeError>) {
    let tag: u8 = take_u8(bytes, pos)?;
    if tag == 0 {
        let v: U256 = take_u256(bytes, pos)?;
        Result::Ok(Adaptor::Immutable(v))
    } else if tag == 1 {
        let a: Arithm = take_arithm(bytes, pos)?;
        Result::Ok(Adaptor::Arithmetic(a))
    } else {
        Result::Err(DecodeError::BadTag)
    }
}

/// Reads a Codex, revalidating its construction invariant.
fn take_codex(bytes: &Vec<u8>, pos: &mut usize) -> (r: Result<Codex, DecodeError>) {
    let name: String = take_string(bytes, pos)?;
    let developer: String = take_string(bytes, pos)?;
    let version: u16 = take_u16(bytes, pos)?;
    let timestamp: u64 = take_u64(bytes, pos)?;
    let field_order: U256 = take_u256(bytes, pos)?;
    let input_config: CoreConfig = take_config(bytes, pos)?;
    let verification_config: CoreConfig = take_config(bytes, pos)?;
    let mut verifiers: Vec<(u8, LibSite)> = Vec::new();
    let mut sel: usize = 0;
    while sel < 256
        decreases 256 - sel,
    {
        let tag: u8 = take_u8(bytes, pos)?;
        if tag == 1 {
            let lib_id: u128 = take_u128(bytes, pos)?;
            let offset: u16 = take_u16(bytes, pos)?;
            verifiers.push((sel as u8, LibSite { lib_id, offset }));
        } else if tag != 0 {
            return Result::Err(DecodeError::BadTag);
        }
        sel = sel + 1;
    }
    let reserved: u16 = take_u16(bytes, pos)?;
    match Codex::new(
        name,
        developer,
        version,
        timestamp,
        field_order,
        input_config,
        verification_config,
        verifiers,
        reserved,
    ) {
        Result::Ok(c) => Result::Ok(c),
        Result::Err(_) => Result::Err(DecodeError::InvalidStructure),
    }
}

/// Reads one API, revalidating it against the given Codex.
fn take_api(bytes: &Vec<u8>, pos: &mut usize, codex: &Codex) -> (r: Result<Api, DecodeError>)
    ensures
        r matches Ok(a) ==> api_inner_wf(a->Embedded_0, *codex),
{
    let kind: u8 = take_u8(bytes, pos)?;
    if kind != 0 {
        return Result::Err(DecodeError::BadTag);
    }
    let version: u16 = take_u16(bytes, pos)?;
    let codex_id: u64 = take_u64(bytes, pos)?;
    let timestamp: u64 = take_u64(bytes, pos)?;
    let name: Option<String> = take_opt_string(bytes, pos)?;
    let developer: String = take_string(bytes, pos)?;
    let conforms: Option<String> = take_opt_string(bytes, pos)?;
    let default_call: Option<CallState> = take_opt_call(bytes, pos)?;
    let reserved: u16 = take_u16(bytes, pos)?;

    let n_append: usize = take_len(bytes, pos)?;
    let mut append_only: Vec<(String, AppendApi)> = Vec::new();
    let mut i: usize = 0;
    while i < n_append
        decreases n_append - i,
    {
        let field: String = take_string(bytes, pos)?;
        let sem_id: u128 = take_u128(bytes, pos)?;
        let raw_sem_id: u128 = take_u128(bytes, pos)?;
        let published: bool = take_bool(bytes, pos)?;
        let adaptor: Adaptor = take_adaptor(bytes, pos)?;
        append_only.push((field, AppendApi { sem_id, raw_sem_id, published, adaptor }));
        i = i + 1;
    }

    let n_dest: usize = take_len(bytes, pos)?;
    let mut destructible: Vec<(String, DestructibleApi)> = Vec::new();
    let mut j: usize = 0;
    while j < n_dest
        decreases n_dest - j,
    {
        let field: String = take_string(bytes, pos)?;
        let sem_id: u128 = take_u128(bytes, pos)?;
        let arithmetics: Arithm = take_arithm(bytes, pos)?;
        let adaptor: Adaptor = take_adaptor(bytes, pos)?;
        destructible.push((field, DestructibleApi { sem_id, arithmetics, adaptor }));
        j = j + 1;
    }

    let n_readers: usize = take_len(bytes, pos)?;
    let mut readers: Vec<String> = Vec::new();
    let mut k: usize = 0;
    while k < n_readers
        decreases n_readers - k,
    {
        let s: String = take_string(bytes, pos)?;
        readers.push(s);
        k = k + 1;
    }

    let n_verifiers: usize = take_len(bytes, pos)?;
    let mut verifiers: Vec<(String, u8)> = Vec::new();
    let mut m: usize = 0;
    while m < n_verifiers
        decreases n_verifiers - m,
    {
        let op: String = take_string(bytes, pos)?;
        let sel: u8 = take_u8(bytes, pos)?;
        verifiers.push((op, sel));
        m = m + 1;
    }

    let n_errors: usize = take_len(bytes, pos)?;
    let mut errors: Vec<(U256, String)> = Vec::new();
    let mut e: usize = 0;
    while e < n_errors
        decreases n_errors - e,
    {
        let code: U256 = take_u256(bytes, pos)?;
        let msg: String = take_string(bytes, pos)?;
        errors.push((code, msg));
        e = e + 1;
    }

    let inner = ApiInner {
        version,
        codex_id,
        timestamp,
        name,
        developer,
        conforms,
        default_call,
        reserved,
        append_only,
        destructible,
        readers,
        verifiers,
        errors,
    };
    match Api::embedded(codex, inner) {
        Result::Ok(a) => Result::Ok(a),
        Result::Err(_) => Result::Err(DecodeError::InvalidStructure),
    }
}

impl Schema {
    /// Decodes a Schema from bytes.
    ///
    /// Returns a Schema only when the input is exactly that Schema's
    /// canonical encoding; the result always satisfies the assembly
    /// invariants, and every attached API is well formed over the decoded
    /// Codex.  Any deviation from the canonical form, including a stored
    /// content id that does not match the recomputed one, is an error.
    /// The converse — that decoding never fails on the canonical encoding
    /// of a well-formed Schema — holds of this parser but is not part of
    /// the contract; it is exercised by the round-trip tests.
    pub fn decode(bytes: &Vec<u8>) -> (r: Result<Schema, DecodeError>)
        ensures
            r matches Ok(s) ==> enc_schema(s) == bytes@ && assemble_ok(s.codex, s.apis@, s.libs@)
                && (forall|i: int|
                0 <= i < s.apis@.len() ==> api_inner_wf(s.apis@[i]->Embedded_0, s.codex)),
    {
        let mut pos: usize = 0;
        let _stored_codex_id: u64 = take_u64(bytes, &mut pos)?;
        let _stored_schema_id: u64 = take_u64(bytes, &mut pos)?;
        let codex: Codex = take_codex(bytes, &mut pos)?;

        let n_apis: usize = take_len(bytes, &mut pos)?;
        let mut apis: Vec<Api> = Vec::new();
        let mut i: usize = 0;
        while i < n_apis
            invariant
                forall|j: int| 0 <= j < apis@.len() ==> api_inner_wf(
                    apis@[j]->Embedded_0,
                    codex,
                ),
            decreases n_apis - i,
        {
            let a: Api = take_api(bytes, &mut pos, &codex)?;
            let _stored_api_id: u64 = take_u64(bytes, &mut pos)?;
            apis.push(a);
            i = i + 1;
        }

        let n_libs: usize = take_len(bytes, &mut pos)?;
        let mut libs: Vec<ScriptLib> = Vec::new();
        let mut k: usize = 0;
        while k < n_libs
            decreases n_libs - k,
        {
            let lib_id: u128 = take_u128(bytes, &mut pos)?;
            let n_code: usize = take_len(bytes, &mut pos)?;
            let mut code: Vec<u8> = Vec::new();
            let mut c: usize = 0;
            while c < n_code
                decreases n_code - c,
            {
                let b: u8 = take_u8(bytes, &mut pos)?;
                code.push(b);
                c = c + 1;
            }
            libs.push(ScriptLib { lib_id, code });
            k = k + 1;
        }

        let types: u128 = take_u128(bytes, &mut pos)?;
        let _stored_digest: u64 = take_u64(bytes, &mut pos)?;
        if pos != bytes.len() {
            return Result::Err(DecodeError::NotCanonical);
        }

        let schema: Schema = match Schema::assemble(codex, apis, libs, types) {
            Result::Ok(s) => s,
            Result::Err(_) => {
                return Result::Err(DecodeError::InvalidStructure);
            },
        };

        let reencoded: Vec<u8> = schema.encode();
        if bytes_eq(&reencoded, bytes) {
            Result::Ok(schema)
        } else {
            Result::Err(DecodeError::NotCanonical)
        }
    }
}

} // verus!
