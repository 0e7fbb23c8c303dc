//! The API: a named state interface layered over one Codex.
//!
//! An API binds human-readable operation names to the Codex's call
//! selectors, and named state fields to semantic type ids and adaptors.
//! Construction validates the binding against the Codex it is authored
//! over: an operation name that points at a selector the Codex does not
//! bind is a construction error, as is any duplicated field name,
//! operation name or error code.

use vstd::prelude::*;
use crate::codex::{has_selector, Codex};
use crate::encode::{
    emit_bool, emit_str, emit_u128, emit_u16, emit_u256, emit_u64, emit_u8, enc_bool, enc_str,
    enc_u128, enc_u16, enc_u256, enc_u64, enc_u8, fnv1a, fnv1a_hash,
};
use crate::uint256::U256;

verus! {

/// The arithmetic discipline of a destructible state slot.
#[derive(Clone, Copy, PartialEq, Eq, Structural, Debug)]
pub enum Arithm {
    /// Values are distinct units; no conservation law applies.
    NonFungible,
    /// Values are fungible amounts: the sum of consumed values must equal
    /// the sum of produced values.
    Fungible,
}

/// A declarative hint telling the verification machine how to interpret
/// or constrain a raw state value.
#[derive(Clone, Copy, PartialEq, Eq, Structural, Debug)]
pub enum Adaptor {
    /// The field is a published constant fact, tagged with an opaque index
    /// distinguishing it from other immutable fields.
    Immutable(U256),
    /// The field obeys the given arithmetic discipline.
    Arithmetic(Arithm),
}

/// Declaration of an append-only (fact) state field.
#[derive(Clone, Copy, PartialEq, Eq, Structural, Debug)]
pub struct AppendApi {
    /// Semantic type id of the logical value.
    pub sem_id: u128,
    /// Semantic type id of the machine-native raw encoding; the unit type
    /// when the adaptor alone fixes the raw structure.
    pub raw_sem_id: u128,
    /// Whether the fact is disclosed to all verifiers.
    pub published: bool,
    /// How the verifier interprets the raw value.
    pub adaptor: Adaptor,
}

/// Declaration of a destructible (ownable, consumable) state field.
#[derive(Clone, Copy, PartialEq, Eq, Structural, Debug)]
pub struct DestructibleApi {
    /// Semantic type id of the value.
    pub sem_id: u128,
    /// The arithmetic discipline of the slot.
    pub arithmetics: Arithm,
    /// How the verifier tells this slot apart from others.
    pub adaptor: Adaptor,
}

/// The default operation of an API: a verifier name plus the destructible
/// field it primarily operates on.
#[derive(Clone, Debug)]
pub struct CallState {
    /// Name of the default operation.
    pub method: String,
    /// Name of the destructible field the operation works on.
    pub destructible: String,
}

/// The fields of an embedded API.
#[derive(Clone, Debug)]
pub struct ApiInner {
    /// Version of the interface.
    pub version: u16,
    /// Content id of the Codex this API describes.
    pub codex_id: u64,
    /// Creation timestamp.
    pub timestamp: u64,
    /// Optional display name of the interface.
    pub name: Option<String>,
    /// Identity of the author, as a principal string.
    pub developer: String,
    /// Optional interface standard this API conforms to.
    pub conforms: Option<String>,
    /// Optional default operation.
    pub default_call: Option<CallState>,
    /// Forward-compatibility padding.
    pub reserved: u16,
    /// Named append-only fields.
    pub append_only: Vec<(String, AppendApi)>,
    /// Named destructible fields.
    pub destructible: Vec<(String, DestructibleApi)>,
    /// Additional read-only projections.
    pub readers: Vec<String>,
    /// Bindings from operation names to the Codex's call selectors.
    pub verifiers: Vec<(String, u8)>,
    /// Verifier-reported error codes and their human-readable messages.
    pub errors: Vec<(U256, String)>,
}

/// A state interface over a Codex.  The variant set is closed: only the
/// embedded kind exists today.
#[derive(Clone, Debug)]
pub enum Api {
    /// An interface whose adaptors are interpreted by the embedded
    /// verification machine.
    Embedded(ApiInner),
}

/// A failure while constructing an API.
#[derive(Clone, Copy, PartialEq, Eq, Structural, Debug)]
pub enum ApiError {
    /// An operation name points at a selector the Codex does not bind.
    UnknownSelector(u8),
    /// An append-only field name occurs twice.
    DuplicateAppendName,
    /// A destructible field name occurs twice.
    DuplicateDestructibleName,
    /// An operation name occurs twice.
    DuplicateVerifierName,
    /// An error code occurs twice.
    DuplicateErrorCode,
    /// Two append-only fields carry the same constant-binding index.
    DuplicateAppendIndex,
    /// Two destructible fields carry the same constant-binding index.
    DuplicateDestructibleIndex,
}

/// Whether no name occurs twice in a named list.
pub open spec fn names_unique<T>(v: Seq<(String, T)>) -> bool {
    forall|i: int, j: int| 0 <= i < j < v.len() ==> v[i].0@ != v[j].0@
}

/// Whether no code occurs twice in an error table.
pub open spec fn codes_unique(v: Seq<(U256, String)>) -> bool {
    forall|i: int, j: int| 0 <= i < j < v.len() ==> v[i].0 != v[j].0
}

/// Whether no constant-binding index occurs twice among the append-only
/// fields.  The index is what lets a verifier tell one published constant
/// from another, so two fields sharing it would be indistinguishable.
pub open spec fn append_indexes_unique(v: Seq<(String, AppendApi)>) -> bool {
    forall|i: int, j: int|
        0 <= i < j < v.len() ==> !(v[i].1.adaptor is Immutable && v[j].1.adaptor is Immutable
            && v[i].1.adaptor->Immutable_0 == v[j].1.adaptor->Immutable_0)
}

/// Whether no constant-binding index occurs twice among the destructible
/// fields.  Append-only and destructible fields are distinct namespaces,
/// so an index may repeat across the two tables but not within one.
pub open spec fn destructible_indexes_unique(v: Seq<(String, DestructibleApi)>) -> bool {
    forall|i: int, j: int|
        0 <= i < j < v.len() ==> !(v[i].1.adaptor is Immutable && v[j].1.adaptor is Immutable
            && v[i].1.adaptor->Immutable_0 == v[j].1.adaptor->Immutable_0)
}

/// Whether every operation binding points at a selector the Codex binds.
pub open spec fn verifiers_known(v: Seq<(String, u8)>, codex: Codex) -> bool {
    forall|i: int| 0 <= i < v.len() ==> has_selector(codex.verifiers@, v[i].1)
}

/// Whether an API's own tables are well formed over the given Codex.
pub open spec fn api_inner_wf(a: ApiInner, codex: Codex) -> bool {
    &&& names_unique(a.append_only@)
    &&& names_unique(a.destructible@)
    &&& names_unique(a.verifiers@)
    &&& codes_unique(a.errors@)
    &&& append_indexes_unique(a.append_only@)
    &&& destructible_indexes_unique(a.destructible@)
    &&& verifiers_known(a.verifiers@, codex)
}

/// Canonical bytes of an arithmetic discipline.
pub open spec fn enc_arithm(a: Arithm) -> Seq<u8> {
    match a {
        Arithm::NonFungible => seq![0u8],
        Arithm::Fungible => seq![1u8],
    }
}

/// Canonical bytes of an adaptor.
pub open spec fn enc_adaptor(a: Adaptor) -> Seq<u8> {
    match a {
        Adaptor::Immutable(v) => seq![0u8] + enc_u256(v),
        Adaptor::Arithmetic(x) => seq![1u8] + enc_arithm(x),
    }
}

/// Canonical bytes of a default operation.
pub open spec fn enc_opt_call(c: Option<CallState>) -> Seq<u8> {
    match c {
        Option::None => seq![0u8],
        Option::Some(cs) => seq![1u8] + enc_str(cs.method@) + enc_str(cs.destructible@),
    }
}

/// Canonical bytes of an optional name.
pub open spec fn enc_opt_name(s: Option<String>) -> Seq<u8> {
    match s {
        Option::None => seq![0u8],
        Option::Some(v) => seq![1u8] + enc_str(v@),
    }
}

/// Canonical bytes of an append-only field declaration.
pub open spec fn enc_append(a: AppendApi) -> Seq<u8> {
    enc_u128(a.sem_id) + enc_u128(a.raw_sem_id) + enc_bool(a.published) + enc_adaptor(a.adaptor)
}

/// Canonical bytes of a destructible field declaration.
pub open spec fn enc_destructible(d: DestructibleApi) -> Seq<u8> {
    enc_u128(d.sem_id) + enc_arithm(d.arithmetics) + enc_adaptor(d.adaptor)
}

/// Canonical bytes of the append-only table, in declaration order.
pub open spec fn enc_append_list(v: Seq<(String, AppendApi)>) -> Seq<u8>
    decreases v.len(),
{
    if v.len() == 0 {
        Seq::empty()
    } else {
        enc_append_list(v.drop_last()) + enc_str(v.last().0@) + enc_append(v.last().1)
    }
}

/// Canonical bytes of the destructible table, in declaration order.
pub open spec fn enc_destructible_list(v: Seq<(String, DestructibleApi)>) -> Seq<u8>
    decreases v.len(),
{
    if v.len() == 0 {
        Seq::empty()
    } else {
        enc_destructible_list(v.drop_last()) + enc_str(v.last().0@) + enc_destructible(v.last().1)
    }
}

/// Canonical bytes of the reader table, in declaration order.
pub open spec fn enc_reader_list(v: Seq<String>) -> Seq<u8>
    decreases v.len(),
{
    if v.len() == 0 {
        Seq::empty()
    } else {
        enc_reader_list(v.drop_last()) + enc_str(v.last()@)
    }
}

/// Canonical bytes of the operation table, in declaration order.
pub open spec fn enc_verifier_list(v: Seq<(String, u8)>) -> Seq<u8>
    decreases v.len(),
{
    if v.len() == 0 {
        Seq::empty()
    } else {
        enc_verifier_list(v.drop_last()) + enc_str(v.last().0@) + enc_u8(v.last().1)
    }
}

/// Canonical bytes of the error table, in declaration order.
pub open spec fn enc_error_list(v: Seq<(U256, String)>) -> Seq<u8>
    decreases v.len(),
{
    if v.len() == 0 {
        Seq::empty()
    } else {
        enc_error_list(v.drop_last()) + enc_u256(v.last().0) + enc_str(v.last().1@)
    }
}

/// Canonical bytes of the fields of an embedded API.
pub open spec fn enc_api_inner(a: ApiInner) -> Seq<u8> {
    enc_u16(a.version) + enc_u64(a.codex_id) + enc_u64(a.timestamp) + enc_opt_name(a.name)
        + enc_str(a.developer@) + enc_opt_name(a.conforms) + enc_opt_call(a.default_call)
        + enc_u16(a.reserved) + enc_u64(a.append_only@.len() as u64)
        + enc_append_list(a.append_only@) + enc_u64(a.destructible@.len() as u64)
        + enc_destructible_list(a.destructible@) + enc_u64(a.readers@.len() as u64)
        + enc_reader_list(a.readers@) + enc_u64(a.verifiers@.len() as u64)
        + enc_verifier_list(a.verifiers@) + enc_u64(a.errors@.len() as u64)
        + enc_error_list(a.errors@)
}

/// Canonical bytes of an API: the kind tag, then the fields.
pub open spec fn enc_api(a: Api) -> Seq<u8> {
    match a {
        Api::Embedded(inner) => seq![0u8] + enc_api_inner(inner),
    }
}

/// The content id of an API: the digest of its canonical encoding.
pub open spec fn api_id_spec(a: Api) -> u64 {
    fnv1a(enc_api(a))
}

/// Whether a named list holds a duplicated name.
fn find_dup_name<T>(v: &Vec<(String, T)>) -> (r: bool)
    ensures
        r == !names_unique(v@),
{
    let mut j: usize = 1;
    while j < v.len()
        invariant
            1 <= j,
            forall|a: int, b: int| 0 <= a < b < j && b < v@.len() ==> v@[a].0@ != v@[b].0@,
        decreases v@.len() - j,
    {
        let mut i: usize = 0;
        while i < j
            invariant
                i <= j < v@.len(),
                forall|a: int| 0 <= a < i ==> v@[a].0@ != v@[j as int].0@,
            decreases j - i,
        {
            if v[i].0 == v[j].0 {
                return true;
            }
            i = i + 1;
        }
        j = j + 1;
    }
    false
}

/// Whether an error table holds a duplicated code.
fn find_dup_code(v: &Vec<(U256, String)>) -> (r: bool)
    ensures
        r == !codes_unique(v@),
{
    let mut j: usize = 1;
    while j < v.len()
        invariant
            1 <= j,
            forall|a: int, b: int| 0 <= a < b < j && b < v@.len() ==> v@[a].0 != v@[b].0,
        decreases v@.len() - j,
    {
        let mut i: usize = 0;
        while i < j
            invariant
                i <= j < v@.len(),
                forall|a: int| 0 <= a < i ==> v@[a].0 != v@[j as int].0,
            decreases j - i,
        {
            if v[i].0 == v[j].0 {
                return true;
            }
            i = i + 1;
        }
        j = j + 1;
    }
    false
}

/// Whether the append-only table holds a duplicated constant index.
fn find_dup_append_index(v: &Vec<(String, AppendApi)>) -> (r: bool)
    ensures
        r == !append_indexes_unique(v@),
{
    let mut j: usize = 1;
    while j < v.len()
        invariant
            1 <= j,
            forall|a: int, b: int| 0 <= a < b < j && b < v@.len()
                ==> !(v@[a].1.adaptor is Immutable && v@[b].1.adaptor is Immutable
                    && v@[a].1.adaptor->Immutable_0 == v@[b].1.adaptor->Immutable_0),
        decreases v@.len() - j,
    {
        let mut i: usize = 0;
        while i < j
            invariant
                i <= j < v@.len(),
                forall|a: int| 0 <= a < i ==> !(v@[a].1.adaptor is Immutable
                    && v@[j as int].1.adaptor is Immutable
                    && v@[a].1.adaptor->Immutable_0 == v@[j as int].1.adaptor->Immutable_0),
            decreases j - i,
        {
            match (&v[i].1.adaptor, &v[j].1.adaptor) {
                (Adaptor::Immutable(a), Adaptor::Immutable(b)) => {
                    if a == b {
                        return true;
                    }
                },
                _ => {},
            }
            i = i + 1;
        }
        j = j + 1;
    }
    false
}

/// Whether the destructible table holds a duplicated constant index.
fn find_dup_destructible_index(v: &Vec<(String, DestructibleApi)>) -> (r: bool)
    ensures
        r == !destructible_indexes_unique(v@),
{
    let mut j: usize = 1;
    while j < v.len()
        invariant
            1 <= j,
            forall|a: int, b: int| 0 <= a < b < j && b < v@.len()
                ==> !(v@[a].1.adaptor is Immutable && v@[b].1.adaptor is Immutable
                    && v@[a].1.adaptor->Immutable_0 == v@[b].1.adaptor->Immutable_0),
        decreases v@.len() - j,
    {
        let mut i: usize = 0;
        while i < j
            invariant
                i <= j < v@.len(),
                forall|a: int| 0 <= a < i ==> !(v@[a].1.adaptor is Immutable
                    && v@[j as int].1.adaptor is Immutable
                    && v@[a].1.adaptor->Immutable_0 == v@[j as int].1.adaptor->Immutable_0),
            decreases j - i,
        {
            match (&v[i].1.adaptor, &v[j].1.adaptor) {
                (Adaptor::Immutable(a), Adaptor::Immutable(b)) => {
                    if a == b {
                        return true;
                    }
                },
                _ => {},
            }
            i = i + 1;
        }
        j = j + 1;
    }
    false
}

/// Finds an operation binding whose selector the Codex does not bind.
fn find_unknown_selector(codex: &Codex, v: &Vec<(String, u8)>) -> (r: Option<u8>)
    ensures
        r is None <==> verifiers_known(v@, *codex),
        r matches Some(s) ==> exists|i: int|
            0 <= i < v@.len() && v@[i].1 == s && !has_selector(codex.verifiers@, s),
{
    let mut i: usize = 0;
    while i < v.len()
        invariant
            i <= v@.len(),
            forall|j: int| 0 <= j < i ==> has_selector(codex.verifiers@, v@[j].1),
        decreases v@.len() - i,
    {
        let sel: u8 = v[i].1;
        if !codex.binds(sel) {
            return Option::Some(sel);
        }
        i = i + 1;
    }
    Option::None
}

/// Appends the canonical bytes of an adaptor.
pub fn emit_adaptor(out: &mut Vec<u8>, a: &Adaptor)
    ensures
        final(out)@ == old(out)@ + enc_adaptor(*a),
{
    match a {
        Adaptor::Immutable(v) => {
            emit_u8(out, 0u8);
            emit_u256(out, *v);
        },
        Adaptor::Arithmetic(x) => {
            emit_u8(out, 1u8);
            match x {
                Arithm::NonFungible => emit_u8(out, 0u8),
                Arithm::Fungible => emit_u8(out, 1u8),
            }
        },
    }
    assert(final(out)@ =~= old(out)@ + enc_adaptor(*a));
}

/// Appends the canonical bytes of an arithmetic discipline.
pub fn emit_arithm(out: &mut Vec<u8>, a: &Arithm)
    ensures
        final(out)@ == old(out)@ + enc_arithm(*a),
{
    match a {
        Arithm::NonFungible => emit_u8(out, 0u8),
        Arithm::Fungible => emit_u8(out, 1u8),
    }
    assert(final(out)@ =~= old(out)@ + enc_arithm(*a));
}

/// Appends the canonical bytes of an optional name.
pub fn emit_opt_name(out: &mut Vec<u8>, s: &Option<String>)
    ensures
        final(out)@ == old(out)@ + enc_opt_name(*s),
{
    match s {
        Option::None => emit_u8(out, 0u8),
        Option::Some(v) => {
            emit_u8(out, 1u8);
            emit_str(out, v.as_str());
        },
    }
    assert(final(out)@ =~= old(out)@ + enc_opt_name(*s));
}

/// Appends the canonical bytes of a default operation.
pub fn emit_opt_call(out: &mut Vec<u8>, c: &Option<CallState>)
    ensures
        final(out)@ == old(out)@ + enc_opt_call(*c),
{
    match c {
        Option::None => emit_u8(out, 0u8),
        Option::Some(cs) => {
            emit_u8(out, 1u8);
            emit_str(out, cs.method.as_str());
            emit_str(out, cs.destructible.as_str());
        },
    }
    assert(final(out)@ =~= old(out)@ + enc_opt_call(*c));
}

/// Appends the canonical bytes of the append-only table.
pub fn emit_append_list(out: &mut Vec<u8>, v: &Vec<(String, AppendApi)>)
    ensures
        final(out)@ == old(out)@ + enc_append_list(v@),
{
    let ghost base: Seq<u8> = out@;
    let mut i: usize = 0;
    while i < v.len()
        invariant
            i <= v@.len(),
            out@ == base + enc_append_list(v@.take(i as int)),
        decreases v@.len() - i,
    {
        emit_str(out, v[i].0.as_str());
        let e: AppendApi = v[i].1;
        emit_u128(out, e.sem_id);
        emit_u128(out, e.raw_sem_id);
        emit_bool(out, e.published);
        emit_adaptor(out, &e.adaptor);
        proof {
            assert(v@.take(i + 1 as int).drop_last() =~= v@.take(i as int));
            assert(v@.take(i + 1 as int).last() == v@[i as int]);
            assert(out@ =~= base + enc_append_list(v@.take(i + 1 as int)));
        }
        i = i + 1;
    }
    proof {
        assert(v@.take(v@.len() as int) =~= v@);
    }
}

/// Appends the canonical bytes of the destructible table.
pub fn emit_destructible_list(out: &mut Vec<u8>, v: &Vec<(String, DestructibleApi)>)
    ensures
        final(out)@ == old(out)@ + enc_destructible_list(v@),
{
    let ghost base: Seq<u8> = out@;
    let mut i: usize = 0;
    while i < v.len()
        invariant
            i <= v@.len(),
            out@ == base + enc_destructible_list(v@.take(i as int)),
        decreases v@.len() - i,
    {
        emit_str(out, v[i].0.as_str());
        let e: DestructibleApi = v[i].1;
        emit_u128(out, e.sem_id);
        emit_arithm(out, &e.arithmetics);
        emit_adaptor(out, &e.adaptor);
        proof {
            assert(v@.take(i + 1 as int).drop_last() =~= v@.take(i as int));
            assert(v@.take(i + 1 as int).last() == v@[i as int]);
            assert(out@ =~= base + enc_destructible_list(v@.take(i + 1 as int)));
        }
        i = i + 1;
    }
    proof {
        assert(v@.take(v@.len() as int) =~= v@);
    }
}

/// Appends the canonical bytes of the reader table.
pub fn emit_reader_list(out: &mut Vec<u8>, v: &Vec<String>)
    ensures
        final(out)@ == old(out)@ + enc_reader_list(v@),
{
    let ghost base: Seq<u8> = out@;
    let mut i: usize = 0;
    while i < v.len()
        invariant
            i <= v@.len(),
            out@ == base + enc_reader_list(v@.take(i as int)),
        decreases v@.len() - i,
    {
        emit_str(out, v[i].as_str());
        proof {
            assert(v@.take(i + 1 as int).drop_last() =~= v@.take(i as int));
            assert(v@.take(i + 1 as int).last() == v@[i as int]);
            assert(out@ =~= base + enc_reader_list(v@.take(i + 1 as int)));
        }
        i = i + 1;
    }
    proof {
        assert(v@.take(v@.len() as int) =~= v@);
    }
}

/// Appends the canonical bytes of the operation table.
pub fn emit_verifier_list(out: &mut Vec<u8>, v: &Vec<(String, u8)>)
    ensures
        final(out)@ == old(out)@ + enc_verifier_list(v@),
{
    let ghost base: Seq<u8> = out@;
    let mut i: usize = 0;
    while i < v.len()
        invariant
            i <= v@.len(),
            out@ == base + enc_verifier_list(v@.take(i as int)),
        decreases v@.len() - i,
    {
        emit_str(out, v[i].0.as_str());
        emit_u8(out, v[i].1);
        proof {
            assert(v@.take(i + 1 as int).drop_last() =~= v@.take(i as int));
            assert(v@.take(i + 1 as int).last() == v@[i as int]);
            assert(out@ =~= base + enc_verifier_list(v@.take(i + 1 as int)));
        }
        i = i + 1;
    }
    proof {
        assert(v@.take(v@.len() as int) =~= v@);
    }
}

/// Appends the canonical bytes of the error table.
pub fn emit_error_list(out: &mut Vec<u8>, v: &Vec<(U256, String)>)
    ensures
        final(out)@ == old(out)@ + enc_error_list(v@),
{
    let ghost base: Seq<u8> = out@;
    let mut i: usize = 0;
    while i < v.len()
        invariant
            i <= v@.len(),
            out@ == base + enc_error_list(v@.take(i as int)),
        decreases v@.len() - i,
    {
        emit_u256(out, v[i].0);
        emit_str(out, v[i].1.as_str());
        proof {
            assert(v@.take(i + 1 as int).drop_last() =~= v@.take(i as int));
            assert(v@.take(i + 1 as int).last() == v@[i as int]);
            assert(out@ =~= base + enc_error_list(v@.take(i + 1 as int)));
        }
        i = i + 1;
    }
    proof {
        assert(v@.take(v@.len() as int) =~= v@);
    }
}

/// Appends the canonical bytes of an API.
#[verifier::rlimit(60)]
pub fn emit_api(out: &mut Vec<u8>, a: &Api)
    ensures
        final(out)@ == old(out)@ + enc_api(*a),
{
    match a {
        Api::Embedded(inner) => {
            emit_u8(out, 0u8);
            emit_u16(out, inner.version);
            emit_u64(out, inner.codex_id);
            emit_u64(out, inner.timestamp);
            emit_opt_name(out, &inner.name);
            emit_str(out, inner.developer.as_str());
            emit_opt_name(out, &inner.conforms);
            emit_opt_call(out, &inner.default_call);
            emit_u16(out, inner.reserved);
            emit_u64(out, inner.append_only.len() as u64);
            emit_append_list(out, &inner.append_only);
            emit_u64(out, inner.destructible.len() as u64);
            emit_destructible_list(out, &inner.destructible);
            emit_u64(out, inner.readers.len() as u64);
            emit_reader_list(out, &inner.readers);
            emit_u64(out, inner.verifiers.len() as u64);
            emit_verifier_list(out, &inner.verifiers);
            emit_u64(out, inner.errors.len() as u64);
            emit_error_list(out, &inner.errors);
        },
    }
    assert(final(out)@ =~= old(out)@ + enc_api(*a));
}

impl Api {
    /// Builds an embedded API over the given Codex.
    ///
    /// Succeeds exactly when field names, operation names and error codes
    /// are free of duplicates and every operation points at a selector the
    /// Codex binds.  The claimed `codex_id` is taken as given here; whether
    /// it names the right Codex is checked at schema assembly.
    pub fn embedded(codex: &Codex, inner: ApiInner) -> (r: Result<Api, ApiError>)
        ensures
            r is Ok <==> api_inner_wf(inner, *codex),
            r matches Ok(a) ==> a == (Api::Embedded(inner)),
            r matches Err(e) ==> match e {
                ApiError::UnknownSelector(s) => exists|i: int|
                    0 <= i < inner.verifiers@.len() && inner.verifiers@[i].1 == s
                        && !has_selector(codex.verifiers@, s),
                ApiError::DuplicateAppendName => !names_unique(inner.append_only@),
                ApiError::DuplicateDestructibleName => !names_unique(inner.destructible@),
                ApiError::DuplicateVerifierName => !names_unique(inner.verifiers@),
                ApiError::DuplicateErrorCode => !codes_unique(inner.errors@),
                ApiError::DuplicateAppendIndex => !append_indexes_unique(inner.append_only@),
                ApiError::DuplicateDestructibleIndex => !destructible_indexes_unique(
                    inner.destructible@,
                ),
            },
    {
        if find_dup_name(&inner.append_only) {
            return Result::Err(ApiError::DuplicateAppendName);
        }
        if find_dup_name(&inner.destructible) {
            return Result::Err(ApiError::DuplicateDestructibleName);
        }
        if find_dup_name(&inner.verifiers) {
            return Result::Err(ApiError::DuplicateVerifierName);
        }
        if find_dup_code(&inner.errors) {
            return Result::Err(ApiError::DuplicateErrorCode);
        }
        if find_dup_append_index(&inner.append_only) {
            return Result::Err(ApiError::DuplicateAppendIndex);
        }
        if find_dup_destructible_index(&inner.destructible) {
            return Result::Err(ApiError::DuplicateDestructibleIndex);
        }
        match find_unknown_selector(codex, &inner.verifiers) {
            Option::Some(s) => Result::Err(ApiError::UnknownSelector(s)),
            Option::None => Result::Ok(Api::Embedded(inner)),
        }
    }

    /// The fields of this API.
    pub fn inner(&self) -> (r: &ApiInner)
        ensures
            *self == (Api::Embedded(*r)),
    {
        match self {
            Api::Embedded(inner) => inner,
        }
    }

    /// The content id of the Codex this API claims to describe.
    pub fn codex_id(&self) -> (r: u64)
        ensures
            r == self->Embedded_0.codex_id,
    {
        match self {
            Api::Embedded(inner) => inner.codex_id,
        }
    }

    /// The content id of this API: the digest of its canonical encoding.
    pub fn api_id(&self) -> (r: u64)
        ensures
            r == api_id_spec(*self),
    {
        let mut buf: Vec<u8> = Vec::new();
        emit_api(&mut buf, self);
        fnv1a_hash(&buf)
    }
}

} // verus!
