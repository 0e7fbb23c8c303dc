//! The Schema: the persistable contract template.
//!
//! A Schema composes one Codex, one or more APIs that describe it, the
//! concrete script library the Codex's entry points live in, and a handle
//! to the semantic type system.  Assembly validates the cross-entity
//! invariants: every API must carry the Codex's own content id, and every
//! entry point the Codex binds must resolve inside the attached library.
//! The canonical encoding of an assembled Schema, and the identity derived
//! from it, are functions of the composed value alone.

use vstd::prelude::*;
use crate::api::{api_id_spec, emit_api, enc_api, Api};
use crate::codex::{codex_id_spec, emit_codex, enc_codex, Codex, LibSite};
use crate::encode::{
    emit_bytes, emit_u128, emit_u64, enc_u128, enc_u64, fnv1a, fnv1a_hash,
};

verus! {

/// A script library: content-derived id plus the compiled code.
#[derive(Clone, Debug)]
pub struct ScriptLib {
    /// Content-derived id of the library.
    pub lib_id: u128,
    /// The compiled script code.
    pub code: Vec<u8>,
}

/// A failure while assembling a Schema.
#[derive(Clone, Copy, PartialEq, Eq, Structural, Debug)]
pub enum AssembleError {
    /// No API was attached.
    EmptyApiSet,
    /// An attached API carries the given codex id, which is not the id of
    /// the Codex being assembled.
    CodexMismatch(u64),
    /// The Codex binds the given site, which no attached library resolves.
    UnresolvedLibSite(LibSite),
}

/// The full contract template.
#[derive(Clone, Debug)]
pub struct Schema {
    /// The ruleset.
    pub codex: Codex,
    /// The interfaces describing the ruleset, in attachment order.
    pub apis: Vec<Api>,
    /// The script libraries the Codex's entry points resolve in.
    pub libs: Vec<ScriptLib>,
    /// Handle to the semantic type system used by the APIs.
    pub types: u128,
}

/// Whether a site names an entry point inside one of the given libraries.
pub open spec fn site_resolves(site: LibSite, libs: Seq<ScriptLib>) -> bool {
    exists|i: int|
        0 <= i < libs.len() && libs[i].lib_id == site.lib_id && (site.offset as int)
            < libs[i].code@.len()
}

/// Whether every entry point the Codex binds resolves in the libraries.
pub open spec fn all_sites_resolve(codex: Codex, libs: Seq<ScriptLib>) -> bool {
    forall|i: int|
        0 <= i < codex.verifiers@.len() ==> site_resolves(codex.verifiers@[i].1, libs)
}

/// Whether every attached API carries the Codex's own content id.
pub open spec fn apis_match(codex: Codex, apis: Seq<Api>) -> bool {
    forall|i: int|
        0 <= i < apis.len() ==> apis[i]->Embedded_0.codex_id == codex_id_spec(codex)
}

/// Whether assembly of these parts succeeds.
pub open spec fn assemble_ok(codex: Codex, apis: Seq<Api>, libs: Seq<ScriptLib>) -> bool {
    apis.len() > 0 && apis_match(codex, apis) && all_sites_resolve(codex, libs)
}

/// Canonical bytes of one script library.
pub open spec fn enc_lib(l: ScriptLib) -> Seq<u8> {
    enc_u128(l.lib_id) + enc_u64(l.code@.len() as u64) + l.code@
}

/// Canonical bytes of the library table, in attachment order.
pub open spec fn enc_lib_list(v: Seq<ScriptLib>) -> Seq<u8>
    decreases v.len(),
{
    if v.len() == 0 {
        Seq::empty()
    } else {
        enc_lib_list(v.drop_last()) + enc_lib(v.last())
    }
}

/// Canonical bytes of the API table: each API followed by its content id.
pub open spec fn enc_api_list(v: Seq<Api>) -> Seq<u8>
    decreases v.len(),
{
    if v.len() == 0 {
        Seq::empty()
    } else {
        enc_api_list(v.drop_last()) + enc_api(v.last()) + enc_u64(api_id_spec(v.last()))
    }
}

/// The ids of the attached APIs, in attachment order, as bytes.
pub open spec fn api_ids_bytes(v: Seq<Api>) -> Seq<u8>
    decreases v.len(),
{
    if v.len() == 0 {
        Seq::empty()
    } else {
        api_ids_bytes(v.drop_last()) + enc_u64(api_id_spec(v.last()))
    }
}

/// The identity of a Schema: the digest of the Codex's id followed by the
/// ordered ids of the attached APIs.
pub open spec fn schema_id_spec(s: Schema) -> u64 {
    fnv1a(enc_u64(codex_id_spec(s.codex)) + api_ids_bytes(s.apis@))
}

/// The body of a Schema's canonical encoding: the stored Codex id and
/// schema id at fixed leading positions, then the Codex, the API table,
/// the library table and the type-system handle.  Storing the ids first
/// lets a consumer read them at fixed offsets, and equal encodings carry
/// equal ids by construction.
pub open spec fn enc_schema_body(s: Schema) -> Seq<u8> {
    enc_u64(codex_id_spec(s.codex)) + enc_u64(schema_id_spec(s)) + enc_codex(s.codex)
        + enc_u64(s.apis@.len() as u64) + enc_api_list(s.apis@) + enc_u64(s.libs@.len() as u64)
        + enc_lib_list(s.libs@) + enc_u128(s.types)
}

/// Canonical bytes of a Schema: the body followed by a digest of the
/// whole body, so that no byte of the encoding is left uncovered by an
/// integrity check.
pub open spec fn enc_schema(s: Schema) -> Seq<u8> {
    enc_schema_body(s) + enc_u64(fnv1a(enc_schema_body(s)))
}

/// Whether a site resolves in the given libraries.
pub fn resolves(site: LibSite, libs: &Vec<ScriptLib>) -> (r: bool)
    ensures
        r == site_resolves(site, libs@),
{
    let mut i: usize = 0;
    while i < libs.len()
        invariant
            i <= libs@.len(),
            forall|j: int| 0 <= j < i ==> !(libs@[j].lib_id == site.lib_id
                && (site.offset as int) < libs@[j].code@.len()),
        decreases libs@.len() - i,
    {
        if libs[i].lib_id == site.lib_id && (site.offset as usize) < libs[i].code.len() {
            return true;
        }
        i = i + 1;
    }
    false
}

/// Appends the canonical bytes of the library table.
pub fn emit_lib_list(out: &mut Vec<u8>, v: &Vec<ScriptLib>)
    ensures
        final(out)@ == old(out)@ + enc_lib_list(v@),
{
    let ghost base: Seq<u8> = out@;
    let mut i: usize = 0;
    while i < v.len()
        invariant
            i <= v@.len(),
            out@ == base + enc_lib_list(v@.take(i as int)),
        decreases v@.len() - i,
    {
        emit_u128(out, v[i].lib_id);
        emit_u64(out, v[i].code.len() as u64);
        emit_bytes(out, &v[i].code);
        proof {
            assert(v@.take(i + 1 as int).drop_last() =~= v@.take(i as int));
            assert(v@.take(i + 1 as int).last() == v@[i as int]);
            assert(out@ =~= base + enc_lib_list(v@.take(i + 1 as int)));
        }
        i = i + 1;
    }
    proof {
        assert(v@.take(v@.len() as int) =~= v@);
    }
}

/// Appends the canonical bytes of the API table.
#[verifier::rlimit(60)]
pub fn emit_api_list(out: &mut Vec<u8>, v: &Vec<Api>)
    ensures
        final(out)@ == old(out)@ + enc_api_list(v@),
{
    let ghost base: Seq<u8> = out@;
    let mut i: usize = 0;
    while i < v.len()
        invariant
            i <= v@.len(),
            out@ == base + enc_api_list(v@.take(i as int)),
        decreases v@.len() - i,
    {
        let a: &Api = &v[i];
        emit_api(out, a);
        let id: u64 = a.api_id();
        emit_u64(out, id);
        proof {
            assert(v@.take(i + 1 as int).drop_last() =~= v@.take(i as int));
            assert(v@.take(i + 1 as int).last() == v@[i as int]);
            assert(out@ =~= base + enc_api_list(v@.take(i + 1 as int)));
        }
        i = i + 1;
    }
    proof {
        assert(v@.take(v@.len() as int) =~= v@);
    }
}

impl Schema {
    /// Assembles a Schema, validating the cross-entity invariants.
    ///
    /// Succeeds exactly when at least one API is attached, every attached
    /// API carries this Codex's content id, and every entry point the
    /// Codex binds resolves inside the attached libraries.  On success the
    /// Schema is exactly the composed parts; nothing is written on
    /// failure.
    pub fn assemble(codex: Codex, apis: Vec<Api>, libs: Vec<ScriptLib>, types: u128) -> (r:
        Result<Schema, AssembleError>)
        ensures
            r is Ok <==> assemble_ok(codex, apis@, libs@),
            r matches Ok(s) ==> s.codex == codex && s.apis == apis && s.libs == libs
                && s.types == types,
            apis@.len() == 0 ==> r == Result::<Schema, AssembleError>::Err(
                AssembleError::EmptyApiSet,
            ),
            r matches Err(e) ==> match e {
                AssembleError::EmptyApiSet => apis@.len() == 0,
                AssembleError::CodexMismatch(id) => exists|i: int|
                    0 <= i < apis@.len() && apis@[i]->Embedded_0.codex_id == id
                        && id != codex_id_spec(codex),
                AssembleError::UnresolvedLibSite(site) => apis@.len() > 0
                    && apis_match(codex, apis@) && exists|i: int|
                    0 <= i < codex.verifiers@.len() && codex.verifiers@[i].1 == site
                        && !site_resolves(site, libs@),
            },
    {
        if apis.len() == 0 {
            return Result::Err(AssembleError::EmptyApiSet);
        }
        let cid: u64 = codex.codex_id();
        let mut i: usize = 0;
        while i < apis.len()
            invariant
                i <= apis@.len(),
                cid == codex_id_spec(codex),
                forall|j: int| 0 <= j < i ==> apis@[j]->Embedded_0.codex_id
                    == codex_id_spec(codex),
            decreases apis@.len() - i,
        {
            let found: u64 = apis[i].codex_id();
            if found != cid {
                return Result::Err(AssembleError::CodexMismatch(found));
            }
            i = i + 1;
        }
        let mut k: usize = 0;
        while k < codex.verifiers.len()
            invariant
                k <= codex.verifiers@.len(),
                apis@.len() > 0,
                apis_match(codex, apis@),
                forall|j: int| 0 <= j < k ==> site_resolves(codex.verifiers@[j].1, libs@),
            decreases codex.verifiers@.len() - k,
        {
            let site: LibSite = codex.verifiers[k].1;
            if !resolves(site, &libs) {
                return Result::Err(AssembleError::UnresolvedLibSite(site));
            }
            k = k + 1;
        }
        Result::Ok(Schema { codex, apis, libs, types })
    }

    /// The identity of this Schema, derived from the Codex's id and the
    /// ordered ids of the attached APIs.
    #[verifier::rlimit(60)]
    pub fn schema_id(&self) -> (r: u64)
        ensures
            r == schema_id_spec(*self),
    {
        let mut buf: Vec<u8> = Vec::new();
        let cid: u64 = self.codex.codex_id();
        emit_u64(&mut buf, cid);
        let mut i: usize = 0;
        while i < self.apis.len()
            invariant
                i <= self.apis@.len(),
                buf@ == enc_u64(codex_id_spec(self.codex)) + api_ids_bytes(self.apis@.take(
                    i as int,
                )),
            decreases self.apis@.len() - i,
        {
            let id: u64 = self.apis[i].api_id();
            emit_u64(&mut buf, id);
            proof {
                assert(self.apis@.take(i + 1 as int).drop_last() =~= self.apis@.take(i as int));
                assert(self.apis@.take(i + 1 as int).last() == self.apis@[i as int]);
                assert(buf@ =~= enc_u64(codex_id_spec(self.codex)) + api_ids_bytes(
                    self.apis@.take(i + 1 as int),
                ));
            }
            i = i + 1;
        }
        proof {
            assert(self.apis@.take(self.apis@.len() as int) =~= self.apis@);
        }
        fnv1a_hash(&buf)
    }

    /// The canonical encoding of this Schema.
    pub fn encode(&self) -> (r: Vec<u8>)
        ensures
            r@ == enc_schema(*self),
    {
        let mut out: Vec<u8> = Vec::new();
        let cid: u64 = self.codex.codex_id();
        emit_u64(&mut out, cid);
        let sid: u64 = self.schema_id();
        emit_u64(&mut out, sid);
        emit_codex(&mut out, &self.codex);
        emit_u64(&mut out, self.apis.len() as u64);
        emit_api_list(&mut out, &self.apis);
        emit_u64(&mut out, self.libs.len() as u64);
        emit_lib_list(&mut out, &self.libs);
        emit_u128(&mut out, self.types);
        proof {
            assert(out@ =~= enc_schema_body(*self));
        }
        let digest: u64 = fnv1a_hash(&out);
        emit_u64(&mut out, digest);
        proof {
            assert(out@ =~= enc_schema(*self));
        }
        out
    }
}

/// Assembly succeeds exactly on matching ids: with at least one API
/// attached and every bound entry point resolving in the library, the
/// parts assemble if and only if every attached API carries the Codex's
/// own content id.
pub proof fn lemma_assembly_succeeds_iff_ids_match(
    codex: Codex,
    apis: Seq<Api>,
    libs: Seq<ScriptLib>,
)
    requires
        apis.len() > 0,
        all_sites_resolve(codex, libs),
    ensures
        assemble_ok(codex, apis, libs) <==> (forall|i: int|
            0 <= i < apis.len() ==> apis[i]->Embedded_0.codex_id == codex_id_spec(codex)),
{
}

/// Assembly is deterministic: two Schemas composed of equal parts have
/// byte-identical canonical encodings and identical derived ids.
pub proof fn lemma_assembly_deterministic(s1: Schema, s2: Schema)
    requires
        s1.codex == s2.codex,
        s1.apis == s2.apis,
        s1.libs == s2.libs,
        s1.types == s2.types,
    ensures
        enc_schema(s1) == enc_schema(s2),
        schema_id_spec(s1) == schema_id_spec(s2),
        codex_id_spec(s1.codex) == codex_id_spec(s2.codex),
{
    assert(s1 == s2);
}

} // verus!
