//! The Codex: an immutable, content-addressed contract ruleset.
//!
//! A Codex binds 8-bit call selectors to entry points inside a script
//! library and carries the execution configuration of the verification
//! machine.  Construction is pure; a selector collision is a construction
//! error and yields no partial value.  The canonical encoding walks the
//! whole selector space in ascending order, so the derived `codex_id`
//! depends only on the selector-to-site mapping, never on the order in
//! which the bindings were supplied.

use vstd::prelude::*;
use crate::encode::{
    emit_bool, emit_opt_u64, emit_str, emit_u128, emit_u16, emit_u256, emit_u64, emit_u8,
    enc_bool, enc_opt_u64, enc_str, enc_u128, enc_u16, enc_u256, enc_u64, fnv1a, fnv1a_hash,
};
use crate::uint256::U256;

verus! {

/// An address of an entry point inside a content-addressed script library:
/// the library id plus a byte offset into its code.
#[derive(Clone, Copy, PartialEq, Eq, Structural, Debug)]
pub struct LibSite {
    /// Content-derived id of the script library.
    pub lib_id: u128,
    /// Offset of the entry point inside the library's code.
    pub offset: u16,
}

/// Execution configuration for one run of the verification machine.
#[derive(Clone, Copy, Debug)]
pub struct CoreConfig {
    /// Whether the machine halts on the first failed instruction.
    pub halt: bool,
    /// An optional ceiling on the accumulated execution complexity.
    pub complexity_lim: Option<u64>,
}

impl Default for CoreConfig {
    /// The default configuration: halting machine, no complexity ceiling.
    fn default() -> (r: CoreConfig)
        ensures
            r.halt == true,
            r.complexity_lim is None,
    {
        CoreConfig { halt: true, complexity_lim: Option::None }
    }
}

/// The immutable ruleset of a contract.
#[derive(Clone, Debug)]
pub struct Codex {
    /// Short display name.
    pub name: String,
    /// Identity of the author, as a principal string.
    pub developer: String,
    /// Version of the ruleset.
    pub version: u16,
    /// Creation timestamp.
    pub timestamp: u64,
    /// Order of the numeric field used by the arithmetic layer.
    pub field_order: U256,
    /// Configuration for evaluating input conditions.
    pub input_config: CoreConfig,
    /// Configuration for evaluating operation verifiers.
    pub verification_config: CoreConfig,
    /// Bindings from call selectors to script entry points.
    pub verifiers: Vec<(u8, LibSite)>,
    /// Forward-compatibility padding.
    pub reserved: u16,
}

/// A failure while constructing a Codex.
#[derive(Clone, Copy, PartialEq, Eq, Structural, Debug)]
pub enum CodexError {
    /// The same call selector was bound twice.
    DuplicateSelector(u8),
}

/// Whether no selector occurs twice in a binding list.
pub open spec fn selectors_unique(v: Seq<(u8, LibSite)>) -> bool {
    forall|i: int, j: int| 0 <= i < j < v.len() ==> v[i].0 != v[j].0
}

/// Whether a binding list binds the given selector.
pub open spec fn has_selector(v: Seq<(u8, LibSite)>, sel: u8) -> bool {
    exists|i: int| 0 <= i < v.len() && v[i].0 == sel
}

/// The site bound to the given selector: the first matching binding.
pub open spec fn site_for(v: Seq<(u8, LibSite)>, sel: u8) -> LibSite
    decreases v.len(),
{
    if v.len() == 0 {
        LibSite { lib_id: 0, offset: 0 }
    } else if v[0].0 == sel {
        v[0].1
    } else {
        site_for(v.drop_first(), sel)
    }
}

/// The first matching binding is the one `site_for` denotes.
pub proof fn lemma_site_for_first(v: Seq<(u8, LibSite)>, sel: u8, i: int)
    requires
        0 <= i < v.len(),
        v[i].0 == sel,
        forall|j: int| 0 <= j < i ==> v[j].0 != sel,
    ensures
        site_for(v, sel) == v[i].1,
    decreases i,
{
    if i == 0 {
    } else {
        assert(v.drop_first()[i - 1] == v[i]);
        assert(forall|j: int| 0 <= j < i - 1 ==> v.drop_first()[j] == v[j + 1]);
        lemma_site_for_first(v.drop_first(), sel, i - 1);
    }
}

/// Canonical bytes of one selector's slot: absent, or present with its site.
pub open spec fn enc_sel_entry(v: Seq<(u8, LibSite)>, sel: u8) -> Seq<u8> {
    if has_selector(v, sel) {
        seq![1u8] + enc_u128(site_for(v, sel).lib_id) + enc_u16(site_for(v, sel).offset)
    } else {
        seq![0u8]
    }
}

/// Canonical bytes of all selector slots below `k`, in ascending order.
pub open spec fn enc_sel_upto(v: Seq<(u8, LibSite)>, k: int) -> Seq<u8>
    decreases k,
{
    if k <= 0 {
        Seq::empty()
    } else {
        enc_sel_upto(v, k - 1) + enc_sel_entry(v, (k - 1) as u8)
    }
}

/// Canonical bytes of a whole selector table.
pub open spec fn enc_verifier_table(v: Seq<(u8, LibSite)>) -> Seq<u8> {
    enc_sel_upto(v, 256)
}

/// Canonical bytes of a Codex.
pub open spec fn enc_codex(c: Codex) -> Seq<u8> {
    enc_str(c.name@) + enc_str(c.developer@) + enc_u16(c.version) + enc_u64(c.timestamp)
        + enc_u256(c.field_order) + enc_config(c.input_config) + enc_config(c.verification_config)
        + enc_verifier_table(c.verifiers@) + enc_u16(c.reserved)
}

/// Canonical bytes of an execution configuration.
pub open spec fn enc_config(c: CoreConfig) -> Seq<u8> {
    enc_bool(c.halt) + enc_opt_u64(c.complexity_lim)
}

/// The content id of a Codex: the digest of its canonical encoding.
pub open spec fn codex_id_spec(c: Codex) -> u64 {
    fnv1a(enc_codex(c))
}

/// Finds the binding of a selector, if any.
pub fn find_site(v: &Vec<(u8, LibSite)>, sel: u8) -> (r: Option<LibSite>)
    ensures
        r is Some <==> has_selector(v@, sel),
        r matches Some(s) ==> s == site_for(v@, sel),
{
    let mut i: usize = 0;
    while i < v.len()
        invariant
            i <= v@.len(),
            forall|j: int| 0 <= j < i ==> v@[j].0 != sel,
        decreases v@.len() - i,
    {
        if v[i].0 == sel {
            proof {
                lemma_site_for_first(v@, sel, i as int);
            }
            return Option::Some(v[i].1);
        }
        i = i + 1;
    }
    Option::None
}

/// Appends the canonical bytes of an execution configuration.
pub fn emit_config(out: &mut Vec<u8>, c: &CoreConfig)
    ensures
        final(out)@ == old(out)@ + enc_config(*c),
{
    emit_bool(out, c.halt);
    emit_opt_u64(out, &c.complexity_lim);
    assert(final(out)@ =~= old(out)@ + enc_config(*c));
}

/// Appends the canonical bytes of a selector table.
pub fn emit_verifier_table(out: &mut Vec<u8>, v: &Vec<(u8, LibSite)>)
    ensures
        final(out)@ == old(out)@ + enc_verifier_table(v@),
{
    let ghost base: Seq<u8> = out@;
    let mut k: usize = 0;
    while k < 256
        invariant
            k <= 256,
            out@ == base + enc_sel_upto(v@, k as int),
        decreases 256 - k,
    {
        match find_site(v, k as u8) {
            Option::Some(site) => {
                emit_u8(out, 1u8);
                emit_u128(out, site.lib_id);
                emit_u16(out, site.offset);
            },
            Option::None => {
                emit_u8(out, 0u8);
            },
        }
        proof {
            assert(out@ =~= base + enc_sel_upto(v@, k + 1 as int));
        }
        k = k + 1;
    }
}

/// Appends the canonical bytes of a Codex.
pub fn emit_codex(out: &mut Vec<u8>, c: &Codex)
    ensures
        final(out)@ == old(out)@ + enc_codex(*c),
{
    emit_str(out, c.name.as_str());
    emit_str(out, c.developer.as_str());
    emit_u16(out, c.version);
    emit_u64(out, c.timestamp);
    emit_u256(out, c.field_order);
    emit_config(out, &c.input_config);
    emit_config(out, &c.verification_config);
    emit_verifier_table(out, &c.verifiers);
    emit_u16(out, c.reserved);
    assert(final(out)@ =~= old(out)@ + enc_codex(*c));
}

/// Selector slots encode the same bytes for binding lists that bind the
/// same selectors to the same sites.
proof fn lemma_enc_sel_upto_congruent(v1: Seq<(u8, LibSite)>, v2: Seq<(u8, LibSite)>, k: int)
    requires
        0 <= k <= 256,
        forall|sel: u8| has_selector(v1, sel) == has_selector(v2, sel),
        forall|sel: u8| has_selector(v1, sel) ==> site_for(v1, sel) == site_for(v2, sel),
    ensures
        enc_sel_upto(v1, k) == enc_sel_upto(v2, k),
    decreases k,
{
    if k > 0 {
        lemma_enc_sel_upto_congruent(v1, v2, k - 1);
        assert(enc_sel_entry(v1, (k - 1) as u8) == enc_sel_entry(v2, (k - 1) as u8));
    }
}

/// Content addressing sees the mapping, not the representation: two
/// Codexes whose fields agree and whose binding lists bind the same
/// selectors to the same sites, in whatever order, have the same
/// canonical encoding and the same content id.
pub proof fn lemma_codex_id_depends_on_mapping_only(c1: Codex, c2: Codex)
    requires
        c1.name@ == c2.name@,
        c1.developer@ == c2.developer@,
        c1.version == c2.version,
        c1.timestamp == c2.timestamp,
        c1.field_order == c2.field_order,
        c1.input_config == c2.input_config,
        c1.verification_config == c2.verification_config,
        c1.reserved == c2.reserved,
        forall|sel: u8| has_selector(c1.verifiers@, sel) == has_selector(c2.verifiers@, sel),
        forall|sel: u8| has_selector(c1.verifiers@, sel) ==> site_for(c1.verifiers@, sel)
            == site_for(c2.verifiers@, sel),
    ensures
        enc_codex(c1) == enc_codex(c2),
        codex_id_spec(c1) == codex_id_spec(c2),
{
    lemma_enc_sel_upto_congruent(c1.verifiers@, c2.verifiers@, 256);
}

impl Codex {
    /// Builds a Codex from its fields, rejecting selector collisions.
    ///
    /// Succeeds exactly when every selector is bound at most once; on a
    /// collision no partial value is produced, only the colliding selector.
    pub fn new(
        name: String,
        developer: String,
        version: u16,
        timestamp: u64,
        field_order: U256,
        input_config: CoreConfig,
        verification_config: CoreConfig,
        verifiers: Vec<(u8, LibSite)>,
        reserved: u16,
    ) -> (r: Result<Codex, CodexError>)
        ensures
            r is Ok <==> selectors_unique(verifiers@),
            r matches Ok(c) ==> c == (Codex {
                name,
                developer,
                version,
                timestamp,
                field_order,
                input_config,
                verification_config,
                verifiers,
                reserved,
            }),
            r matches Err(e) ==> e matches CodexError::DuplicateSelector(s)
                && exists|i: int, j: int|
                    0 <= i < j < verifiers@.len() && verifiers@[i].0 == s && verifiers@[j].0 == s,
    {
        let mut j: usize = 1;
        while j < verifiers.len()
            invariant
                1 <= j,
                forall|a: int, b: int| 0 <= a < b < j && b < verifiers@.len()
                    ==> verifiers@[a].0 != verifiers@[b].0,
            decreases verifiers@.len() - j,
        {
            let mut i: usize = 0;
            while i < j
                invariant
                    i <= j < verifiers@.len(),
                    forall|a: int| 0 <= a < i ==> verifiers@[a].0 != verifiers@[j as int].0,
                decreases j - i,
            {
                if verifiers[i].0 == verifiers[j].0 {
                    return Result::Err(CodexError::DuplicateSelector(verifiers[i].0));
                }
                i = i + 1;
            }
            j = j + 1;
        }
        Result::Ok(Codex {
            name,
            developer,
            version,
            timestamp,
            field_order,
            input_config,
            verification_config,
            verifiers,
            reserved,
        })
    }

    /// The content id: the digest of this Codex's canonical encoding.
    pub fn codex_id(&self) -> (r: u64)
        ensures
            r == codex_id_spec(*self),
    {
        let mut buf: Vec<u8> = Vec::new();
        emit_codex(&mut buf, self);
        fnv1a_hash(&buf)
    }

    /// Whether this Codex binds the given selector.
    pub fn binds(&self, sel: u8) -> (r: bool)
        ensures
            r == has_selector(self.verifiers@, sel),
    {
        match find_site(&self.verifiers, sel) {
            Option::Some(_) => true,
            Option::None => false,
        }
    }
}

} // verus!
