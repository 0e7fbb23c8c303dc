use issuer_schema::api::{
    Adaptor, Api, ApiError, ApiInner, AppendApi, Arithm, CallState, DestructibleApi,
};
use issuer_schema::codex::{Codex, CodexError, CoreConfig, LibSite};
use issuer_schema::schema::{AssembleError, Schema, ScriptLib};
use issuer_schema::uint256::U256;

fn secp_field_order() -> U256 {
    U256 {
        hi: 0xFFFF_FFFF_FFFF_FFFF_FFFF_FFFF_FFFF_FFFF,
        lo: 0xFFFF_FFFF_FFFF_FFFF_FFFF_FFFE_FFFF_FC2F,
    }
}

const DEMO_LIB_ID: u128 = 7;

fn demo_site() -> LibSite {
    LibSite { lib_id: DEMO_LIB_ID, offset: 0 }
}

fn demo_lib() -> ScriptLib {
    ScriptLib { lib_id: DEMO_LIB_ID, code: vec![1, 2, 3, 4] }
}

fn demo_codex(name: &str) -> Codex {
    Codex::new(
        name.to_string(),
        "dns:pandoraprime.ch".to_string(),
        0,
        1732529307,
        secp_field_order(),
        CoreConfig::default(),
        CoreConfig::default(),
        vec![(0, demo_site()), (1, demo_site()), (0xFF, demo_site())],
        0,
    )
    .unwrap()
}

fn demo_append(sem_id: u128, index: u64) -> AppendApi {
    AppendApi {
        sem_id,
        raw_sem_id: 0,
        published: true,
        adaptor: Adaptor::Immutable(U256 { hi: 0, lo: index as u128 }),
    }
}

fn demo_inner(codex: &Codex) -> ApiInner {
    ApiInner {
        version: 0,
        codex_id: codex.codex_id(),
        timestamp: 1732529307,
        name: None,
        developer: "dns:pandoraprime.ch".to_string(),
        conforms: Some("RGB20".to_string()),
        default_call: Some(CallState {
            method: "transfer".to_string(),
            destructible: "owned".to_string(),
        }),
        reserved: 0,
        append_only: vec![
            ("name".to_string(), demo_append(101, 0)),
            ("ticker".to_string(), demo_append(102, 1)),
            ("precision".to_string(), demo_append(103, 2)),
            ("circulating".to_string(), demo_append(104, 3)),
        ],
        destructible: vec![(
            "owned".to_string(),
            DestructibleApi {
                sem_id: 104,
                arithmetics: Arithm::Fungible,
                adaptor: Adaptor::Immutable(U256 { hi: 0, lo: 0 }),
            },
        )],
        readers: vec![],
        verifiers: vec![
            ("issue".to_string(), 0),
            ("transfer".to_string(), 1),
            ("_".to_string(), 0xFF),
        ],
        errors: vec![(
            U256 { hi: 0, lo: 0 },
            "sum of inputs is not equal to sum of outputs".to_string(),
        )],
    }
}

#[test]
fn duplicate_selector_rejected() {
    let r = Codex::new(
        "Broken".to_string(),
        "dns:pandoraprime.ch".to_string(),
        0,
        1732529307,
        secp_field_order(),
        CoreConfig::default(),
        CoreConfig::default(),
        vec![(0, demo_site()), (1, demo_site()), (0, demo_site())],
        0,
    );
    assert_eq!(r.err(), Some(CodexError::DuplicateSelector(0)));
}

#[test]
fn unknown_selector_rejected() {
    let codex = demo_codex("NonInflatableAsset");
    let mut inner = demo_inner(&codex);
    inner.verifiers.push(("burn".to_string(), 2));
    let r = Api::embedded(&codex, inner);
    assert_eq!(r.err(), Some(ApiError::UnknownSelector(2)));
}

#[test]
fn duplicate_append_name_rejected() {
    let codex = demo_codex("NonInflatableAsset");
    let mut inner = demo_inner(&codex);
    inner.append_only.push(("ticker".to_string(), demo_append(105, 4)));
    let r = Api::embedded(&codex, inner);
    assert_eq!(r.err(), Some(ApiError::DuplicateAppendName));
}

#[test]
fn duplicate_destructible_name_rejected() {
    let codex = demo_codex("NonInflatableAsset");
    let mut inner = demo_inner(&codex);
    inner.destructible.push((
        "owned".to_string(),
        DestructibleApi {
            sem_id: 104,
            arithmetics: Arithm::NonFungible,
            adaptor: Adaptor::Immutable(U256 { hi: 0, lo: 9 }),
        },
    ));
    let r = Api::embedded(&codex, inner);
    assert_eq!(r.err(), Some(ApiError::DuplicateDestructibleName));
}

#[test]
fn duplicate_verifier_name_rejected() {
    let codex = demo_codex("NonInflatableAsset");
    let mut inner = demo_inner(&codex);
    inner.verifiers.push(("issue".to_string(), 1));
    let r = Api::embedded(&codex, inner);
    assert_eq!(r.err(), Some(ApiError::DuplicateVerifierName));
}

#[test]
fn duplicate_append_index_rejected() {
    // A fresh name, but the constant-binding index 0 is already taken
    // by the "name" field.
    let codex = demo_codex("NonInflatableAsset");
    let mut inner = demo_inner(&codex);
    inner.append_only.push(("issued".to_string(), demo_append(105, 0)));
    let r = Api::embedded(&codex, inner);
    assert_eq!(r.err(), Some(ApiError::DuplicateAppendIndex));
}

#[test]
fn duplicate_destructible_index_rejected() {
    // The "owned" slot already carries index 0.
    let codex = demo_codex("NonInflatableAsset");
    let mut inner = demo_inner(&codex);
    inner.destructible.push((
        "reserved_pool".to_string(),
        DestructibleApi {
            sem_id: 104,
            arithmetics: Arithm::Fungible,
            adaptor: Adaptor::Immutable(U256 { hi: 0, lo: 0 }),
        },
    ));
    let r = Api::embedded(&codex, inner);
    assert_eq!(r.err(), Some(ApiError::DuplicateDestructibleIndex));
}

#[test]
fn duplicate_error_code_rejected() {
    let codex = demo_codex("NonInflatableAsset");
    let mut inner = demo_inner(&codex);
    inner.errors.push((U256 { hi: 0, lo: 0 }, "another message".to_string()));
    let r = Api::embedded(&codex, inner);
    assert_eq!(r.err(), Some(ApiError::DuplicateErrorCode));
}

#[test]
fn empty_api_set_rejected() {
    let codex = demo_codex("NonInflatableAsset");
    let r = Schema::assemble(codex, vec![], vec![demo_lib()], 42);
    assert_eq!(r.err(), Some(AssembleError::EmptyApiSet));
}

#[test]
fn unresolved_lib_site_rejected() {
    // The Codex points into library 7; attach only an unrelated library.
    let codex = demo_codex("NonInflatableAsset");
    let api = Api::embedded(&codex, demo_inner(&codex)).unwrap();
    let other = ScriptLib { lib_id: 8, code: vec![1, 2, 3, 4] };
    let r = Schema::assemble(codex, vec![api], vec![other], 42);
    assert_eq!(r.err(), Some(AssembleError::UnresolvedLibSite(demo_site())));
}

#[test]
fn offset_past_code_end_rejected() {
    let codex = Codex::new(
        "NonInflatableAsset".to_string(),
        "dns:pandoraprime.ch".to_string(),
        0,
        1732529307,
        secp_field_order(),
        CoreConfig::default(),
        CoreConfig::default(),
        vec![(0, LibSite { lib_id: DEMO_LIB_ID, offset: 4 })],
        0,
    )
    .unwrap();
    let mut inner = demo_inner(&codex);
    inner.codex_id = codex.codex_id();
    inner.verifiers = vec![("issue".to_string(), 0)];
    let api = Api::embedded(&codex, inner).unwrap();
    // The library holds four bytes, so offset 4 lies one past its end.
    let r = Schema::assemble(codex, vec![api], vec![demo_lib()], 42);
    assert_eq!(
        r.err(),
        Some(AssembleError::UnresolvedLibSite(LibSite { lib_id: DEMO_LIB_ID, offset: 4 }))
    );
}

#[test]
fn codex_mismatch_rejected() {
    // An API authored over a Codex with a different name, and so a
    // different content id, must be rejected at assembly.
    let codex_a = demo_codex("NonInflatableAsset");
    let codex_b = demo_codex("AnotherAsset");
    assert_ne!(codex_a.codex_id(), codex_b.codex_id());
    let api_b = Api::embedded(&codex_b, demo_inner(&codex_b)).unwrap();
    let foreign_id = codex_b.codex_id();
    let r = Schema::assemble(codex_a, vec![api_b], vec![demo_lib()], 42);
    assert_eq!(r.err(), Some(AssembleError::CodexMismatch(foreign_id)));
}

#[test]
fn assemble_fungible_issuer() {
    // The full fungible-asset template: three verifier sites, four
    // append-only fields, one fungible destructible field, one error
    // message.  Assembly succeeds and the persisted bytes re-parse to a
    // Schema whose Codex id equals the original one.
    let codex = demo_codex("NonInflatableAsset");
    let original_id = codex.codex_id();
    let api = Api::embedded(&codex, demo_inner(&codex)).unwrap();
    let schema = Schema::assemble(codex, vec![api], vec![demo_lib()], 42).unwrap();
    let bytes = schema.encode();
    let reparsed = Schema::decode(&bytes).unwrap();
    assert_eq!(reparsed.codex.codex_id(), original_id);
    assert_eq!(reparsed.schema_id(), schema.schema_id());
    assert_eq!(reparsed.types, 42);
}

#[test]
fn default_config_values() {
    let cfg = CoreConfig::default();
    assert!(cfg.halt);
    assert!(cfg.complexity_lim.is_none());
}

#[test]
fn codex_binds_reports_selectors() {
    let codex = demo_codex("NonInflatableAsset");
    assert!(codex.binds(0));
    assert!(codex.binds(1));
    assert!(codex.binds(0xFF));
    assert!(!codex.binds(2));
}
