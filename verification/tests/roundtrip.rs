use issuer_schema::api::{
    Adaptor, Api, ApiInner, AppendApi, Arithm, CallState, DestructibleApi,
};
use issuer_schema::codex::{Codex, CoreConfig, LibSite};
use issuer_schema::encode::{emit_bool, emit_str, emit_u16, emit_u64, fnv1a_hash};
use issuer_schema::schema::{Schema, ScriptLib};
use issuer_schema::uint256::U256;

fn sample_codex() -> Codex {
    let site = LibSite { lib_id: 7, offset: 0 };
    Codex::new(
        "NonInflatableAsset".to_string(),
        "dns:pandoraprime.ch".to_string(),
        0,
        1732529307,
        U256 {
            hi: 0xFFFF_FFFF_FFFF_FFFF_FFFF_FFFF_FFFF_FFFF,
            lo: 0xFFFF_FFFF_FFFF_FFFF_FFFF_FFFE_FFFF_FC2F,
        },
        CoreConfig::default(),
        CoreConfig::default(),
        vec![(0, site), (1, site), (0xFF, site)],
        0,
    )
    .unwrap()
}

fn sample_inner(codex: &Codex) -> ApiInner {
    ApiInner {
        version: 0,
        codex_id: codex.codex_id(),
        timestamp: 1732529307,
        name: None,
        developer: "dns:pandoraprime.ch".to_string(),
        conforms: Some("RGB20".to_string()),
        default_call: Some(CallState {
            method: "transfer".to_string(),
            destructible: "owned".to_string(),
        }),
        reserved: 0,
        append_only: vec![
            (
                "name".to_string(),
                AppendApi {
                    sem_id: 101,
                    raw_sem_id: 0,
                    published: true,
                    adaptor: Adaptor::Immutable(U256 { hi: 0, lo: 0 }),
                },
            ),
            (
                "ticker".to_string(),
                AppendApi {
                    sem_id: 102,
                    raw_sem_id: 0,
                    published: true,
                    adaptor: Adaptor::Immutable(U256 { hi: 0, lo: 1 }),
                },
            ),
        ],
        destructible: vec![(
            "owned".to_string(),
            DestructibleApi {
                sem_id: 104,
                arithmetics: Arithm::Fungible,
                adaptor: Adaptor::Immutable(U256 { hi: 0, lo: 0 }),
            },
        )],
        readers: vec![],
        verifiers: vec![
            ("issue".to_string(), 0),
            ("transfer".to_string(), 1),
            ("_".to_string(), 0xFF),
        ],
        errors: vec![(
            U256 { hi: 0, lo: 0 },
            "sum of inputs is not equal to sum of outputs".to_string(),
        )],
    }
}

fn sample_schema() -> Schema {
    let codex = sample_codex();
    let api = Api::embedded(&codex, sample_inner(&codex)).unwrap();
    let lib = ScriptLib { lib_id: 7, code: vec![1, 2, 3, 4] };
    Schema::assemble(codex, vec![api], vec![lib], 42).unwrap()
}

#[test]
fn encoding_primitives_exact() {
    let mut out: Vec<u8> = Vec::new();
    emit_u16(&mut out, 0x1234);
    assert_eq!(out, vec![0x34, 0x12]);

    let mut out: Vec<u8> = Vec::new();
    emit_u64(&mut out, 0x0102_0304_0506_0708);
    assert_eq!(out, vec![0x08, 0x07, 0x06, 0x05, 0x04, 0x03, 0x02, 0x01]);

    let mut out: Vec<u8> = Vec::new();
    emit_bool(&mut out, true);
    emit_bool(&mut out, false);
    assert_eq!(out, vec![1, 0]);

    let mut out: Vec<u8> = Vec::new();
    emit_str(&mut out, "AB");
    assert_eq!(
        out,
        vec![2, 0, 0, 0, 0, 0, 0, 0, 0x41, 0, 0, 0, 0x42, 0, 0, 0]
    );
}

#[test]
fn wide_value_constructors() {
    assert_eq!(U256::zero(), U256 { hi: 0, lo: 0 });
    assert_eq!(U256::from_u64(5), U256 { hi: 0, lo: 5 });
    assert_eq!(U256::from_u64(u64::MAX), U256 { hi: 0, lo: 0xFFFF_FFFF_FFFF_FFFF });
}

#[test]
fn fnv_digest_known_values() {
    assert_eq!(fnv1a_hash(&vec![]), 0xcbf2_9ce4_8422_2325);
    // FNV-1a of the single byte 0x61.
    assert_eq!(fnv1a_hash(&vec![0x61]), 0xaf63_dc4c_8601_ec8c);
}

#[test]
fn deterministic_encoding() {
    // Two schemas assembled from equal parts have byte-identical
    // canonical encodings and equal derived ids.
    let s1 = sample_schema();
    let s2 = sample_schema();
    assert_eq!(s1.encode(), s2.encode());
    assert_eq!(s1.schema_id(), s2.schema_id());
    assert_eq!(s1.codex.codex_id(), s2.codex.codex_id());
}

#[test]
fn selector_order_does_not_change_codex_id() {
    // The canonical encoding walks the selector space in ascending
    // order, so the id depends on the mapping alone.
    let site = LibSite { lib_id: 7, offset: 0 };
    let make = |sels: Vec<(u8, LibSite)>| {
        Codex::new(
            "NonInflatableAsset".to_string(),
            "dns:pandoraprime.ch".to_string(),
            0,
            1732529307,
            U256 { hi: 0, lo: 977 },
            CoreConfig::default(),
            CoreConfig::default(),
            sels,
            0,
        )
        .unwrap()
    };
    let a = make(vec![(0, site), (1, site), (0xFF, site)]);
    let b = make(vec![(0xFF, site), (0, site), (1, site)]);
    assert_eq!(a.codex_id(), b.codex_id());
}

#[test]
fn stored_ids_at_fixed_offsets() {
    // The encoding leads with the stored Codex id and schema id, so a
    // consumer can read both at fixed offsets and check them against the
    // recomputed ones.
    let schema = sample_schema();
    let bytes = schema.encode();
    let cid = u64::from_le_bytes(bytes[0..8].try_into().unwrap());
    let sid = u64::from_le_bytes(bytes[8..16].try_into().unwrap());
    assert_eq!(cid, schema.codex.codex_id());
    assert_eq!(sid, schema.schema_id());
}

#[test]
fn round_trip_preserves_value() {
    let schema = sample_schema();
    let bytes = schema.encode();
    let reparsed = Schema::decode(&bytes).unwrap();
    // Equality by canonical encoding, and field by field on the parts
    // the decoder had to rebuild through the validating constructors.
    assert_eq!(reparsed.encode(), bytes);
    assert_eq!(reparsed.codex.name, "NonInflatableAsset");
    assert_eq!(reparsed.codex.developer, "dns:pandoraprime.ch");
    assert_eq!(reparsed.codex.timestamp, 1732529307);
    assert_eq!(reparsed.codex.verifiers.len(), 3);
    assert_eq!(reparsed.apis.len(), 1);
    let Api::Embedded(inner) = &reparsed.apis[0];
    assert_eq!(inner.conforms.as_deref(), Some("RGB20"));
    assert_eq!(inner.append_only.len(), 2);
    assert_eq!(inner.append_only[0].0, "name");
    assert_eq!(inner.destructible[0].0, "owned");
    assert_eq!(inner.verifiers[2].0, "_");
    assert_eq!(
        inner.errors[0].1,
        "sum of inputs is not equal to sum of outputs"
    );
    assert_eq!(reparsed.libs[0].code, vec![1, 2, 3, 4]);
    assert_eq!(reparsed.types, 42);
}

#[test]
fn corrupted_byte_fails_decode() {
    // Flipping any single byte of the encoding must make decoding fail:
    // it must never silently yield a different valid Schema.
    let schema = sample_schema();
    let bytes = schema.encode();
    for i in 0..bytes.len() {
        let mut corrupt = bytes.clone();
        corrupt[i] ^= 0x01;
        assert!(
            Schema::decode(&corrupt).is_err(),
            "decode succeeded with byte {} flipped",
            i
        );
    }
}

#[test]
fn truncated_input_fails() {
    let schema = sample_schema();
    let bytes = schema.encode();
    assert!(Schema::decode(&vec![]).is_err());
    for cut in [1usize, 8, bytes.len() / 2, bytes.len() - 1] {
        let shorter: Vec<u8> = bytes[..cut].to_vec();
        assert!(Schema::decode(&shorter).is_err(), "decode succeeded cut at {}", cut);
    }
}

#[test]
fn trailing_bytes_fail() {
    let schema = sample_schema();
    let mut bytes = schema.encode();
    bytes.push(0);
    assert!(Schema::decode(&bytes).is_err());
}

#[test]
fn surrogate_char_fails_decode() {
    // After the two stored ids the Codex name follows: its length at
    // bytes 16..24, its first character at bytes 24..28.  A surrogate
    // code point there is not a character.
    let schema = sample_schema();
    let mut bytes = schema.encode();
    bytes[24] = 0x00;
    bytes[25] = 0xD8;
    bytes[26] = 0x00;
    bytes[27] = 0x00;
    assert!(Schema::decode(&bytes).is_err());
}

#[test]
fn unicode_names_round_trip() {
    // Names outside ASCII survive the four-byte character encoding.
    let site = LibSite { lib_id: 9, offset: 1 };
    let codex = Codex::new(
        "Actif non inflatable \u{2014} \u{20BF}".to_string(),
        "dns:pandoraprime.ch".to_string(),
        1,
        1732529307,
        U256 { hi: 1, lo: 2 },
        CoreConfig::default(),
        CoreConfig::default(),
        vec![(3, site)],
        0,
    )
    .unwrap();
    let mut inner = sample_inner(&codex);
    inner.codex_id = codex.codex_id();
    inner.verifiers = vec![("\u{00E9}mission".to_string(), 3)];
    let api = Api::embedded(&codex, inner).unwrap();
    let lib = ScriptLib { lib_id: 9, code: vec![0, 0] };
    let schema = Schema::assemble(codex, vec![api], vec![lib], 1).unwrap();
    let bytes = schema.encode();
    let reparsed = Schema::decode(&bytes).unwrap();
    assert_eq!(reparsed.codex.name, "Actif non inflatable \u{2014} \u{20BF}");
    let Api::Embedded(inner2) = &reparsed.apis[0];
    assert_eq!(inner2.verifiers[0].0, "\u{00E9}mission");
}
