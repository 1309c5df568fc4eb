use ncpf::fields::{Kind, ProjectError};
use ncpf::schema::{OverhaulSFRBlock, OverhaulSFRConfiguration, OverhaulStats, NCPF11};
use ncpf::texture::TextureInfo;
use ncpf::value::{Number, Value};

fn s(x: &str) -> Value {
    Value::Str(x.to_string())
}

fn i(x: i64) -> Value {
    Value::Num(Number::Int(x))
}

fn obj(es: Vec<(&str, Value)>) -> Value {
    Value::Object(es.into_iter().map(|(k, v)| (k.to_string(), v)).collect())
}

fn entries(v: &Value) -> &Vec<(String, Value)> {
    match v {
        Value::Object(es) => es,
        _ => panic!("not an object"),
    }
}

fn block(name: &str) -> Value {
    obj(vec![("name", s(name)), ("displayName", s("Block"))])
}

#[test]
fn optional_field_defaults_when_absent() {
    let cfg = obj(vec![("maxSize", i(24)), ("blocks", Value::Array(vec![block("a")]))]);
    let c = OverhaulSFRConfiguration::from_entries(entries(&cfg)).unwrap();
    assert_eq!(c.min_size, None);
    assert_eq!(c.max_size, Some(24));
    assert_eq!(c.blocks.len(), 1);
    let b = &c.blocks[0];
    assert_eq!(b.name, "a");
    assert!(b.legacy_names.is_empty());
    assert!(b.texture.is_none());
    assert!(!b.cluster && !b.block_los);
    assert!(b.recipes.is_empty());
    assert!(b.stats.fuel_cell.is_none());
}

#[test]
fn required_field_missing_names_it() {
    let b = obj(vec![("displayName", s("Block"))]);
    assert_eq!(
        OverhaulSFRBlock::from_value(&b).err(),
        Some(ProjectError::MissingField("name".to_string()))
    );
    let cfg = obj(vec![("minSize", i(1))]);
    assert_eq!(
        OverhaulSFRConfiguration::from_entries(entries(&cfg)).err(),
        Some(ProjectError::MissingField("blocks".to_string()))
    );
}

#[test]
fn wrong_kind_is_a_mismatch() {
    let b = obj(vec![("name", i(3)), ("displayName", s("Block"))]);
    assert_eq!(
        OverhaulSFRBlock::from_value(&b).err(),
        Some(ProjectError::TypeMismatch("name".to_string(), Kind::Str, Kind::Int))
    );
    let cfg = obj(vec![("minSize", i(1i64 << 40)), ("blocks", Value::Array(vec![]))]);
    assert_eq!(
        OverhaulSFRConfiguration::from_entries(entries(&cfg)).err(),
        Some(ProjectError::OutOfRange("minSize".to_string()))
    );
    assert_eq!(
        NCPF11::from_value(&i(1)).err(),
        Some(ProjectError::NotAnObject(Kind::Int))
    );
}

#[test]
fn renamed_key_is_read() {
    let b = obj(vec![("name", s("a")), ("displayName", s("A")), ("blockLOS", Value::Bool(true))]);
    let b = OverhaulSFRBlock::from_value(&b).unwrap();
    assert!(b.block_los);
}

#[test]
fn malformed_texture_is_kept_and_invalid() {
    let tex: Vec<Value> = vec![9, 1, 2, 3, 4, 5, 6, 7, 8, 9].into_iter().map(i).collect();
    let b = obj(vec![("name", s("a")), ("displayName", s("A")), ("texture", Value::Array(tex))]);
    let b = OverhaulSFRBlock::from_value(&b).unwrap();
    let t = b.texture.unwrap();
    assert_eq!(t.0.len(), 10);
    assert!(!t.is_valid());
    assert_eq!(t.side(), None);
}

#[test]
fn texture_side() {
    assert_eq!(TextureInfo(vec![2, 1, 2, 3, 4]).side(), Some(2));
    assert!(TextureInfo(vec![2, 1, 2, 3, 4]).is_valid());
    assert_eq!(TextureInfo(vec![]).side(), None);
    assert_eq!(TextureInfo(vec![0]).side(), None);
    assert_eq!(TextureInfo(vec![-1, 1, 1]).side(), None);
    assert_eq!(TextureInfo(vec![1, 5]).side(), Some(1));
}

#[test]
fn stats_cell_reads_stats_only_with_base_stats() {
    let with = obj(vec![(
        "fuelCell",
        obj(vec![
            ("hasBaseStats", Value::Bool(true)),
            ("efficiency", Value::Num(Number::Float32(1.25f32.to_bits()))),
            ("heat", i(18)),
            ("criticality", i(99)),
        ]),
    )]);
    let st = OverhaulStats::from_entries(entries(&with)).unwrap();
    let cell = st.fuel_cell.unwrap();
    assert_eq!(cell.has_base_stats, Some(true));
    let fc = cell.stats.unwrap();
    assert_eq!(fc.heat, 18);
    assert_eq!(fc.criticality, 99);
    assert!(!fc.self_priming);
    assert_eq!(fc.efficiency, Number::Float32(1.25f32.to_bits()));

    let without = obj(vec![("heatsink", obj(vec![("cooling", s("ignored"))]))]);
    let st = OverhaulStats::from_entries(entries(&without)).unwrap();
    let cell = st.heat_sink.unwrap();
    assert_eq!(cell.has_base_stats, None);
    assert!(cell.stats.is_none());

    let broken = obj(vec![("moderator", obj(vec![("hasBaseStats", Value::Bool(true))]))]);
    assert_eq!(
        OverhaulStats::from_entries(entries(&broken)).err(),
        Some(ProjectError::MissingField("flux".to_string()))
    );
}

#[test]
fn whole_document() {
    let recipe = obj(vec![
        ("input", obj(vec![("name", s("in")), ("displayName", s("In")), ("rate", i(2))])),
        ("output", obj(vec![("name", s("out")), ("displayName", s("Out"))])),
    ]);
    let b = obj(vec![
        ("name", s("cell")),
        ("displayName", s("Cell")),
        ("legacyNames", Value::Array(vec![s("old")])),
        ("recipes", Value::Array(vec![recipe])),
        ("unknownKey", i(1)),
    ]);
    let doc = obj(vec![
        ("addon", Value::Bool(false)),
        ("name", s("cfg")),
        ("version", s("1")),
        ("underhaulVersion", s("2")),
        ("overhaul", obj(vec![("fissionSFR", obj(vec![("blocks", Value::Array(vec![b]))]))])),
    ]);
    let d = NCPF11::from_value(&doc).unwrap();
    assert_eq!(d.underhaul_version, "2");
    let blk = &d.overhaul.fission_sfr.blocks[0];
    assert_eq!(blk.legacy_names, vec!["old".to_string()]);
    assert_eq!(blk.recipes[0].input.rate, 2);
    assert_eq!(blk.recipes[0].output.rate, 0);
    assert_eq!(blk.recipes[0].output.name, "out");
}

#[test]
fn texture_description() {
    assert_eq!(TextureInfo(vec![2, 1, 2, 3, 4]).describe(), "[2x2 texture]");
    let mut big = vec![12];
    big.extend(std::iter::repeat(0).take(144));
    assert_eq!(TextureInfo(big).describe(), "[12x12 texture]");
    assert_eq!(TextureInfo(vec![9, 1, 2, 3]).describe(), "[invalid texture]");
    assert_eq!(TextureInfo(vec![]).describe(), "[invalid texture]");
}

#[test]
fn unset_base_stats_ignore_sibling_keys() {
    let st = obj(vec![(
        "fuelCell",
        obj(vec![
            ("hasBaseStats", Value::Bool(false)),
            ("efficiency", i(1)),
            ("heat", i(10)),
            ("criticality", i(20)),
        ]),
    )]);
    let cell = OverhaulStats::from_entries(entries(&st)).unwrap().fuel_cell.unwrap();
    assert_eq!(cell.has_base_stats, Some(false));
    assert!(cell.stats.is_none());
}

#[test]
fn set_base_stats_apply_required_rules() {
    let st = obj(vec![(
        "fuelCell",
        obj(vec![("hasBaseStats", Value::Bool(true)), ("efficiency", i(1)), ("criticality", i(20))]),
    )]);
    assert_eq!(
        OverhaulStats::from_entries(entries(&st)).err(),
        Some(ProjectError::MissingField("heat".to_string()))
    );
}

#[test]
fn optional_field_of_wrong_kind_is_a_mismatch() {
    let cfg = obj(vec![("minSize", s("x")), ("blocks", Value::Array(vec![]))]);
    assert_eq!(
        OverhaulSFRConfiguration::from_entries(entries(&cfg)).err(),
        Some(ProjectError::TypeMismatch("minSize".to_string(), Kind::Int, Kind::Str))
    );
}

#[test]
fn unknown_keys_are_ignored() {
    let plain = obj(vec![("name", s("a")), ("displayName", s("A")), ("casing", Value::Bool(true))]);
    let extra = obj(vec![
        ("name", s("a")),
        ("extra", obj(vec![("deep", i(1))])),
        ("displayName", s("A")),
        ("casing", Value::Bool(true)),
    ]);
    let a = OverhaulSFRBlock::from_value(&plain).unwrap();
    let b = OverhaulSFRBlock::from_value(&extra).unwrap();
    assert_eq!(format!("{a:?}"), format!("{b:?}"));
}

#[test]
fn bad_block_in_document_fails_projection() {
    let doc = obj(vec![
        ("addon", Value::Bool(false)),
        ("name", s("cfg")),
        ("version", s("1")),
        ("underhaulVersion", s("2")),
        (
            "overhaul",
            obj(vec![(
                "fissionSFR",
                obj(vec![("blocks", Value::Array(vec![obj(vec![("displayName", s("B"))])]))]),
            )]),
        ),
    ]);
    assert_eq!(
        NCPF11::from_value(&doc).err(),
        Some(ProjectError::MissingField("name".to_string()))
    );
}
