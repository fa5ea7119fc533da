use dml_tools::assign::{non_roster_fields, AsgRoles, AsgTables, AssignSpec};
use dml_tools::sql::{FKOn, Field, FieldAttributes, FieldType, ForeignKey, ObjectPath, ObjectType};
use dml_tools::text::{clone_strings, join_strings};

#[test]
fn path_constructors() {
    let t = ObjectPath::new_table("demo", "prueba");
    assert_eq!(t.schema.as_deref(), Some("demo"));
    assert_eq!(t.name, "prueba");
    assert_eq!(t.otype, ObjectType::Table);
    let s = ObjectPath::new_table_only("demo");
    assert_eq!(s.schema, None);
    assert_eq!(s.name, "demo");
    assert_eq!(s.otype, ObjectType::Schema);
    let q = ObjectPath::new_sequence("demo", "seq");
    assert_eq!(q.schema.as_deref(), Some("demo"));
    assert_eq!(q.otype, ObjectType::Sequence);
}

#[test]
fn full_names() {
    assert_eq!(ObjectPath::new_table("demo", "prueba").full_name(), "demo.prueba");
    assert_eq!(ObjectPath::new_table_only("demo").full_name(), "demo");
    assert_eq!(ObjectPath::new_table("", "t").full_name(), ".t");
}

#[test]
fn equality_of_paths() {
    let a = ObjectPath::new_table("demo", "prueba");
    assert!(a.is_equal(&a.clone()));
    assert!(a.is_equal(&ObjectPath::new_table("demo", "prueba")));
    assert!(!a.is_equal(&ObjectPath::new_table("demo", "other")));
    assert!(!a.is_equal(&ObjectPath::new_table("other", "prueba")));
    assert!(!a.is_equal(&ObjectPath::new_sequence("demo", "prueba")));
    let bare = ObjectPath { schema: None, name: "t".to_string(), otype: ObjectType::Table };
    let blank = ObjectPath { schema: Some(String::new()), name: "t".to_string(), otype: ObjectType::Table };
    assert!(!bare.is_equal(&blank));
    assert!(!blank.is_equal(&bare));
    assert_ne!(bare.full_name(), blank.full_name());
    assert!(bare.is_equal(&bare));
    assert!(blank.is_equal(&blank));
    assert!(bare.is_equal(&bare.clone()));
    assert!(!bare.is_equal(&ObjectPath::new_table("s", "t")));
    assert!(!ObjectPath::new_table("s", "t").is_equal(&bare));
}

#[test]
fn equality_of_paths_is_symmetric() {
    let paths = [
        ObjectPath::new_table("demo", "prueba"),
        ObjectPath::new_table("demo", "other"),
        ObjectPath::new_sequence("demo", "prueba"),
        ObjectPath::new_table_only("prueba"),
        ObjectPath { schema: None, name: "prueba".to_string(), otype: ObjectType::Table },
        ObjectPath { schema: Some(String::new()), name: "prueba".to_string(), otype: ObjectType::Table },
    ];
    for (i, a) in paths.iter().enumerate() {
        for (j, b) in paths.iter().enumerate() {
            assert_eq!(a.is_equal(b), i == j);
            assert_eq!(a.is_equal(b), b.is_equal(a));
        }
    }
}

#[test]
fn keywords() {
    assert_eq!(ObjectType::Table.to_string(), "TABLE");
    assert_eq!(ObjectType::Sequence.to_string(), "SEQUENCE");
    assert_eq!(ObjectType::Schema.to_string(), "SCHEMA");
    assert_eq!(ObjectType::default(), ObjectType::Table);
    assert_eq!(FKOn::Restrict.to_string(), "RESTRICT");
    assert_eq!(FKOn::Cascade.to_string(), "CASCADE");
    assert_eq!(FKOn::default(), FKOn::Restrict);
}

#[test]
fn joining() {
    let none: Vec<String> = Vec::new();
    assert_eq!(join_strings(&none, ","), "");
    assert_eq!(join_strings(&vec!["a".to_string()], ","), "a");
    assert_eq!(join_strings(&vec!["a".to_string(), "b".to_string(), "c".to_string()], ",\n  "), "a,\n  b,\n  c");
    assert_eq!(join_strings(&vec!["".to_string(), "".to_string()], "_"), "_");
    assert_eq!(join_strings(&vec!["a".to_string(), "b".to_string()], ""), "ab");
    let names = vec!["x".to_string(), "y".to_string()];
    assert_eq!(clone_strings(&names), names);
}

#[test]
fn assignment_names() {
    let spec = AssignSpec {
        schema: "demo".to_string(),
        tables: AsgTables::default(),
        roles: AsgRoles::default(),
        fields_file: "fields.yaml".to_string(),
    };
    assert_eq!(spec.table_main(), "demo.asignaciones");
    assert_eq!(spec.table_cache(), "demo.asignaciones_cache");
    assert_eq!(spec.table_users(), "demo.users");
    assert!(spec.path_table_main().is_equal(&ObjectPath::new_table("demo", "asignaciones")));
    assert!(spec.path_table_cache().is_equal(&ObjectPath::new_table("demo", "asignaciones_cache")));
    assert!(spec.path_table_users().is_equal(&ObjectPath::new_table("demo", "users")));
    assert_eq!(spec.roles.rw, "dnecv_rw");
    assert_eq!(spec.roles.ro, "dnecv_ro");
    assert_eq!(spec.roles.upd, "dnecv_upd");
    let other = AssignSpec { tables: AsgTables::new("m", "c", "u"), ..spec };
    assert_eq!(other.table_main(), "demo.m");
    assert_eq!(other.table_cache(), "demo.c");
    assert_eq!(other.path_table_users().full_name(), "demo.u");
}

fn demo_spec() -> AssignSpec {
    AssignSpec {
        schema: "demo".to_string(),
        tables: AsgTables::default(),
        roles: AsgRoles::default(),
        fields_file: "fields.yaml".to_string(),
    }
}

fn key_between(table: ObjectPath, ref_table: ObjectPath) -> ForeignKey {
    ForeignKey {
        table,
        fields: vec!["a".to_string()],
        ref_table,
        ref_fields: vec!["b".to_string(), "c".to_string()],
        on_delete: FKOn::Cascade,
        on_update: FKOn::Restrict,
    }
}

#[test]
fn declared_schema_is_cross_checked() {
    let spec = demo_spec();
    assert_eq!(spec.has_schema(&None).unwrap(), false);
    assert_eq!(spec.has_schema(&Some("demo".to_string())).unwrap(), true);
    let mismatch = spec.has_schema(&Some("other".to_string())).unwrap_err();
    assert_eq!(mismatch.expected, "demo");
    assert_eq!(mismatch.found, "other");
    assert!(spec.has_schema(&Some(String::new())).is_err());
}

#[test]
fn foreign_keys_are_moved_into_the_schema() {
    let spec = demo_spec();
    let bare = |name: &str| ObjectPath { schema: None, name: name.to_string(), otype: ObjectType::Sequence };
    let stays = key_between(ObjectPath::new_table("demo", "t"), ObjectPath::new_table("demo", "u"));
    assert!(spec.normalize_foreign_key(&stays).unwrap().is_none());

    let moved = spec.normalize_foreign_key(&key_between(bare("t"), bare("u"))).unwrap().unwrap();
    assert!(moved.table.is_equal(&ObjectPath::new_table("demo", "t")));
    assert!(moved.ref_table.is_equal(&ObjectPath::new_table("demo", "u")));
    assert_eq!(moved.fields, vec!["a".to_string()]);
    assert_eq!(moved.ref_fields, vec!["b".to_string(), "c".to_string()]);
    assert_eq!(moved.on_delete, FKOn::Cascade);
    assert_eq!(moved.on_update, FKOn::Restrict);

    let half = key_between(ObjectPath::new_table("demo", "t"), bare("u"));
    let moved = spec.normalize_foreign_key(&half).unwrap().unwrap();
    assert!(moved.ref_table.is_equal(&ObjectPath::new_table("demo", "u")));

    let unchecked = key_between(bare("t"), ObjectPath::new_table("other", "u"));
    let moved = spec.normalize_foreign_key(&unchecked).unwrap().unwrap();
    assert!(moved.ref_table.is_equal(&ObjectPath::new_table("demo", "u")));

    let wrong = key_between(ObjectPath::new_table("other", "t"), ObjectPath::new_table("demo", "u"));
    assert_eq!(spec.normalize_foreign_key(&wrong).unwrap_err().found, "other");
    let wrong = key_between(ObjectPath::new_table("demo", "t"), ObjectPath::new_table("else", "u"));
    let mismatch = spec.normalize_foreign_key(&wrong).unwrap_err();
    assert_eq!((mismatch.expected.as_str(), mismatch.found.as_str()), ("demo", "else"));
}

#[test]
fn roster_fields_are_left_out_of_the_non_roster_variant() {
    let mut roster = FieldAttributes::new(FieldType::Int);
    roster.roster = true;
    let fields = vec![
        Field::new("gallo", &roster),
        Field::new("id", &FieldAttributes::new_pk(FieldType::Txt)),
        Field::new("hog_sens", &roster),
        Field::new("tel", &FieldAttributes::new_meta(FieldType::Txt, "TEL")),
    ];
    let kept = non_roster_fields(&fields);
    assert_eq!(kept, vec![fields[1].clone(), fields[3].clone()]);
    assert!(non_roster_fields(&Vec::new()).is_empty());
    assert!(non_roster_fields(&vec![fields[0].clone()]).is_empty());
}
