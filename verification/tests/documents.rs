use dml_tools::assign::AsgFields;
use dml_tools::document::codec::DocumentError;
use dml_tools::document::read::{read_object, read_objects, read_path};
use dml_tools::document::tree::{Entry, Node};
use dml_tools::document::write::{object_to_node, objects_to_node, path_to_node};
use dml_tools::document::yaml::read_yaml;
use dml_tools::sql::{
    DBObject, FKOn, Field, FieldAttributes, FieldType, ForeignKey, Grant, GrantType, Index,
    ObjectPath, ObjectType, Owner, PrimaryKey, Schema, Table, TableError, UniqueKey,
};
use dml_tools::type_writers::Postgresql;
use dml_tools::Loader;
use dml_tools::Processor;

fn load_error(text: &str) -> DocumentError {
    match Loader::new(text) {
        Ok(_) => panic!("loaded: {}", text),
        Err(e) => e,
    }
}

fn every_kind() -> Vec<DBObject> {
    let path = ObjectPath::new_table("s", "t");
    let key = ForeignKey {
        table: path.clone(),
        fields: vec!["a".to_string()],
        ref_table: ObjectPath::new_table("s", "u"),
        ref_fields: vec!["b".to_string()],
        on_delete: FKOn::Cascade,
        on_update: FKOn::Restrict,
    };
    let mut odd = FieldAttributes::new_nn_def(FieldType::Txt, "null");
    odd.meta_name = Some("true".to_string());
    odd.roster = true;
    odd.only_db = true;
    let fields = vec![
        Field::new("a", &FieldAttributes::new_uk_pk(FieldType::AutoInc)),
        Field::new("role", &odd),
        Field::new("12", &FieldAttributes::new_nn_idx(FieldType::Dbl)),
    ];
    vec![
        DBObject::Schema(Schema::new("s", "o")),
        DBObject::Table(Table::new(&path, fields, Some(vec![key.clone()])).unwrap()),
        DBObject::Grant(Grant::new(GrantType::References, "r", &ObjectPath::new_sequence("s", "q"))),
        DBObject::Owner(Owner::new("o", &ObjectPath::new_table_only("s"))),
        DBObject::Index(Index::new(&path, &vec!["a".to_string(), "role".to_string()])),
        DBObject::PrimaryKey(PrimaryKey { name: "p".to_string(), fields: vec!["a".to_string()] }),
        DBObject::UniqueKey(UniqueKey { name: "u".to_string(), fields: Vec::new() }),
        DBObject::ForeignKey(key),
        DBObject::Field(Field::new("~", &FieldAttributes::new(FieldType::BigInt))),
        DBObject::Table(Table::new(&ObjectPath::new_table("s", "empty"), Vec::new(), None).unwrap()),
    ]
}

#[test]
fn written_text_is_read_back_and_written_the_same() {
    let objects = every_kind();
    let first = Processor::new_with_objects(&objects, Postgresql {});
    let text = first.serialize_to_yaml().unwrap();
    let loader = Loader::new(&text).unwrap();
    assert_eq!(format!("{:?}", loader.objects()), format!("{:?}", objects));
    let second = Processor::new_with_objects(loader.objects(), Postgresql {});
    assert_eq!(second.serialize_to_yaml().unwrap(), text);
}

#[test]
fn written_document_is_read_back() {
    let objects = every_kind();
    let document = objects_to_node(&objects);
    let back = read_objects(&document).unwrap();
    assert_eq!(format!("{:?}", back), format!("{:?}", objects));
    assert_eq!(format!("{:?}", objects_to_node(&back)), format!("{:?}", document));
    for object in objects.iter() {
        let node = object_to_node(object);
        assert_eq!(format!("{:?}", read_object(&node).unwrap()), format!("{:?}", object));
    }
}

#[test]
fn empty_list_of_objects() {
    let proc = Processor::new(Postgresql {});
    let text = proc.serialize_to_yaml().unwrap();
    assert_eq!(text, "[]\n");
    let loader = Loader::new(&text).unwrap();
    assert!(loader.objects().is_empty());
}

#[test]
fn text_of_a_small_document() {
    let mut proc = Processor::new(Postgresql {});
    proc.add_owner("o", &ObjectPath::new_table_only("s"));
    assert_eq!(
        proc.serialize_to_yaml().unwrap(),
        "- tag: Owner\n  to: o\n  of:\n    schema: null\n    name: s\n    type: Schema\n"
    );
}

#[test]
fn defaults_of_missing_keys() {
    let text = "\
- tag: ForeignKey
  table: {name: t}
  fields: [a]
  ref_table: {schema: s, name: u, type: Table}
  ref_fields: [b]
- tag: Field
  name: f
  attributes: {type: bigint, unknown_key: 7}
  another_unknown_key: [1, 2]
";
    let loader = Loader::new(text).unwrap();
    match &loader.objects()[0] {
        DBObject::ForeignKey(k) => {
            assert_eq!(k.table.schema, None);
            assert_eq!(k.table.otype, ObjectType::Table);
            assert_eq!(k.on_delete, FKOn::Restrict);
            assert_eq!(k.on_update, FKOn::Restrict);
        }
        other => panic!("{:?}", other),
    }
    match &loader.objects()[1] {
        DBObject::Field(f) => {
            assert_eq!(f.attributes, FieldAttributes::new(FieldType::BigInt));
        }
        other => panic!("{:?}", other),
    }
}

#[test]
fn kind_of_a_path_under_either_key() {
    let read = |text: &str| read_path(&read_yaml(text).unwrap());
    assert_eq!(read("{name: a, type: Sequence}").unwrap().otype, ObjectType::Sequence);
    assert_eq!(read("{name: a, otype: Schema}").unwrap().otype, ObjectType::Schema);
    assert_eq!(read("{name: a, type: Sequence, otype: Schema}").unwrap().otype, ObjectType::Sequence);
    assert_eq!(read("{name: a}").unwrap().otype, ObjectType::Table);
    assert!(matches!(read("{name: a, type: table}"), Err(DocumentError::UnknownValue(t)) if t == "table"));
    assert!(matches!(read("{name: a, type: 3}"), Err(DocumentError::WrongType(k)) if k == "type"));
    assert!(matches!(read("{schema: s}"), Err(DocumentError::MissingKey(k)) if k == "name"));
    assert!(matches!(read("{schema: [s], name: a}"), Err(DocumentError::WrongType(k)) if k == "schema"));
    assert!(matches!(read("[a]"), Err(DocumentError::NotAMapping)));
    let path = ObjectPath::new_sequence("s", "q");
    assert!(read_path(&path_to_node(&path)).unwrap().is_equal(&path));
}

#[test]
fn merge_keys_are_resolved() {
    let text = "\
defaults: &text_key
  primary_key: true
  empty: false
basic:
  id:
    <<: *text_key
  ws:
    <<: *text_key
    empty: true
  n:
    <<: [*text_key, {type: int, empty: true}]
";
    let fields = AsgFields::from_yaml(text).unwrap();
    assert_eq!(fields.basic.len(), 3);
    assert_eq!(fields.basic[0], Field::new("id", &FieldAttributes::new_pk(FieldType::Txt)));
    let mut ws = FieldAttributes::new_pk(FieldType::Txt);
    ws.empty = true;
    assert_eq!(fields.basic[1], Field::new("ws", &ws));
    assert_eq!(fields.basic[2], Field::new("n", &FieldAttributes::new_pk(FieldType::Int)));
    assert!(fields.sensitization.is_none());
}

#[test]
fn description_with_foreign_keys_is_written_and_read_back() {
    let text = "\
basic:
  ws_id: {index: true}
sensitization: ~
foreign_keys:
  - table: {schema: demo, name: prueba, type: Table}
    fields: [ws_id, user_id]
    ref_table: {schema: demo, name: cache}
    ref_fields: [ws, user]
    on_update: cascade
";
    let fields = AsgFields::from_yaml(text).unwrap();
    let keys = fields.fks.as_ref().unwrap();
    assert_eq!(keys.len(), 1);
    assert_eq!(keys[0].fields, vec!["ws_id".to_string(), "user_id".to_string()]);
    assert_eq!(keys[0].on_delete, FKOn::Restrict);
    assert_eq!(keys[0].on_update, FKOn::Cascade);
    assert!(keys[0].ref_table.is_equal(&ObjectPath::new_table("demo", "cache")));
    let written = fields.to_yaml().unwrap();
    let back = AsgFields::from_yaml(&written).unwrap();
    assert_eq!(format!("{:?}", back), format!("{:?}", fields));
    assert_eq!(back.to_yaml().unwrap(), written);
    let from_node = AsgFields::from_node(&fields.to_node()).unwrap();
    assert_eq!(format!("{:?}", from_node), format!("{:?}", fields));
}

#[test]
fn faults_of_a_description() {
    let fault = |text: &str| AsgFields::from_yaml(text).unwrap_err();
    assert!(matches!(fault("[]"), DocumentError::NotAMapping));
    assert!(matches!(fault("{}"), DocumentError::MissingKey(k) if k == "basic"));
    assert!(matches!(fault("basic: [a]"), DocumentError::NotAMapping));
    assert!(matches!(fault("basic: {a: ~}"), DocumentError::NotAMapping));
    assert!(matches!(fault("basic: {[a]: {}}"), DocumentError::KeyNotText));
    assert!(matches!(fault("basic: {a: {type: varchar}}"), DocumentError::UnknownValue(t) if t == "varchar"));
    assert!(matches!(fault("basic: {a: {unique: 1}}"), DocumentError::WrongType(k) if k == "unique"));
    assert!(matches!(fault("basic: {a: {defval: 4}}"), DocumentError::WrongType(k) if k == "defval"));
    assert!(matches!(fault("basic: {}\nsensitization: 3"), DocumentError::NotAMapping));
    assert!(matches!(fault("basic: {}\nforeign_keys: {}"), DocumentError::WrongType(k) if k == "foreign_keys"));
    assert!(matches!(
        fault("basic: {}\nforeign_keys: [{table: {name: t}, fields: [a], ref_table: {name: u}, ref_fields: [b], on_delete: drop}]"),
        DocumentError::UnknownValue(t) if t == "drop"
    ));
}

#[test]
fn faults_of_an_object_document() {
    assert!(matches!(load_error("- tag: ["), DocumentError::Syntax(_)));
    assert!(matches!(load_error("- {tag: Schema, <<: 4}"), DocumentError::InvalidMergeValue));
    assert!(matches!(load_error("tag: Schema"), DocumentError::NotAList));
    assert!(matches!(load_error("- Schema"), DocumentError::NotAMapping));
    assert!(matches!(load_error("- {name: s, owner: o}"), DocumentError::MissingKey(k) if k == "tag"));
    assert!(matches!(load_error("- {tag: View}"), DocumentError::UnknownValue(t) if t == "View"));
    assert!(matches!(load_error("- {tag: Schema, name: s}"), DocumentError::MissingKey(k) if k == "owner"));
    assert!(matches!(load_error("- {tag: Schema, name: 1, owner: o}"), DocumentError::WrongType(k) if k == "name"));
    assert!(matches!(
        load_error("- {tag: Grant, permission: Drop, to: x, on: {name: a}}"),
        DocumentError::UnknownValue(t) if t == "Drop"
    ));
    assert!(matches!(load_error("- {tag: Owner, to: x}"), DocumentError::MissingKey(k) if k == "of"));
    assert!(matches!(load_error("- {tag: Owner, to: x, of: a}"), DocumentError::NotAMapping));
    assert!(matches!(
        load_error("- {tag: Index, table: {name: t}, fields: [a, [b]]}"),
        DocumentError::WrongType(k) if k == "fields"
    ));
    assert!(matches!(
        load_error("- {tag: PrimaryKey, name: p, fields: a}"),
        DocumentError::WrongType(k) if k == "fields"
    ));
    assert!(matches!(
        load_error("- {tag: Table, path: {name: t}}"),
        DocumentError::MissingKey(k) if k == "fields"
    ));
    assert!(matches!(
        load_error("- {tag: Table, path: {name: t}, fields: {}}"),
        DocumentError::WrongType(k) if k == "fields"
    ));
    assert!(matches!(
        load_error("- {tag: Field, name: f}"),
        DocumentError::MissingKey(k) if k == "attributes"
    ));
}

#[test]
fn reserved_key_is_refused() {
    let key = "70235535-46bb-46f9-b535-31596b77733f";
    let value = "b5282e53-aaaf-4f67-a0b5-d5bb3bd0d4d2";
    let text = format!("- {{{}: '', {}: x}}\n", key, value);
    assert!(matches!(load_error(&text), DocumentError::ReservedKey));
    let text = format!("- tag: Schema\n  name: s\n  owner: [{{a: {{{}: 1}}}}]\n", key);
    assert!(matches!(load_error(&text), DocumentError::ReservedKey));
    let text = format!("- tag: Schema\n  name: {}\n  owner: o\n", key);
    assert_eq!(Loader::new(&text).unwrap().objects().len(), 1);
    assert!(read_yaml(&format!("{}: 1", value)).is_ok());
    assert!(read_yaml(&format!("a: !t {{{}: 1}}", key)).is_err());
    assert!(read_yaml("a: 1").unwrap().get("a").is_some());
    assert!(!read_yaml("[{a: [1, {b: c}]}, d]").unwrap().has_key("c"));
    assert!(read_yaml("[{a: [1, {b: c}]}, d]").unwrap().has_key("b"));
    assert!(read_yaml("[{{x: y}: 1}]").unwrap().has_key("x"));
}

#[test]
fn repeated_names_cannot_be_keys() {
    let attributes = FieldAttributes::new(FieldType::Int);
    let twice = vec![
        Field::new("a", &attributes),
        Field::new("b", &attributes),
        Field::new("a", &attributes),
    ];
    let once = vec![Field::new("a", &attributes)];
    let d = AsgFields { basic: twice.clone(), sensitization: None, fks: None };
    assert!(matches!(d.to_yaml(), Err(DocumentError::RepeatedNames(n)) if n == vec!["a".to_string()]));
    let d = AsgFields { basic: once.clone(), sensitization: Some(twice), fks: None };
    assert!(matches!(d.to_yaml(), Err(DocumentError::RepeatedNames(n)) if n == vec!["a".to_string()]));
    let d = AsgFields { basic: once.clone(), sensitization: Some(once), fks: None };
    assert_eq!(
        d.to_yaml().unwrap(),
        "basic:\n  a:\n    type: int\n    unique: false\n    empty: true\n    roster: false\n    defval: null\n    primary_key: false\n    index: false\n    only_db: false\n    meta_name: null\nsensitization:\n  a:\n    type: int\n    unique: false\n    empty: true\n    roster: false\n    defval: null\n    primary_key: false\n    index: false\n    only_db: false\n    meta_name: null\nforeign_keys: null\n"
    );
}

#[test]
fn first_fault_in_document_order_is_reported() {
    let error = load_error("- {tag: Schema, name: s, owner: o}\n- {tag: Nothing}\n- {tag: Schema}\n");
    assert!(matches!(error, DocumentError::UnknownValue(t) if t == "Nothing"));
}

#[test]
fn document_cannot_describe_a_table_that_cannot_be_built() {
    let text = "\
- tag: Table
  path: {schema: s, name: t}
  fields:
  - {name: a, attributes: {}}
  - {name: a, attributes: {type: int}}
";
    match load_error(text) {
        DocumentError::Table(TableError::DuplicateFields { table, fields }) => {
            assert_eq!(table, "s.t");
            assert_eq!(fields, vec!["a".to_string()]);
        }
        other => panic!("{:?}", other),
    }
    let text = "\
- tag: Table
  path: {schema: s, name: t}
  fields: []
  fks:
  - {table: {schema: s, name: other}, fields: [a], ref_table: {name: u}, ref_fields: [b]}
";
    assert!(matches!(
        load_error(text),
        DocumentError::Table(TableError::ForeignKeyMismatch { .. })
    ));
}

#[test]
fn table_built_by_hand_with_repeated_names_is_not_read_back() {
    let broken = Table {
        path: ObjectPath::new_table("s", "t"),
        fields: vec![
            Field::new("a", &FieldAttributes::new(FieldType::Int)),
            Field::new("a", &FieldAttributes::new(FieldType::Int)),
        ],
        fks: None,
    };
    let mut proc = Processor::new(Postgresql {});
    proc.add(DBObject::Table(broken));
    let text = proc.serialize_to_yaml().unwrap();
    assert!(matches!(load_error(&text), DocumentError::Table(_)));
}

#[test]
fn tree_of_yaml_text() {
    let node = read_yaml("a: [1, x, true, ~, 2.5]\nb: !t v\n").unwrap();
    assert_eq!(
        format!("{:?}", node),
        format!(
            "{:?}",
            Node::Mapping(vec![
                Entry {
                    key: Node::Text("a".to_string()),
                    value: Node::List(vec![
                        Node::Number("1".to_string()),
                        Node::Text("x".to_string()),
                        Node::Bool(true),
                        Node::Null,
                        Node::Number("2.5".to_string()),
                    ]),
                },
                Entry {
                    key: Node::Text("b".to_string()),
                    value: Node::Tagged("!t".to_string(), Box::new(Node::Text("v".to_string()))),
                },
            ])
        )
    );
    assert!(node.get("a").unwrap().items().is_some());
    assert!(node.get("c").is_none());
    assert_eq!(node.entries().unwrap().len(), 2);
    assert!(node.items().is_none());
}

#[test]
fn first_of_two_entries_under_one_key_counts() {
    let node = Node::Mapping(vec![
        Entry { key: Node::Text("name".to_string()), value: Node::Text("first".to_string()) },
        Entry { key: Node::Number("1".to_string()), value: Node::Null },
        Entry { key: Node::Text("name".to_string()), value: Node::Text("second".to_string()) },
    ]);
    assert_eq!(format!("{:?}", node.get("name")), format!("{:?}", Some(&Node::Text("first".to_string()))));
    assert!(read_path(&node).unwrap().is_equal(&ObjectPath {
        schema: None,
        name: "first".to_string(),
        otype: ObjectType::Table,
    }));
}
