use surreal_typed::args::ArgsBuilder;
use surreal_typed::object::Object;
use surreal_typed::query::Db;
use surreal_typed::value::{Number, Value};

fn int_of(value: Option<&Value>) -> i64 {
    match value {
        Some(Value::Number(Number::Int(v))) => *v,
        other => panic!("not an integer: {:?}", other),
    }
}

fn object_of(value: Value) -> Object {
    match value {
        Value::Object(object) => object,
        other => panic!("not an object: {:?}", other),
    }
}

fn memory_db() -> Db {
    let datastore = futures::executor::block_on(surrealdb::Datastore::new("memory")).unwrap();
    Db::new(datastore, surrealdb::Session::for_kv())
}

#[test]
fn nested_arguments_become_an_object() {
    let mut args = ArgsBuilder::default();
    args.arg("a", Value::from(1i64)).sub_args("b", |sub: &mut ArgsBuilder| {
        sub.arg("c", Value::from(2i64));
    });
    let top = object_of(args.into_value());
    assert_eq!(top.len(), 2);
    assert_eq!(int_of(top.get("a")), 1);
    match top.get("b") {
        Some(Value::Object(inner)) => {
            assert_eq!(inner.len(), 1);
            assert_eq!(int_of(inner.get("c")), 2);
        }
        other => panic!("not an object: {:?}", other),
    }
}

#[test]
fn later_binding_overwrites() {
    let mut args = ArgsBuilder::default();
    args.arg("x", Value::from(1i64));
    args.arg("x", Value::from(2i64));
    let top = object_of(args.into_value());
    assert_eq!(top.len(), 1);
    assert_eq!(int_of(top.get("x")), 2);
}

#[test]
fn empty_builder_is_an_empty_object() {
    let top = object_of(ArgsBuilder::default().into_value());
    assert_eq!(top.len(), 0);
    assert!(top.get("a").is_none());
}

#[test]
fn nest_binds_a_finished_builder() {
    let mut sub = ArgsBuilder::default();
    sub.arg("deep", Value::from(true));
    let mut args = ArgsBuilder::default();
    args.nest("outer", sub).arg("flat", Value::text("v"));
    let top = object_of(Value::from(args));
    assert_eq!(top.len(), 2);
    assert!(matches!(top.get("flat"), Some(Value::Strand(s)) if s == "v"));
    match top.get("outer") {
        Some(Value::Object(inner)) => assert!(matches!(inner.get("deep"), Some(Value::True))),
        other => panic!("not an object: {:?}", other),
    }
}

#[test]
fn nesting_goes_any_depth() {
    let mut args = ArgsBuilder::default();
    args.sub_args("a", |a: &mut ArgsBuilder| {
        a.sub_args("b", |b: &mut ArgsBuilder| {
            b.arg("c", Value::from(3i64));
        });
    });
    let top = object_of(args.into_value());
    let a = match top.get("a") {
        Some(Value::Object(a)) => a,
        other => panic!("not an object: {:?}", other),
    };
    let b = match a.get("b") {
        Some(Value::Object(b)) => b,
        other => panic!("not an object: {:?}", other),
    };
    assert_eq!(int_of(b.get("c")), 3);
}

#[test]
fn nested_arguments_overwrite_a_flat_one() {
    let mut args = ArgsBuilder::default();
    args.arg("k", Value::from(1i64)).sub_args("k", |sub: &mut ArgsBuilder| {
        sub.arg("inner", Value::Null);
    });
    let top = object_of(args.into_value());
    assert_eq!(top.len(), 1);
    assert!(matches!(top.get("k"), Some(Value::Object(_))));
}

#[test]
fn object_insert_returns_what_was_there() {
    let mut object = Object::new();
    assert!(object.insert("k".to_string(), Value::from(1i64)).is_none());
    let previous = object.insert("k".to_string(), Value::from(2i64));
    assert_eq!(int_of(previous.as_ref()), 1);
    assert_eq!(object.len(), 1);
    assert_eq!(int_of(object.get("k")), 2);
    let removed = object.remove("k");
    assert_eq!(int_of(removed.as_ref()), 2);
    assert!(object.remove("k").is_none());
    assert_eq!(object.len(), 0);
}

#[test]
fn object_keeps_names_apart() {
    let mut object = Object::new();
    object.insert("a".to_string(), Value::from(1i64));
    object.insert("ab".to_string(), Value::from(2i64));
    object.insert("".to_string(), Value::from(3i64));
    assert_eq!(object.len(), 3);
    assert_eq!(int_of(object.get("a")), 1);
    assert_eq!(int_of(object.get("ab")), 2);
    assert_eq!(int_of(object.get("")), 3);
    assert!(object.get("b").is_none());
}

#[test]
fn query_starts_without_arguments() {
    let db = memory_db();
    let request = db.query("SELECT * FROM person").into_request(true);
    assert_eq!(request.sql, "SELECT * FROM person");
    assert_eq!(request.vars.len(), 0);
    assert!(request.strict);
}

#[test]
fn query_passes_arguments_on() {
    let db = memory_db();
    let request = db
        .query("CREATE person CONTENT $data")
        .arg("name", Value::text("Tobie"))
        .sub_args("data", |sub: &mut ArgsBuilder| {
            sub.arg("age", Value::from(30i64));
        })
        .arg("name", Value::text("Jaime"))
        .into_request(false);
    assert_eq!(request.sql, "CREATE person CONTENT $data");
    assert!(!request.strict);
    assert_eq!(request.vars.len(), 2);
    assert!(matches!(request.vars.get("name"), Some(Value::Strand(s)) if s == "Jaime"));
    match request.vars.get("data") {
        Some(Value::Object(data)) => assert_eq!(int_of(data.get("age")), 30),
        other => panic!("not an object: {:?}", other),
    }
}
