use viable::emit::{generate, Accessor, Field, Generated};
use viable::model::{Attribute, Declaration, Member, Parameter, Shape, Signature};

fn directive(name: &str, argument: &str) -> Attribute {
    Attribute {
        name: name.to_string(),
        argument: Some(argument.to_string()),
        text: format!("#[{}({})]", name, argument),
    }
}

fn parameter(name: &str, ty: &str) -> Parameter {
    Parameter { attributes: vec![], name: Some(name.to_string()), ty: ty.to_string() }
}

fn data(name: &str, ty: &str) -> Member {
    Member {
        name: name.to_string(),
        visibility: String::new(),
        attributes: vec![],
        shape: Shape::Data { ty: ty.to_string() },
    }
}

fn callable(
    name: &str,
    attributes: Vec<Attribute>,
    parameters: Vec<Parameter>,
    output: &str,
) -> Member {
    Member {
        name: name.to_string(),
        visibility: String::new(),
        attributes,
        shape: Shape::Callable {
            signature: Signature {
                lifetimes: String::new(),
                unsafety: false,
                convention: "C".to_string(),
                parameters,
                variadic: String::new(),
                output: output.to_string(),
            },
        },
    }
}

fn declaration(name: &str, members: Vec<Member>) -> Declaration {
    Declaration {
        name: name.to_string(),
        visibility: String::new(),
        attributes: vec![],
        members,
    }
}

fn accessor<'a>(generated: &'a Generated, name: &str) -> &'a Accessor {
    generated
        .accessors
        .iter()
        .find(|accessor| accessor.name == name)
        .expect("no accessor of that name")
}

fn field_names(generated: &Generated) -> Vec<String> {
    generated
        .record
        .fields
        .iter()
        .map(|field| match field {
            Field::TablePointer => "<table>".to_string(),
            Field::Data { name, .. } => name.clone(),
        })
        .collect()
}

// A stand-in for the foreign object: its dispatch table first, then its
// data, as the record lays them out.
struct Math {
    table: Vec<fn(&Math, i32, i32) -> i32>,
    internal: i32,
}

fn math_add(_this: &Math, a: i32, b: i32) -> i32 {
    a + b
}

fn math_add2(this: &Math, a: i32, b: i32) -> i32 {
    this.internal + a + b
}

fn get_math(internal: i32) -> Math {
    Math { table: vec![math_add, math_add2], internal }
}

fn call_math(generated: &Generated, name: &str, this: &Math, a: i32, b: i32) -> i32 {
    let entry = this.table[accessor(generated, name).slot];
    entry(this, a, b)
}

fn math_declaration() -> Declaration {
    declaration(
        "Math",
        vec![
            data("internal", "c_int"),
            callable(
                "add",
                vec![],
                vec![parameter("a", "c_int"), parameter("b", "c_int")],
                "c_int",
            ),
            callable(
                "add2",
                vec![directive("offset", "1")],
                vec![parameter("a", "c_int"), parameter("b", "c_int")],
                "c_int",
            ),
        ],
    )
}

#[test]
pub fn test_basic() {
    let generated = generate(&math_declaration()).unwrap();
    let iface = get_math(10);

    assert_eq!(field_names(&generated), vec!["<table>", "internal"]);
    assert_eq!(iface.internal, 10);
    assert_eq!(call_math(&generated, "add", &iface, 5, 5), 5 + 5);
    assert_eq!(call_math(&generated, "add2", &iface, 5, 5), 5 + 5 + 10);
}

#[test]
fn round_trip_without_directives() {
    let generated = generate(&declaration(
        "Math",
        vec![
            data("internal", "int32"),
            callable(
                "add",
                vec![],
                vec![parameter("a", "int32"), parameter("b", "int32")],
                "int32",
            ),
            callable(
                "add2",
                vec![],
                vec![parameter("a", "int32"), parameter("b", "int32")],
                "int32",
            ),
        ],
    ))
    .unwrap();
    assert_eq!(accessor(&generated, "add").slot, 0);
    assert_eq!(accessor(&generated, "add2").slot, 1);
    let object = get_math(10);
    assert_eq!(call_math(&generated, "add2", &object, 5, 5), 20);
}

struct Pug {
    table: Vec<PugEntry>,
    internal_name: &'static str,
    internal_age: i32,
}

enum PugEntry {
    Text(fn(&Pug) -> &'static str),
    Number(fn(&Pug) -> i32),
}

fn pug_name(this: &Pug) -> &'static str {
    this.internal_name
}

fn pug_speak(_this: &Pug) -> &'static str {
    "Woof"
}

fn pug_age(this: &Pug) -> i32 {
    this.internal_age
}

fn get_pug(name: &'static str, age: i32) -> Pug {
    Pug {
        table: vec![
            PugEntry::Text(pug_name),
            PugEntry::Text(pug_speak),
            PugEntry::Number(pug_age),
        ],
        internal_name: name,
        internal_age: age,
    }
}

#[test]
pub fn test_inherit() {
    let generated = generate(&declaration(
        "Pug",
        vec![
            data("__internal_name", "*const c_char"),
            data("__internal_age", "c_int"),
            callable("name", vec![directive("offset", "0")], vec![], "*const c_char"),
            callable("speak", vec![directive("offset", "1")], vec![], "*const c_char"),
            callable("age", vec![], vec![], "c_int"),
        ],
    ))
    .unwrap();
    let iface = get_pug("Fido", 5);

    assert_eq!(
        field_names(&generated),
        vec!["<table>", "__internal_name", "__internal_age"]
    );
    assert_eq!(iface.internal_name, "Fido");

    let name = match &iface.table[accessor(&generated, "name").slot] {
        PugEntry::Text(entry) => entry(&iface),
        PugEntry::Number(_) => panic!("the entry of `name` returns text"),
    };
    assert_eq!(name, "Fido");

    let speak = match &iface.table[accessor(&generated, "speak").slot] {
        PugEntry::Text(entry) => entry(&iface),
        PugEntry::Number(_) => panic!("the entry of `speak` returns text"),
    };
    println!("{}", speak);

    let age = match &iface.table[accessor(&generated, "age").slot] {
        PugEntry::Number(entry) => entry(&iface),
        PugEntry::Text(_) => panic!("the entry of `age` returns a number"),
    };
    println!("Age: {}", age);
    assert_eq!(age, 5);
}
