use viable::emit::{generate, Accessor, Field, Generated, Record};
use viable::model::{Attribute, Declaration, Member, Parameter, Shape, Signature};
use viable::render::{
    render, write_accessor, write_accessors, write_arguments, write_attributes, write_convention,
    write_entry, write_field, write_fields, write_lifetimes, write_output, write_parameters,
    write_record, write_unsafety, write_variadic,
};

fn verbatim(name: &str, text: &str) -> Attribute {
    Attribute { name: name.to_string(), argument: None, text: text.to_string() }
}

fn with_argument(name: &str, argument: &str) -> Attribute {
    Attribute {
        name: name.to_string(),
        argument: Some(argument.to_string()),
        text: format!("#[{}({})]", name, argument),
    }
}

fn takes(name: Option<&str>, ty: &str) -> Parameter {
    Parameter { attributes: vec![], name: name.map(|name| name.to_string()), ty: ty.to_string() }
}

fn add2() -> Accessor {
    Accessor {
        name: "add2".to_string(),
        visibility: "pub".to_string(),
        attributes: vec![verbatim("doc", "#[doc = \" Adds.\"]")],
        signature: Signature {
            lifetimes: String::new(),
            unsafety: false,
            convention: "C".to_string(),
            parameters: vec![takes(Some("a"), "c_int"), takes(None, "c_int")],
            variadic: String::new(),
            output: "c_int".to_string(),
        },
        slot: 1,
    }
}

fn reset() -> Accessor {
    Accessor {
        name: "reset".to_string(),
        visibility: String::new(),
        attributes: vec![],
        signature: Signature {
            lifetimes: String::new(),
            unsafety: false,
            convention: String::new(),
            parameters: vec![],
            variadic: String::new(),
            output: String::new(),
        },
        slot: 12,
    }
}

fn internal() -> Field {
    Field::Data {
        name: "internal".to_string(),
        visibility: "pub(crate)".to_string(),
        attributes: vec![verbatim("doc", "#[doc = \" Kept.\"]")],
        ty: "c_int".to_string(),
    }
}

const ADD2: &str = "    #[doc = \" Adds.\"]
    pub fn add2(&mut self, a: c_int, argn1: c_int) -> c_int {
        let vtable = self.vtable as *const extern \"C\" fn(_self: *mut Self, a: c_int, argn1: c_int) -> c_int;
        let func = unsafe { vtable.add(1).read() };
        func(self, a, argn1)
    }
";

const RESET: &str = "     fn reset(&mut self) {
        let vtable = self.vtable as *const fn(_self: *mut Self);
        let func = unsafe { vtable.add(12).read() };
        func(self)
    }
";

#[test]
fn attributes_stand_on_their_own_lines() {
    assert_eq!(write_attributes(&vec![], "    "), "");
    assert_eq!(
        write_attributes(
            &vec![verbatim("doc", "#[doc = \"a\"]"), verbatim("inline", "#[inline]")],
            "  "
        ),
        "  #[doc = \"a\"]\n  #[inline]\n"
    );
}

#[test]
fn fields_are_written_in_order() {
    assert_eq!(write_field(&Field::TablePointer), "    vtable: *mut *mut usize,\n");
    assert_eq!(
        write_field(&internal()),
        "    #[doc = \" Kept.\"]\n    pub(crate) internal: c_int,\n"
    );
    assert_eq!(write_fields(&vec![]), "");
    assert_eq!(
        write_fields(&vec![Field::TablePointer, internal()]),
        "    vtable: *mut *mut usize,\n    #[doc = \" Kept.\"]\n    pub(crate) internal: c_int,\n"
    );
}

#[test]
fn the_record_is_laid_out_as_declared() {
    let record = Record {
        name: "Math".to_string(),
        visibility: "pub".to_string(),
        attributes: vec![with_argument("derive", "Debug")],
        fields: vec![Field::TablePointer, internal()],
    };
    assert_eq!(
        write_record(&record),
        "#[repr(C)]
#[derive(Debug)]
pub struct Math {
    vtable: *mut *mut usize,
    #[doc = \" Kept.\"]
    pub(crate) internal: c_int,
}
"
    );
}

#[test]
fn parameters_follow_the_receiver() {
    let parameters = vec![takes(Some("a"), "c_int"), takes(None, "*const u8")];
    assert_eq!(write_parameters(&parameters), ", a: c_int, argn1: *const u8");
    assert_eq!(write_arguments(&parameters), ", a, argn1");
    assert_eq!(write_parameters(&vec![]), "");
    assert_eq!(write_arguments(&vec![]), "");
}

#[test]
fn return_type_and_convention_may_be_absent() {
    assert_eq!(write_output(&String::new()), "");
    assert_eq!(write_output(&"c_int".to_string()), " -> c_int");
    assert_eq!(write_convention(&String::new()), "");
    assert_eq!(write_convention(&"C".to_string()), "extern \"C\" ");
}

#[test]
fn the_entry_takes_the_receiver_first() {
    assert_eq!(
        write_entry(&add2().signature),
        "extern \"C\" fn(_self: *mut Self, a: c_int, argn1: c_int) -> c_int"
    );
    assert_eq!(write_entry(&reset().signature), "fn(_self: *mut Self)");
}

#[test]
fn the_entry_keeps_the_whole_declared_type() {
    let signature = Signature {
        lifetimes: "for<'a>".to_string(),
        unsafety: true,
        convention: "C".to_string(),
        parameters: vec![
            Parameter {
                attributes: vec![verbatim("allow", "#[allow(unused)]")],
                name: Some("format".to_string()),
                ty: "&'a c_char".to_string(),
            },
            takes(None, "c_int"),
        ],
        variadic: "...".to_string(),
        output: "c_int".to_string(),
    };
    assert_eq!(write_lifetimes(&signature.lifetimes), "for<'a> ");
    assert_eq!(write_lifetimes(&String::new()), "");
    assert_eq!(write_unsafety(true), "unsafe ");
    assert_eq!(write_unsafety(false), "");
    assert_eq!(write_variadic(&signature.variadic), ", ...");
    assert_eq!(write_variadic(&String::new()), "");
    assert_eq!(
        write_parameters(&signature.parameters),
        ", #[allow(unused)]\nformat: &'a c_char, argn1: c_int"
    );
    assert_eq!(
        write_entry(&signature),
        "for<'a> unsafe extern \"C\" fn(_self: *mut Self, #[allow(unused)]\nformat: &'a c_char, argn1: c_int, ...) -> c_int"
    );
    let entry: syn::Type = syn::parse_str(&write_entry(&signature)).expect("no type");
    match entry {
        syn::Type::BareFn(entry) => {
            assert!(entry.lifetimes.is_some());
            assert!(entry.unsafety.is_some());
            assert!(entry.variadic.is_some());
            assert_eq!(entry.inputs.len(), 3);
            assert_eq!(entry.inputs[1].attrs.len(), 1);
        }
        _ => panic!("the entry is no bare callable type"),
    }
}

#[test]
fn an_accessor_calls_the_entry_at_its_slot() {
    assert_eq!(write_accessor(&add2()), ADD2);
    assert_eq!(write_accessor(&reset()), RESET);
    assert_eq!(write_accessors(&vec![]), "");
    assert_eq!(
        write_accessors(&vec![add2(), reset()]),
        format!("{}{}", ADD2, RESET)
    );
}

#[test]
fn record_and_accessors_are_written_together() {
    let generated = Generated {
        record: Record {
            name: "Math".to_string(),
            visibility: String::new(),
            attributes: vec![],
            fields: vec![Field::TablePointer],
        },
        accessors: vec![reset()],
    };
    assert_eq!(
        render(&generated),
        format!(
            "#[repr(C)]\n struct Math {{\n    vtable: *mut *mut usize,\n}}\nimpl Math {{\n{}}}\n",
            RESET
        )
    );
}

fn math() -> Declaration {
    let signature = || Shape::Callable {
        signature: Signature {
            lifetimes: String::new(),
            unsafety: false,
            convention: "C".to_string(),
            parameters: vec![takes(Some("a"), "c_int"), takes(Some("b"), "c_int")],
            variadic: String::new(),
            output: "c_int".to_string(),
        },
    };
    Declaration {
        name: "Math".to_string(),
        visibility: String::new(),
        attributes: vec![],
        members: vec![
            Member {
                name: "internal".to_string(),
                visibility: String::new(),
                attributes: vec![],
                shape: Shape::Data { ty: "c_int".to_string() },
            },
            Member {
                name: "add".to_string(),
                visibility: String::new(),
                attributes: vec![],
                shape: signature(),
            },
            Member {
                name: "add2".to_string(),
                visibility: String::new(),
                attributes: vec![with_argument("offset", "1")],
                shape: signature(),
            },
        ],
    }
}

#[test]
fn the_text_is_a_struct_and_an_impl() {
    let text = render(&generate(&math()).unwrap());
    let file = syn::parse_file(&text).expect("the text is not a sequence of items");
    assert_eq!(file.items.len(), 2);
    let record = match &file.items[0] {
        syn::Item::Struct(record) => record,
        _ => panic!("the first item is not a struct"),
    };
    assert_eq!(record.ident, "Math");
    let fields: Vec<String> = record
        .fields
        .iter()
        .map(|field| field.ident.as_ref().unwrap().to_string())
        .collect();
    assert_eq!(fields, vec!["vtable", "internal"]);
    let block = match &file.items[1] {
        syn::Item::Impl(block) => block,
        _ => panic!("the second item is not an impl"),
    };
    let methods: Vec<String> = block
        .items
        .iter()
        .map(|item| match item {
            syn::ImplItem::Method(method) => method.sig.ident.to_string(),
            _ => panic!("an item of the impl is not a method"),
        })
        .collect();
    assert_eq!(methods, vec!["add", "add2"]);
    // Directives are not written out.
    assert!(!text.contains("offset"));
    assert!(text.contains("vtable.add(0).read()"));
    assert!(text.contains("vtable.add(1).read()"));
}
