//! The record and the accessors as source text.
//!
//! The text is what a caller hands to the compiler in place of the
//! declaration. Of all that is written out, one statement is unchecked: an
//! accessor reads the table entry at its slot through the table pointer. That
//! the table holds a fitting entry there is the foreign side's promise.

use vstd::prelude::*;
use vstd::string::StringExecFns;
use crate::emit::{
    argument_name, argument_text, Accessor, AccessorView, Field, FieldView, Generated,
    GeneratedView, Record, RecordView,
};
use crate::model::{
    views, Attribute, AttributeView, Parameter, ParameterView, Signature, SignatureView,
};
use crate::text::{decimal, decimal_text};

verus! {

/// The attributes, each on a line of its own behind the indentation.
pub open spec fn attribute_lines(attributes: Seq<AttributeView>, indent: Seq<char>) -> Seq<char>
    decreases attributes.len(),
{
    if attributes.len() == 0 {
        Seq::empty()
    } else {
        attribute_lines(attributes.drop_last(), indent) + indent + attributes.last().text + "\n"@
    }
}

/// One field of the record, on a line of its own. The table pointer is a
/// pointer to pointers.
pub open spec fn field_text(field: FieldView) -> Seq<char> {
    match field {
        FieldView::TablePointer => "    vtable: *mut *mut usize,\n"@,
        FieldView::Data { name, visibility, attributes, ty } => attribute_lines(
            attributes,
            "    "@,
        ) + "    "@ + visibility + " "@ + name + ": "@ + ty + ",\n"@,
    }
}

/// The fields of the record in their order.
pub open spec fn field_texts(fields: Seq<FieldView>) -> Seq<char>
    decreases fields.len(),
{
    if fields.len() == 0 {
        Seq::empty()
    } else {
        field_texts(fields.drop_last()) + field_text(fields.last())
    }
}

/// The record type: laid out as the foreign side lays it out, with the
/// declaration's own attributes, visibility and name.
pub open spec fn record_text(record: RecordView) -> Seq<char> {
    "#[repr(C)]\n"@ + attribute_lines(record.attributes, ""@) + record.visibility + " struct "@
        + record.name + " {\n"@ + field_texts(record.fields) + "}\n"@
}

/// The declared parameters as they follow the receiver in a parameter
/// list: each with a comma before it, its attributes, its name and its
/// type.
pub open spec fn parameter_texts(parameters: Seq<ParameterView>) -> Seq<char>
    decreases parameters.len(),
{
    if parameters.len() == 0 {
        Seq::empty()
    } else {
        parameter_texts(parameters.drop_last()) + ", "@ + attribute_lines(
            parameters.last().attributes,
            ""@,
        ) + argument_text(parameters.last(), (parameters.len() - 1) as nat) + ": "@
            + parameters.last().ty
    }
}

/// The parameters as they follow the receiver in the call: each with a
/// comma before it, by its name.
pub open spec fn argument_list(parameters: Seq<ParameterView>) -> Seq<char>
    decreases parameters.len(),
{
    if parameters.len() == 0 {
        Seq::empty()
    } else {
        argument_list(parameters.drop_last()) + ", "@ + argument_text(
            parameters.last(),
            (parameters.len() - 1) as nat,
        )
    }
}

/// The return type behind its arrow, or nothing where nothing is returned.
pub open spec fn output_text(output: Seq<char>) -> Seq<char> {
    if output.len() == 0 {
        Seq::empty()
    } else {
        " -> "@ + output
    }
}

/// The calling convention as it stands before `fn`, or nothing where none
/// is named.
pub open spec fn convention_text(convention: Seq<char>) -> Seq<char> {
    if convention.len() == 0 {
        Seq::empty()
    } else {
        "extern \""@ + convention + "\" "@
    }
}

/// The lifetimes that the entry's type binds, as they stand before the
/// rest of it.
pub open spec fn lifetimes_text(lifetimes: Seq<char>) -> Seq<char> {
    if lifetimes.len() == 0 {
        Seq::empty()
    } else {
        lifetimes + " "@
    }
}

/// The mark of a type that is unchecked to call, or nothing.
pub open spec fn unsafety_text(unsafety: bool) -> Seq<char> {
    if unsafety {
        "unsafe "@
    } else {
        Seq::empty()
    }
}

/// The variadic tail as it follows the parameters, or nothing.
pub open spec fn variadic_text(variadic: Seq<char>) -> Seq<char> {
    if variadic.len() == 0 {
        Seq::empty()
    } else {
        ", "@ + variadic
    }
}

/// The type of the table entry: the member's declared type with the
/// receiver before the declared parameters.
pub open spec fn entry_text(signature: SignatureView) -> Seq<char> {
    lifetimes_text(signature.lifetimes) + unsafety_text(signature.unsafety) + convention_text(
        signature.convention,
    ) + "fn(_self: *mut Self"@ + parameter_texts(signature.parameters) + variadic_text(
        signature.variadic,
    ) + ")"@ + output_text(signature.output)
}

/// One accessor: it takes the declared parameters, reads the entry at its
/// slot, counted in entries from the table pointer, calls it with the
/// receiver and the parameters in their order, and hands back what the
/// entry returns.
pub open spec fn accessor_text(accessor: AccessorView) -> Seq<char> {
    attribute_lines(accessor.attributes, "    "@) + "    "@ + accessor.visibility + " fn "@
        + accessor.name + "(&mut self"@ + parameter_texts(accessor.signature.parameters) + ")"@
        + output_text(accessor.signature.output) + " {\n"@
        + "        let vtable = self.vtable as *const "@ + entry_text(accessor.signature) + ";\n"@
        + "        let func = unsafe { vtable.add("@ + decimal_text(accessor.slot as nat)
        + ").read() };\n"@ + "        func(self"@ + argument_list(accessor.signature.parameters)
        + ")\n    }\n"@
}

/// The accessors in their order.
pub open spec fn accessor_texts(accessors: Seq<AccessorView>) -> Seq<char>
    decreases accessors.len(),
{
    if accessors.len() == 0 {
        Seq::empty()
    } else {
        accessor_texts(accessors.drop_last()) + accessor_text(accessors.last())
    }
}

/// The whole text: the record type, then its accessors in one block.
pub open spec fn rendered(generated: GeneratedView) -> Seq<char> {
    record_text(generated.record) + "impl "@ + generated.record.name + " {\n"@ + accessor_texts(
        generated.accessors,
    ) + "}\n"@
}

/// Writes the attributes, each on a line of its own.
pub fn write_attributes(attributes: &Vec<Attribute>, indent: &str) -> (text: String)
    ensures
        text@ == attribute_lines(views(attributes@), indent@),
{
    let mut text = String::new();
    let mut index: usize = 0;
    while index < attributes.len()
        invariant
            index <= attributes.len(),
            text@ == attribute_lines(views(attributes@).take(index as int), indent@),
        decreases attributes.len() - index,
    {
        proof {
            let all = views(attributes@);
            assert(all.take(index + 1).drop_last() == all.take(index as int));
            assert(all.take(index + 1).last() == attributes@[index as int]@);
        }
        text.append(indent);
        text.append(attributes[index].text.as_str());
        text.append("\n");
        index += 1;
    }
    proof {
        assert(views(attributes@).take(index as int) == views(attributes@));
    }
    text
}

/// Writes one field of the record.
pub fn write_field(field: &Field) -> (text: String)
    ensures
        text@ == field_text(field@),
{
    match field {
        Field::TablePointer => String::from_str("    vtable: *mut *mut usize,\n"),
        Field::Data { name, visibility, attributes, ty } => {
            let mut text = write_attributes(attributes, "    ");
            text.append("    ");
            text.append(visibility.as_str());
            text.append(" ");
            text.append(name.as_str());
            text.append(": ");
            text.append(ty.as_str());
            text.append(",\n");
            text
        },
    }
}

/// Writes the fields of the record.
pub fn write_fields(fields: &Vec<Field>) -> (text: String)
    ensures
        text@ == field_texts(views(fields@)),
{
    let mut text = String::new();
    let mut index: usize = 0;
    while index < fields.len()
        invariant
            index <= fields.len(),
            text@ == field_texts(views(fields@).take(index as int)),
        decreases fields.len() - index,
    {
        proof {
            let all = views(fields@);
            assert(all.take(index + 1).drop_last() == all.take(index as int));
            assert(all.take(index + 1).last() == fields@[index as int]@);
        }
        let field = write_field(&fields[index]);
        text.append(field.as_str());
        index += 1;
    }
    proof {
        assert(views(fields@).take(index as int) == views(fields@));
    }
    text
}

/// Writes the record type.
pub fn write_record(record: &Record) -> (text: String)
    ensures
        text@ == record_text(record@),
{
    let mut text = String::from_str("#[repr(C)]\n");
    let attributes = write_attributes(&record.attributes, "");
    text.append(attributes.as_str());
    text.append(record.visibility.as_str());
    text.append(" struct ");
    text.append(record.name.as_str());
    text.append(" {\n");
    let fields = write_fields(&record.fields);
    text.append(fields.as_str());
    text.append("}\n");
    text
}

/// Writes the declared parameters as they follow the receiver in a
/// parameter list.
pub fn write_parameters(parameters: &Vec<Parameter>) -> (text: String)
    ensures
        text@ == parameter_texts(views(parameters@)),
{
    let mut text = String::new();
    let mut index: usize = 0;
    while index < parameters.len()
        invariant
            index <= parameters.len(),
            text@ == parameter_texts(views(parameters@).take(index as int)),
        decreases parameters.len() - index,
    {
        proof {
            let all = views(parameters@);
            assert(all.take(index + 1).drop_last() == all.take(index as int));
            assert(all.take(index + 1).last() == parameters@[index as int]@);
        }
        let attributes = write_attributes(&parameters[index].attributes, "");
        let name = argument_name(&parameters[index], index);
        text.append(", ");
        text.append(attributes.as_str());
        text.append(name.as_str());
        text.append(": ");
        text.append(parameters[index].ty.as_str());
        index += 1;
    }
    proof {
        assert(views(parameters@).take(index as int) == views(parameters@));
    }
    text
}

/// Writes the parameters as they follow the receiver in the call.
pub fn write_arguments(parameters: &Vec<Parameter>) -> (text: String)
    ensures
        text@ == argument_list(views(parameters@)),
{
    let mut text = String::new();
    let mut index: usize = 0;
    while index < parameters.len()
        invariant
            index <= parameters.len(),
            text@ == argument_list(views(parameters@).take(index as int)),
        decreases parameters.len() - index,
    {
        proof {
            let all = views(parameters@);
            assert(all.take(index + 1).drop_last() == all.take(index as int));
            assert(all.take(index + 1).last() == parameters@[index as int]@);
        }
        let name = argument_name(&parameters[index], index);
        text.append(", ");
        text.append(name.as_str());
        index += 1;
    }
    proof {
        assert(views(parameters@).take(index as int) == views(parameters@));
    }
    text
}

/// Writes the return type behind its arrow.
pub fn write_output(output: &String) -> (text: String)
    ensures
        text@ == output_text(output@),
{
    if output.as_str().is_empty() {
        String::new()
    } else {
        let mut text = String::from_str(" -> ");
        text.append(output.as_str());
        text
    }
}

/// Writes the calling convention as it stands before `fn`.
pub fn write_convention(convention: &String) -> (text: String)
    ensures
        text@ == convention_text(convention@),
{
    if convention.as_str().is_empty() {
        String::new()
    } else {
        let mut text = String::from_str("extern \"");
        text.append(convention.as_str());
        text.append("\" ");
        text
    }
}

/// Writes the lifetimes that the entry's type binds.
pub fn write_lifetimes(lifetimes: &String) -> (text: String)
    ensures
        text@ == lifetimes_text(lifetimes@),
{
    if lifetimes.as_str().is_empty() {
        String::new()
    } else {
        let mut text = lifetimes.clone();
        text.append(" ");
        text
    }
}

/// Writes the mark of a type that is unchecked to call.
pub fn write_unsafety(unsafety: bool) -> (text: String)
    ensures
        text@ == unsafety_text(unsafety),
{
    if unsafety {
        String::from_str("unsafe ")
    } else {
        String::new()
    }
}

/// Writes the variadic tail as it follows the parameters.
pub fn write_variadic(variadic: &String) -> (text: String)
    ensures
        text@ == variadic_text(variadic@),
{
    if variadic.as_str().is_empty() {
        String::new()
    } else {
        let mut text = String::from_str(", ");
        text.append(variadic.as_str());
        text
    }
}

/// Writes the type of the table entry.
pub fn write_entry(signature: &Signature) -> (text: String)
    ensures
        text@ == entry_text(signature@),
{
    let mut text = write_lifetimes(&signature.lifetimes);
    let unsafety = write_unsafety(signature.unsafety);
    text.append(unsafety.as_str());
    let convention = write_convention(&signature.convention);
    text.append(convention.as_str());
    text.append("fn(_self: *mut Self");
    let parameters = write_parameters(&signature.parameters);
    text.append(parameters.as_str());
    let variadic = write_variadic(&signature.variadic);
    text.append(variadic.as_str());
    text.append(")");
    let output = write_output(&signature.output);
    text.append(output.as_str());
    text
}

/// Writes one accessor.
pub fn write_accessor(accessor: &Accessor) -> (text: String)
    ensures
        text@ == accessor_text(accessor@),
{
    let mut text = write_attributes(&accessor.attributes, "    ");
    text.append("    ");
    text.append(accessor.visibility.as_str());
    text.append(" fn ");
    text.append(accessor.name.as_str());
    text.append("(&mut self");
    let parameters = write_parameters(&accessor.signature.parameters);
    text.append(parameters.as_str());
    text.append(")");
    let output = write_output(&accessor.signature.output);
    text.append(output.as_str());
    text.append(" {\n");
    text.append("        let vtable = self.vtable as *const ");
    let entry = write_entry(&accessor.signature);
    text.append(entry.as_str());
    text.append(";\n");
    text.append("        let func = unsafe { vtable.add(");
    let slot = decimal(accessor.slot as u128);
    text.append(slot.as_str());
    text.append(").read() };\n");
    text.append("        func(self");
    let arguments = write_arguments(&accessor.signature.parameters);
    text.append(arguments.as_str());
    text.append(")\n    }\n");
    text
}

/// Writes the accessors.
pub fn write_accessors(accessors: &Vec<Accessor>) -> (text: String)
    ensures
        text@ == accessor_texts(views(accessors@)),
{
    let mut text = String::new();
    let mut index: usize = 0;
    while index < accessors.len()
        invariant
            index <= accessors.len(),
            text@ == accessor_texts(views(accessors@).take(index as int)),
        decreases accessors.len() - index,
    {
        proof {
            let all = views(accessors@);
            assert(all.take(index + 1).drop_last() == all.take(index as int));
            assert(all.take(index + 1).last() == accessors@[index as int]@);
        }
        let accessor = write_accessor(&accessors[index]);
        text.append(accessor.as_str());
        index += 1;
    }
    proof {
        assert(views(accessors@).take(index as int) == views(accessors@));
    }
    text
}

/// Writes out the record type and its accessors.
pub fn render(generated: &Generated) -> (text: String)
    ensures
        text@ == rendered(generated@),
{
    let mut text = write_record(&generated.record);
    text.append("impl ");
    text.append(generated.record.name.as_str());
    text.append(" {\n");
    let accessors = write_accessors(&generated.accessors);
    text.append(accessors.as_str());
    text.append("}\n");
    text
}

} // verus!
