//! What is written out for a declaration: a record type and one accessor
//! for each callable member.
//!
//! The record describes the layout of the foreign object: a pointer to the
//! dispatch table first, then the data members in declaration order. An
//! accessor reads the table entry at its member's slot and calls it with the
//! receiver in front of the declared arguments.
//!
//! Members are taken in declaration order, and the first member at fault
//! ends the work: what came before it is dropped with the rest.

use vstd::prelude::*;
use vstd::string::StringExecFns;
use crate::directive::{
    copy_passed_on, directives, find_directive, first_directive, member_directives, passed_on,
};
use crate::error::{ErrorKind, GenerateError, GenerateErrorView};
use crate::model::{
    copy_attributes, views, views_push, Attribute, AttributeView, Declaration, DeclarationView,
    Member, MemberView, Parameter, ParameterView, Shape, ShapeView, Signature, SignatureView,
};
use crate::slots::{place, placed};
use crate::text::{decimal, decimal_text};

verus! {

/// A field of the record.
#[derive(Debug, PartialEq, Eq)]
pub enum Field {
    /// The pointer to the dispatch table. The foreign side owns the table.
    TablePointer,
    /// A data member, as it was declared.
    Data { name: String, visibility: String, attributes: Vec<Attribute>, ty: String },
}

pub enum FieldView {
    TablePointer,
    Data { name: Seq<char>, visibility: Seq<char>, attributes: Seq<AttributeView>, ty: Seq<char> },
}

impl View for Field {
    type V = FieldView;

    open spec fn view(&self) -> FieldView {
        match *self {
            Field::TablePointer => FieldView::TablePointer,
            Field::Data { name, visibility, attributes, ty } => FieldView::Data {
                name: name@,
                visibility: visibility@,
                attributes: views(attributes@),
                ty: ty@,
            },
        }
    }
}

/// The record type: the layout of the foreign object.
#[derive(Debug, PartialEq, Eq)]
pub struct Record {
    pub name: String,
    pub visibility: String,
    pub attributes: Vec<Attribute>,
    pub fields: Vec<Field>,
}

pub struct RecordView {
    pub name: Seq<char>,
    pub visibility: Seq<char>,
    pub attributes: Seq<AttributeView>,
    pub fields: Seq<FieldView>,
}

impl View for Record {
    type V = RecordView;

    open spec fn view(&self) -> RecordView {
        RecordView {
            name: self.name@,
            visibility: self.visibility@,
            attributes: views(self.attributes@),
            fields: views(self.fields@),
        }
    }
}

/// The accessor of one callable member.
#[derive(Debug, PartialEq, Eq)]
pub struct Accessor {
    pub name: String,
    pub visibility: String,
    /// The member's attributes but for its directives.
    pub attributes: Vec<Attribute>,
    /// The member's declared type. The table entry has this type with the
    /// receiver before the declared parameters; the accessor takes the
    /// declared parameters and hands back what the entry returns.
    pub signature: Signature,
    /// The index of the member's entry in the dispatch table, counted in
    /// entries.
    pub slot: usize,
}

pub struct AccessorView {
    pub name: Seq<char>,
    pub visibility: Seq<char>,
    pub attributes: Seq<AttributeView>,
    pub signature: SignatureView,
    pub slot: usize,
}

impl View for Accessor {
    type V = AccessorView;

    open spec fn view(&self) -> AccessorView {
        AccessorView {
            name: self.name@,
            visibility: self.visibility@,
            attributes: views(self.attributes@),
            signature: self.signature@,
            slot: self.slot,
        }
    }
}

/// Everything that is written out for one declaration.
#[derive(Debug, PartialEq, Eq)]
pub struct Generated {
    pub record: Record,
    pub accessors: Vec<Accessor>,
}

pub struct GeneratedView {
    pub record: RecordView,
    pub accessors: Seq<AccessorView>,
}

impl View for Generated {
    type V = GeneratedView;

    open spec fn view(&self) -> GeneratedView {
        GeneratedView { record: self.record@, accessors: views(self.accessors@) }
    }
}

/// The name under which an accessor takes a parameter and passes it on: the
/// parameter's own, or `argn` followed by its position where it has none.
pub open spec fn argument_text(parameter: ParameterView, position: nat) -> Seq<char> {
    match parameter.name {
        Some(name) => name,
        None => "argn"@ + decimal_text(position),
    }
}

/// The names under which an accessor takes its parameters and passes them
/// on, in their order.
pub open spec fn argument_texts(parameters: Seq<ParameterView>) -> Seq<Seq<char>> {
    Seq::new(parameters.len(), |i: int| argument_text(parameters[i], i as nat))
}

/// The field of a data member: the member as it stands.
pub open spec fn field_of(member: MemberView) -> FieldView
    recommends
        member.shape is Data,
{
    FieldView::Data {
        name: member.name,
        visibility: member.visibility,
        attributes: member.attributes,
        ty: member.shape->Data_ty,
    }
}

/// The accessor of a callable member that takes the given slot.
pub open spec fn accessor_of(member: MemberView, slot: usize) -> AccessorView
    recommends
        member.shape is Callable,
{
    AccessorView {
        name: member.name,
        visibility: member.visibility,
        attributes: passed_on(member.attributes),
        signature: member.shape->signature,
        slot,
    }
}

/// The fields and accessors gathered from the members read so far.
pub struct PlanView {
    pub fields: Seq<FieldView>,
    pub accessors: Seq<AccessorView>,
}

/// Where the cursor stands after the accessors gathered so far: at 0
/// before the first, and one past the slot of the last after it.
pub open spec fn plan_cursor(accessors: Seq<AccessorView>) -> int {
    if accessors.len() == 0 {
        0
    } else {
        accessors.last().slot + 1
    }
}

/// A refusal of the given member.
pub open spec fn refusal(member: MemberView, kind: ErrorKind) -> GenerateErrorView {
    GenerateErrorView { member: member.name, kind }
}

/// The plan after one more member was read. A data member must carry no
/// directive and becomes a field. A callable member has its directives
/// collected, takes its slot from the cursor and becomes an accessor.
pub open spec fn plan_with(plan: PlanView, member: MemberView) -> Result<
    PlanView,
    GenerateErrorView,
> {
    match member.shape {
        ShapeView::Data { .. } => match first_directive(member.attributes) {
            Some(kind) => Err(refusal(member, ErrorKind::Misplaced(kind))),
            None => Ok(
                PlanView { fields: plan.fields.push(field_of(member)), accessors: plan.accessors },
            ),
        },
        ShapeView::Callable { .. } => match directives(member.attributes) {
            Err(fault) => Err(refusal(member, ErrorKind::Directive(fault))),
            Ok(found) => match placed(plan_cursor(plan.accessors), found) {
                Err(fault) => Err(refusal(member, ErrorKind::Slot(fault))),
                Ok(slot) => Ok(
                    PlanView {
                        fields: plan.fields,
                        accessors: plan.accessors.push(accessor_of(member, slot as usize)),
                    },
                ),
            },
        },
    }
}

/// The plan for a list of members, read in declaration order, or the
/// refusal of the first member at fault. The table pointer is the first
/// field of every plan.
pub open spec fn planned(members: Seq<MemberView>) -> Result<PlanView, GenerateErrorView>
    decreases members.len(),
{
    if members.len() == 0 {
        Ok(PlanView { fields: seq![FieldView::TablePointer], accessors: Seq::empty() })
    } else {
        match planned(members.drop_last()) {
            Ok(plan) => plan_with(plan, members.last()),
            Err(error) => Err(error),
        }
    }
}

/// What is written out for a declaration, or why nothing is.
pub open spec fn generation(declaration: DeclarationView) -> Result<
    GeneratedView,
    GenerateErrorView,
> {
    match planned(declaration.members) {
        Ok(plan) => Ok(
            GeneratedView {
                record: RecordView {
                    name: declaration.name,
                    visibility: declaration.visibility,
                    attributes: declaration.attributes,
                    fields: plan.fields,
                },
                accessors: plan.accessors,
            },
        ),
        Err(error) => Err(error),
    }
}

/// A refusal of a prefix of the members is the refusal of the whole list.
pub proof fn planned_fails_on(members: Seq<MemberView>, index: int)
    requires
        0 <= index < members.len(),
        planned(members.take(index + 1)) is Err,
    ensures
        planned(members) == planned(members.take(index + 1)),
    decreases members.len(),
{
    if index + 1 == members.len() {
        assert(members.take(index + 1) == members);
    } else {
        assert(members.drop_last().take(index + 1) == members.take(index + 1));
        planned_fails_on(members.drop_last(), index);
    }
}

/// Names one parameter of an accessor.
pub fn argument_name(parameter: &Parameter, position: usize) -> (name: String)
    ensures
        name@ == argument_text(parameter@, position as nat),
{
    match &parameter.name {
        Some(name) => name.clone(),
        None => {
            let mut name = String::from_str("argn");
            let digits = decimal(position as u128);
            name.append(digits.as_str());
            name
        },
    }
}

/// Names the parameters of an accessor.
pub fn argument_names(parameters: &Vec<Parameter>) -> (names: Vec<String>)
    ensures
        views(names@) == argument_texts(views(parameters@)),
{
    let mut names: Vec<String> = Vec::new();
    let mut index: usize = 0;
    while index < parameters.len()
        invariant
            index <= parameters.len(),
            names@.len() == index,
            forall|i: int|
                0 <= i < index ==> (#[trigger] names@[i])@ == argument_text(
                    parameters@[i]@,
                    i as nat,
                ),
        decreases parameters.len() - index,
    {
        names.push(argument_name(&parameters[index], index));
        index += 1;
    }
    proof {
        assert(views(names@) =~= argument_texts(views(parameters@)));
    }
    names
}

/// Builds the field of a data member of the given type.
pub fn build_field(member: &Member, ty: &String) -> (field: Field)
    ensures
        field@ == (FieldView::Data {
            name: member@.name,
            visibility: member@.visibility,
            attributes: member@.attributes,
            ty: ty@,
        }),
{
    Field::Data {
        name: member.name.clone(),
        visibility: member.visibility.clone(),
        attributes: copy_attributes(&member.attributes),
        ty: ty.clone(),
    }
}

/// Builds the accessor of a callable member with the given signature that
/// takes the given slot.
pub fn build_accessor(member: &Member, signature: &Signature, slot: usize) -> (accessor: Accessor)
    ensures
        accessor@ == (AccessorView {
            name: member@.name,
            visibility: member@.visibility,
            attributes: passed_on(member@.attributes),
            signature: signature@,
            slot,
        }),
{
    Accessor {
        name: member.name.clone(),
        visibility: member.visibility.clone(),
        attributes: copy_passed_on(&member.attributes),
        signature: signature.clone(),
        slot,
    }
}

/// Plans the record and the accessors of a declaration.
///
/// The result is [`generation`] of the declaration: on every declaration
/// whose members are all in order the record and the accessors, and else
/// the refusal of the first member that is not.
pub fn generate(declaration: &Declaration) -> (outcome: Result<Generated, GenerateError>)
    ensures
        match outcome {
            Ok(generated) => generation(declaration@) == Ok::<GeneratedView, GenerateErrorView>(
                generated@,
            ),
            Err(error) => generation(declaration@) == Err::<GeneratedView, GenerateErrorView>(
                error@,
            ),
        },
{
    let members = &declaration.members;
    let mut fields: Vec<Field> = Vec::new();
    fields.push(Field::TablePointer);
    let mut accessors: Vec<Accessor> = Vec::new();
    let mut cursor: usize = 0;
    let mut index: usize = 0;
    proof {
        assert(views(fields@) =~= seq![FieldView::TablePointer]);
        assert(views(accessors@) =~= Seq::<AccessorView>::empty());
    }
    while index < members.len()
        invariant
            *members == declaration.members,
            index <= members.len(),
            planned(views(members@).take(index as int)) == Ok::<PlanView, GenerateErrorView>(
                PlanView { fields: views(fields@), accessors: views(accessors@) },
            ),
            cursor == plan_cursor(views(accessors@)),
        decreases members.len() - index,
    {
        let member = &members[index];
        proof {
            let all = views(members@);
            assert(all.take(index + 1).drop_last() == all.take(index as int));
            assert(all.take(index + 1).last() == member@);
        }
        match &member.shape {
            Shape::Data { ty } => match find_directive(&member.attributes) {
                Some(kind) => {
                    proof {
                        planned_fails_on(views(members@), index as int);
                    }
                    return Err(
                        GenerateError {
                            member: member.name.clone(),
                            kind: ErrorKind::Misplaced(kind),
                        },
                    );
                },
                None => {
                    let field = build_field(member, ty);
                    proof {
                        views_push(fields@, field);
                    }
                    fields.push(field);
                },
            },
            Shape::Callable { signature } => {
                let found = match member_directives(&member.attributes) {
                    Ok(found) => found,
                    Err(fault) => {
                        proof {
                            planned_fails_on(views(members@), index as int);
                        }
                        return Err(
                            GenerateError {
                                member: member.name.clone(),
                                kind: ErrorKind::Directive(fault),
                            },
                        );
                    },
                };
                match place(cursor, &found) {
                    Ok(slot) => {
                        let accessor = build_accessor(member, signature, slot);
                        proof {
                            views_push(accessors@, accessor);
                        }
                        accessors.push(accessor);
                        cursor = slot + 1;
                    },
                    Err(fault) => {
                        proof {
                            planned_fails_on(views(members@), index as int);
                        }
                        return Err(
                            GenerateError {
                                member: member.name.clone(),
                                kind: ErrorKind::Slot(fault),
                            },
                        );
                    },
                }
            },
        }
        index += 1;
    }
    proof {
        assert(views(members@).take(index as int) == views(members@));
    }
    Ok(
        Generated {
            record: Record {
                name: declaration.name.clone(),
                visibility: declaration.visibility.clone(),
                attributes: copy_attributes(&declaration.attributes),
                fields,
            },
            accessors,
        },
    )
}

} // verus!
