//! The declaration that a caller hands in, as plain values.
//!
//! Types, visibilities and calling conventions are carried as the text in
//! which they were written; the library never looks inside them. Each type
//! has a view in which every text is a sequence of characters, and the
//! contracts of the library speak of those views.

use vstd::prelude::*;

verus! {

/// The views of the items of a sequence, in the same order.
pub open spec fn views<T: View>(items: Seq<T>) -> Seq<T::V> {
    items.map_values(|item: T| item@)
}

/// The views of a sequence that was extended by one item.
pub proof fn views_push<T: View>(items: Seq<T>, item: T)
    ensures
        views(items.push(item)) == views(items).push(item@),
{
    assert(views(items.push(item)) =~= views(items).push(item@));
}

/// The view of an optional text.
pub open spec fn optional_text(text: Option<String>) -> Option<Seq<char>> {
    match text {
        Some(text) => Some(text@),
        None => None,
    }
}

/// An attribute attached to a declaration or to one of its members.
#[derive(Debug, PartialEq, Eq)]
pub struct Attribute {
    /// The attribute's path, such as `offset` or `doc`.
    pub name: String,
    /// What stands between the parentheses where the attribute is written
    /// as a path followed by a parenthesised argument.
    pub argument: Option<String>,
    /// The whole attribute as it was written, for handing it on unchanged.
    pub text: String,
}

pub struct AttributeView {
    pub name: Seq<char>,
    pub argument: Option<Seq<char>>,
    pub text: Seq<char>,
}

impl View for Attribute {
    type V = AttributeView;

    open spec fn view(&self) -> AttributeView {
        AttributeView {
            name: self.name@,
            argument: optional_text(self.argument),
            text: self.text@,
        }
    }
}

/// One declared parameter of a callable member.
#[derive(Debug, PartialEq, Eq)]
pub struct Parameter {
    /// The attributes written before the parameter.
    pub attributes: Vec<Attribute>,
    /// The parameter's name, where the declaration gives one.
    pub name: Option<String>,
    /// The parameter's type.
    pub ty: String,
}

pub struct ParameterView {
    pub attributes: Seq<AttributeView>,
    pub name: Option<Seq<char>>,
    pub ty: Seq<char>,
}

impl View for Parameter {
    type V = ParameterView;

    open spec fn view(&self) -> ParameterView {
        ParameterView {
            attributes: views(self.attributes@),
            name: optional_text(self.name),
            ty: self.ty@,
        }
    }
}

/// The bare callable type of a callable member, part by part.
#[derive(Debug, PartialEq, Eq)]
pub struct Signature {
    /// The lifetimes that the type binds, as written before the rest of
    /// it; empty where it binds none.
    pub lifetimes: String,
    /// Whether the type is marked as unchecked to call.
    pub unsafety: bool,
    /// The name of the calling convention, empty where none is given.
    pub convention: String,
    pub parameters: Vec<Parameter>,
    /// The variadic tail as written, empty where the type has none.
    pub variadic: String,
    /// The return type, empty where the callable returns nothing.
    pub output: String,
}

pub struct SignatureView {
    pub lifetimes: Seq<char>,
    pub unsafety: bool,
    pub convention: Seq<char>,
    pub parameters: Seq<ParameterView>,
    pub variadic: Seq<char>,
    pub output: Seq<char>,
}

impl View for Signature {
    type V = SignatureView;

    open spec fn view(&self) -> SignatureView {
        SignatureView {
            lifetimes: self.lifetimes@,
            unsafety: self.unsafety,
            convention: self.convention@,
            parameters: views(self.parameters@),
            variadic: self.variadic@,
            output: self.output@,
        }
    }
}

/// What a member is, by the shape of its declared type.
#[derive(Debug, PartialEq, Eq)]
pub enum Shape {
    /// A data member: anything whose type is not a bare callable type.
    Data { ty: String },
    /// A callable member: its type is a bare callable type.
    Callable { signature: Signature },
}

pub enum ShapeView {
    Data { ty: Seq<char> },
    Callable { signature: SignatureView },
}

impl View for Shape {
    type V = ShapeView;

    open spec fn view(&self) -> ShapeView {
        match *self {
            Shape::Data { ty } => ShapeView::Data { ty: ty@ },
            Shape::Callable { signature } => ShapeView::Callable { signature: signature@ },
        }
    }
}

/// A named member of a declaration.
#[derive(Debug, PartialEq, Eq)]
pub struct Member {
    pub name: String,
    pub visibility: String,
    pub attributes: Vec<Attribute>,
    pub shape: Shape,
}

pub struct MemberView {
    pub name: Seq<char>,
    pub visibility: Seq<char>,
    pub attributes: Seq<AttributeView>,
    pub shape: ShapeView,
}

impl View for Member {
    type V = MemberView;

    open spec fn view(&self) -> MemberView {
        MemberView {
            name: self.name@,
            visibility: self.visibility@,
            attributes: views(self.attributes@),
            shape: self.shape@,
        }
    }
}

impl MemberView {
    /// Whether the member stands for an entry of the dispatch table.
    pub open spec fn is_callable(self) -> bool {
        self.shape is Callable
    }
}

/// A structural declaration: a name and an ordered list of members.
#[derive(Debug, PartialEq, Eq)]
pub struct Declaration {
    pub name: String,
    pub visibility: String,
    pub attributes: Vec<Attribute>,
    pub members: Vec<Member>,
}

pub struct DeclarationView {
    pub name: Seq<char>,
    pub visibility: Seq<char>,
    pub attributes: Seq<AttributeView>,
    pub members: Seq<MemberView>,
}

impl View for Declaration {
    type V = DeclarationView;

    open spec fn view(&self) -> DeclarationView {
        DeclarationView {
            name: self.name@,
            visibility: self.visibility@,
            attributes: views(self.attributes@),
            members: views(self.members@),
        }
    }
}

/// A copy of an optional text.
pub fn copy_optional_text(text: &Option<String>) -> (copy: Option<String>)
    ensures
        optional_text(copy) == optional_text(*text),
{
    match text {
        Some(text) => Some(text.clone()),
        None => None,
    }
}

impl Clone for Attribute {
    fn clone(&self) -> (copy: Attribute)
        ensures
            copy@ == self@,
    {
        Attribute {
            name: self.name.clone(),
            argument: copy_optional_text(&self.argument),
            text: self.text.clone(),
        }
    }
}

/// A copy of a list of attributes.
pub fn copy_attributes(attributes: &Vec<Attribute>) -> (copy: Vec<Attribute>)
    ensures
        views(copy@) == views(attributes@),
{
    let mut copy: Vec<Attribute> = Vec::new();
    let mut index: usize = 0;
    while index < attributes.len()
        invariant
            index <= attributes.len(),
            views(copy@) == views(attributes@.take(index as int)),
        decreases attributes.len() - index,
    {
        let item = attributes[index].clone();
        proof {
            views_push(copy@, item);
            views_push(attributes@.take(index as int), attributes@[index as int]);
            assert(attributes@.take(index + 1) == attributes@.take(index as int).push(
                attributes@[index as int],
            ));
        }
        copy.push(item);
        index += 1;
    }
    proof {
        assert(attributes@.take(index as int) == attributes@);
    }
    copy
}

impl Clone for Parameter {
    fn clone(&self) -> (copy: Parameter)
        ensures
            copy@ == self@,
    {
        Parameter {
            attributes: copy_attributes(&self.attributes),
            name: copy_optional_text(&self.name),
            ty: self.ty.clone(),
        }
    }
}

/// A copy of a list of parameters.
pub fn copy_parameters(parameters: &Vec<Parameter>) -> (copy: Vec<Parameter>)
    ensures
        views(copy@) == views(parameters@),
{
    let mut copy: Vec<Parameter> = Vec::new();
    let mut index: usize = 0;
    while index < parameters.len()
        invariant
            index <= parameters.len(),
            views(copy@) == views(parameters@.take(index as int)),
        decreases parameters.len() - index,
    {
        let item = parameters[index].clone();
        proof {
            views_push(copy@, item);
            views_push(parameters@.take(index as int), parameters@[index as int]);
            assert(parameters@.take(index + 1) == parameters@.take(index as int).push(
                parameters@[index as int],
            ));
        }
        copy.push(item);
        index += 1;
    }
    proof {
        assert(parameters@.take(index as int) == parameters@);
    }
    copy
}

impl Clone for Signature {
    fn clone(&self) -> (copy: Signature)
        ensures
            copy@ == self@,
    {
        Signature {
            lifetimes: self.lifetimes.clone(),
            unsafety: self.unsafety,
            convention: self.convention.clone(),
            parameters: copy_parameters(&self.parameters),
            variadic: self.variadic.clone(),
            output: self.output.clone(),
        }
    }
}

impl Clone for Shape {
    fn clone(&self) -> (copy: Shape)
        ensures
            copy@ == self@,
    {
        match self {
            Shape::Data { ty } => Shape::Data { ty: ty.clone() },
            Shape::Callable { signature } => Shape::Callable { signature: signature.clone() },
        }
    }
}

impl Clone for Member {
    fn clone(&self) -> (copy: Member)
        ensures
            copy@ == self@,
    {
        Member {
            name: self.name.clone(),
            visibility: self.visibility.clone(),
            attributes: copy_attributes(&self.attributes),
            shape: self.shape.clone(),
        }
    }
}

} // verus!
