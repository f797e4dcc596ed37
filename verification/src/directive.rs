//! Directives: the attributes `offset`, `check` and `skip` of a callable
//! member, and the rules on which of them may stand together.

use vstd::prelude::*;
use vstd::string::StringExecFns;
use crate::literal::{integer_of, parse_integer};
use crate::model::{views, views_push, Attribute, AttributeView};

verus! {

/// The three kinds of directive.
#[derive(Clone, Copy, Debug, PartialEq, Eq, Structural)]
pub enum DirectiveKind {
    Offset,
    Check,
    Skip,
}

/// A directive with its argument.
#[derive(Clone, Copy, Debug, PartialEq, Eq, Structural)]
pub enum Directive {
    /// Sets the cursor to the given slot.
    Offset(usize),
    /// Demands that the cursor stands at the given slot.
    Check(usize),
    /// Moves the cursor by the given number of slots, forwards or back.
    Skip(i64),
}

/// Why the attributes of a member do not make a list of directives.
#[derive(Clone, Copy, Debug, PartialEq, Eq, Structural)]
pub enum DirectiveFault {
    /// The argument is missing, is no integer literal, or is out of the
    /// directive's range.
    Malformed(DirectiveKind),
    /// A second directive of the same kind on one member.
    Duplicate(DirectiveKind),
    /// `offset` and `check` on one member.
    Conflicting,
}

/// The kind of a directive.
pub open spec fn kind_of(directive: Directive) -> DirectiveKind {
    match directive {
        Directive::Offset(_) => DirectiveKind::Offset,
        Directive::Check(_) => DirectiveKind::Check,
        Directive::Skip(_) => DirectiveKind::Skip,
    }
}

/// The kind of directive that an attribute of this name is, if any.
pub open spec fn kind_named(name: Seq<char>) -> Option<DirectiveKind> {
    if name == "offset"@ {
        Some(DirectiveKind::Offset)
    } else if name == "check"@ {
        Some(DirectiveKind::Check)
    } else if name == "skip"@ {
        Some(DirectiveKind::Skip)
    } else {
        None
    }
}

/// The directive of the given kind whose argument reads as `value`:
/// `offset` and `check` take a slot, `skip` a signed distance.
pub open spec fn directive_of(kind: DirectiveKind, value: Option<i128>) -> Option<Directive> {
    match value {
        None => None,
        Some(value) => match kind {
            DirectiveKind::Offset => if 0 <= value <= usize::MAX {
                Some(Directive::Offset(value as usize))
            } else {
                None
            },
            DirectiveKind::Check => if 0 <= value <= usize::MAX {
                Some(Directive::Check(value as usize))
            } else {
                None
            },
            DirectiveKind::Skip => if i64::MIN <= value <= i64::MAX {
                Some(Directive::Skip(value as i64))
            } else {
                None
            },
        },
    }
}

impl Directive {
    /// The kind of this directive.
    pub fn kind(&self) -> (kind: DirectiveKind)
        ensures
            kind == kind_of(*self),
    {
        match self {
            Directive::Offset(_) => DirectiveKind::Offset,
            Directive::Check(_) => DirectiveKind::Check,
            Directive::Skip(_) => DirectiveKind::Skip,
        }
    }

    /// Builds the directive of the given kind from the value that its
    /// argument was read as.
    pub fn from_value(kind: DirectiveKind, value: Option<i128>) -> (directive: Option<Directive>)
        ensures
            directive == directive_of(kind, value),
    {
        match value {
            None => None,
            Some(value) => match kind {
                DirectiveKind::Offset => if 0 <= value && value <= usize::MAX as i128 {
                    Some(Directive::Offset(value as usize))
                } else {
                    None
                },
                DirectiveKind::Check => if 0 <= value && value <= usize::MAX as i128 {
                    Some(Directive::Check(value as usize))
                } else {
                    None
                },
                DirectiveKind::Skip => if i64::MIN as i128 <= value && value <= i64::MAX as i128 {
                    Some(Directive::Skip(value as i64))
                } else {
                    None
                },
            },
        }
    }
}

impl DirectiveKind {
    /// The kind of directive that an attribute of this name is, if any.
    pub fn named(name: &String) -> (kind: Option<DirectiveKind>)
        ensures
            kind == kind_named(name@),
    {
        if *name == String::from_str("offset") {
            Some(DirectiveKind::Offset)
        } else if *name == String::from_str("check") {
            Some(DirectiveKind::Check)
        } else if *name == String::from_str("skip") {
            Some(DirectiveKind::Skip)
        } else {
            None
        }
    }
}

/// Whether a directive of the given kind is among `found`.
pub open spec fn has_kind(found: Seq<Directive>, kind: DirectiveKind) -> bool {
    exists|i: int| 0 <= i < found.len() && kind_of(#[trigger] found[i]) == kind
}

/// The kind that cannot stand on a member together with `kind`: `offset`
/// and `check` shut each other out, `skip` goes with either.
pub open spec fn rival_of(kind: DirectiveKind) -> Option<DirectiveKind> {
    match kind {
        DirectiveKind::Offset => Some(DirectiveKind::Check),
        DirectiveKind::Check => Some(DirectiveKind::Offset),
        DirectiveKind::Skip => None,
    }
}

/// Whether a member that already carries `found` can take one more
/// directive of the given kind, whose argument reads as `value`; and if so,
/// which directive that is.
pub open spec fn admitted(found: Seq<Directive>, kind: DirectiveKind, value: Option<i128>) -> Result<
    Directive,
    DirectiveFault,
> {
    if has_kind(found, kind) {
        Err(DirectiveFault::Duplicate(kind))
    } else if rival_of(kind) is Some && has_kind(found, rival_of(kind).unwrap()) {
        Err(DirectiveFault::Conflicting)
    } else {
        match directive_of(kind, value) {
            Some(directive) => Ok(directive),
            None => Err(DirectiveFault::Malformed(kind)),
        }
    }
}

/// The value that the argument of an attribute reads as.
pub open spec fn argument_value(attribute: AttributeView) -> Option<i128> {
    match attribute.argument {
        Some(text) => integer_of(text),
        None => None,
    }
}

/// The directives of a member after one more of its attributes was read.
/// An attribute that is no directive changes nothing.
pub open spec fn extended(found: Seq<Directive>, attribute: AttributeView) -> Result<
    Seq<Directive>,
    DirectiveFault,
> {
    match kind_named(attribute.name) {
        None => Ok(found),
        Some(kind) => match admitted(found, kind, argument_value(attribute)) {
            Ok(directive) => Ok(found.push(directive)),
            Err(fault) => Err(fault),
        },
    }
}

/// The directives among the attributes of a member, in the order in which
/// they are written, or the first fault met in that order.
pub open spec fn directives(attributes: Seq<AttributeView>) -> Result<
    Seq<Directive>,
    DirectiveFault,
>
    decreases attributes.len(),
{
    if attributes.len() == 0 {
        Ok(Seq::empty())
    } else {
        match directives(attributes.drop_last()) {
            Ok(found) => extended(found, attributes.last()),
            Err(fault) => Err(fault),
        }
    }
}

/// The kind of the first attribute that is a directive, if there is one.
pub open spec fn first_directive(attributes: Seq<AttributeView>) -> Option<DirectiveKind>
    decreases attributes.len(),
{
    if attributes.len() == 0 {
        None
    } else {
        match first_directive(attributes.drop_last()) {
            Some(kind) => Some(kind),
            None => kind_named(attributes.last().name),
        }
    }
}

/// The attributes that are no directives, in their order.
pub open spec fn passed_on(attributes: Seq<AttributeView>) -> Seq<AttributeView> {
    attributes.filter(|attribute: AttributeView| kind_named(attribute.name) is None)
}

/// Tests whether a directive of the given kind is among `found`.
pub fn contains_kind(found: &Vec<Directive>, kind: DirectiveKind) -> (present: bool)
    ensures
        present == has_kind(found@, kind),
{
    let mut index: usize = 0;
    while index < found.len()
        invariant
            index <= found.len(),
            forall|i: int| 0 <= i < index ==> kind_of(#[trigger] found@[i]) != kind,
        decreases found.len() - index,
    {
        if found[index].kind() == kind {
            return true;
        }
        index += 1;
    }
    false
}

/// Decides whether a member that already carries `found` can take one more
/// directive of the given kind, whose argument was read as `value`.
pub fn accept(found: &Vec<Directive>, kind: DirectiveKind, value: Option<i128>) -> (outcome: Result<
    Directive,
    DirectiveFault,
>)
    ensures
        outcome == admitted(found@, kind, value),
{
    if contains_kind(found, kind) {
        return Err(DirectiveFault::Duplicate(kind));
    }
    let clash = match kind {
        DirectiveKind::Offset => contains_kind(found, DirectiveKind::Check),
        DirectiveKind::Check => contains_kind(found, DirectiveKind::Offset),
        DirectiveKind::Skip => false,
    };
    if clash {
        return Err(DirectiveFault::Conflicting);
    }
    match Directive::from_value(kind, value) {
        Some(directive) => Ok(directive),
        None => Err(DirectiveFault::Malformed(kind)),
    }
}

/// Reads the argument of an attribute as an integer literal.
pub fn read_argument(attribute: &Attribute) -> (value: Option<i128>)
    ensures
        value == argument_value(attribute@),
{
    match &attribute.argument {
        Some(text) => parse_integer(text.as_str()),
        None => None,
    }
}

/// Collects the directives of a member from its attributes.
pub fn member_directives(attributes: &Vec<Attribute>) -> (outcome: Result<
    Vec<Directive>,
    DirectiveFault,
>)
    ensures
        match outcome {
            Ok(found) => directives(views(attributes@)) == Ok::<Seq<Directive>, DirectiveFault>(
                found@,
            ),
            Err(fault) => directives(views(attributes@)) == Err::<Seq<Directive>, DirectiveFault>(
                fault,
            ),
        },
{
    let mut found: Vec<Directive> = Vec::new();
    let mut index: usize = 0;
    while index < attributes.len()
        invariant
            index <= attributes.len(),
            directives(views(attributes@).take(index as int)) == Ok::<
                Seq<Directive>,
                DirectiveFault,
            >(found@),
        decreases attributes.len() - index,
    {
        let attribute = &attributes[index];
        proof {
            let all = views(attributes@);
            assert(all.take(index + 1).drop_last() == all.take(index as int));
            assert(all.take(index + 1).last() == attribute@);
        }
        match DirectiveKind::named(&attribute.name) {
            None => {},
            Some(kind) => match accept(&found, kind, read_argument(attribute)) {
                Ok(directive) => {
                    found.push(directive);
                },
                Err(fault) => {
                    proof {
                        directives_fail_on(views(attributes@), index as int);
                    }
                    return Err(fault);
                },
            },
        }
        index += 1;
    }
    proof {
        assert(views(attributes@).take(index as int) == views(attributes@));
    }
    Ok(found)
}

/// A fault met in a prefix of the attributes is the fault of the whole list.
pub proof fn directives_fail_on(attributes: Seq<AttributeView>, index: int)
    requires
        0 <= index < attributes.len(),
        directives(attributes.take(index + 1)) is Err,
    ensures
        directives(attributes) == directives(attributes.take(index + 1)),
    decreases attributes.len(),
{
    if index + 1 == attributes.len() {
        assert(attributes.take(index + 1) == attributes);
    } else {
        assert(attributes.drop_last().take(index + 1) == attributes.take(index + 1));
        directives_fail_on(attributes.drop_last(), index);
    }
}

/// Finds the first attribute that is a directive.
pub fn find_directive(attributes: &Vec<Attribute>) -> (kind: Option<DirectiveKind>)
    ensures
        kind == first_directive(views(attributes@)),
{
    let mut index: usize = 0;
    while index < attributes.len()
        invariant
            index <= attributes.len(),
            first_directive(views(attributes@).take(index as int)) is None,
        decreases attributes.len() - index,
    {
        let kind = DirectiveKind::named(&attributes[index].name);
        proof {
            let all = views(attributes@);
            assert(all.take(index + 1).drop_last() == all.take(index as int));
            assert(all.take(index + 1).last() == attributes@[index as int]@);
        }
        if kind.is_some() {
            proof {
                first_directive_found(views(attributes@), index as int);
            }
            return kind;
        }
        index += 1;
    }
    proof {
        assert(views(attributes@).take(index as int) == views(attributes@));
    }
    None
}

/// A directive found in a prefix of the attributes is the first of the
/// whole list.
pub proof fn first_directive_found(attributes: Seq<AttributeView>, index: int)
    requires
        0 <= index < attributes.len(),
        first_directive(attributes.take(index + 1)) is Some,
    ensures
        first_directive(attributes) == first_directive(attributes.take(index + 1)),
    decreases attributes.len(),
{
    if index + 1 == attributes.len() {
        assert(attributes.take(index + 1) == attributes);
    } else {
        assert(attributes.drop_last().take(index + 1) == attributes.take(index + 1));
        first_directive_found(attributes.drop_last(), index);
    }
}

/// Copies the attributes that are no directives, in their order.
pub fn copy_passed_on(attributes: &Vec<Attribute>) -> (copy: Vec<Attribute>)
    ensures
        views(copy@) == passed_on(views(attributes@)),
{
    let mut copy: Vec<Attribute> = Vec::new();
    let mut index: usize = 0;
    proof {
        assert(views(attributes@).take(0) =~= Seq::<AttributeView>::empty());
    }
    while index < attributes.len()
        invariant
            index <= attributes.len(),
            views(copy@) == passed_on(views(attributes@).take(index as int)),
        decreases attributes.len() - index,
    {
        let attribute = &attributes[index];
        proof {
            let all = views(attributes@);
            passed_on_push(all.take(index as int), attribute@);
            assert(all.take(index + 1) == all.take(index as int).push(attribute@));
        }
        if DirectiveKind::named(&attribute.name).is_none() {
            let item = attribute.clone();
            proof {
                views_push(copy@, item);
            }
            copy.push(item);
        }
        index += 1;
    }
    proof {
        assert(views(attributes@).take(index as int) == views(attributes@));
    }
    copy
}

/// What is passed on of a list of attributes that was extended by one.
pub proof fn passed_on_push(attributes: Seq<AttributeView>, attribute: AttributeView)
    ensures
        passed_on(attributes.push(attribute)) == if kind_named(attribute.name) is None {
            passed_on(attributes).push(attribute)
        } else {
            passed_on(attributes)
        },
{
    reveal(Seq::filter);
    assert(attributes.push(attribute).drop_last() == attributes);
}

} // verus!
