//! Why a declaration was refused, and the message that says so.

use vstd::prelude::*;
use vstd::string::StringExecFns;
use crate::directive::{DirectiveFault, DirectiveKind};
use crate::slots::SlotFault;
use crate::text::{decimal, decimal_text, signed, signed_text};

verus! {

/// What is wrong with a member.
#[derive(Clone, Copy, Debug, PartialEq, Eq, Structural)]
pub enum ErrorKind {
    /// The member's directives are ill-formed or do not go together.
    Directive(DirectiveFault),
    /// A directive stands on a member that is not callable.
    Misplaced(DirectiveKind),
    /// The member cannot take a slot.
    Slot(SlotFault),
}

/// A refusal: the name of the offending member and what is wrong with it.
/// Nothing is written out for a declaration that is refused.
#[derive(Debug, PartialEq, Eq)]
pub struct GenerateError {
    pub member: String,
    pub kind: ErrorKind,
}

pub struct GenerateErrorView {
    pub member: Seq<char>,
    pub kind: ErrorKind,
}

impl View for GenerateError {
    type V = GenerateErrorView;

    open spec fn view(&self) -> GenerateErrorView {
        GenerateErrorView { member: self.member@, kind: self.kind }
    }
}

impl Clone for GenerateError {
    fn clone(&self) -> (copy: GenerateError)
        ensures
            copy@ == self@,
    {
        GenerateError { member: self.member.clone(), kind: self.kind }
    }
}

/// The name under which a directive is written.
pub open spec fn kind_text(kind: DirectiveKind) -> Seq<char> {
    match kind {
        DirectiveKind::Offset => "offset"@,
        DirectiveKind::Check => "check"@,
        DirectiveKind::Skip => "skip"@,
    }
}

/// What the message says of the fault: the directive, and for a fault of
/// the cursor the slot that was expected and the one that was met.
pub open spec fn fault_text(kind: ErrorKind) -> Seq<char> {
    match kind {
        ErrorKind::Directive(DirectiveFault::Malformed(directive)) => kind_text(directive)
            + " needs one integer literal in its range as argument"@,
        ErrorKind::Directive(DirectiveFault::Duplicate(directive)) => kind_text(directive)
            + " is given more than once"@,
        ErrorKind::Directive(DirectiveFault::Conflicting) =>
            "offset and check cannot stand on one member"@,
        ErrorKind::Misplaced(directive) => kind_text(directive)
            + " stands on a member that is not callable"@,
        ErrorKind::Slot(SlotFault::CheckMismatch { expected, actual }) => "check expected slot "@
            + decimal_text(expected as nat) + ", but the cursor stands at slot "@ + decimal_text(
            actual as nat,
        ),
        ErrorKind::Slot(SlotFault::NegativeCursor { cursor, delta }) => "skip by "@ + signed_text(
            delta as int,
        ) + " moves the cursor below 0 from slot "@ + decimal_text(cursor as nat),
        ErrorKind::Slot(SlotFault::OutOfRange { cursor }) =>
            "the cursor cannot go beyond slot "@ + decimal_text(cursor as nat),
    }
}

/// The whole message: the member's name, then the fault.
pub open spec fn message_text(error: GenerateErrorView) -> Seq<char> {
    "member `"@ + error.member + "`: "@ + fault_text(error.kind)
}

impl DirectiveKind {
    /// The name under which the directive is written.
    pub fn name(&self) -> (text: &'static str)
        ensures
            text@ == kind_text(*self),
    {
        match self {
            DirectiveKind::Offset => "offset",
            DirectiveKind::Check => "check",
            DirectiveKind::Skip => "skip",
        }
    }
}

impl ErrorKind {
    /// Says what is wrong.
    pub fn describe(&self) -> (text: String)
        ensures
            text@ == fault_text(*self),
    {
        match *self {
            ErrorKind::Directive(DirectiveFault::Malformed(directive)) => {
                let mut text = String::from_str(directive.name());
                text.append(" needs one integer literal in its range as argument");
                text
            },
            ErrorKind::Directive(DirectiveFault::Duplicate(directive)) => {
                let mut text = String::from_str(directive.name());
                text.append(" is given more than once");
                text
            },
            ErrorKind::Directive(DirectiveFault::Conflicting) => String::from_str(
                "offset and check cannot stand on one member",
            ),
            ErrorKind::Misplaced(directive) => {
                let mut text = String::from_str(directive.name());
                text.append(" stands on a member that is not callable");
                text
            },
            ErrorKind::Slot(SlotFault::CheckMismatch { expected, actual }) => {
                let mut text = String::from_str("check expected slot ");
                let expected_text = decimal(expected as u128);
                text.append(expected_text.as_str());
                text.append(", but the cursor stands at slot ");
                let actual_text = decimal(actual as u128);
                text.append(actual_text.as_str());
                text
            },
            ErrorKind::Slot(SlotFault::NegativeCursor { cursor, delta }) => {
                let mut text = String::from_str("skip by ");
                let delta_text = signed(delta);
                text.append(delta_text.as_str());
                text.append(" moves the cursor below 0 from slot ");
                let cursor_text = decimal(cursor as u128);
                text.append(cursor_text.as_str());
                text
            },
            ErrorKind::Slot(SlotFault::OutOfRange { cursor }) => {
                let mut text = String::from_str("the cursor cannot go beyond slot ");
                let cursor_text = decimal(cursor as u128);
                text.append(cursor_text.as_str());
                text
            },
        }
    }
}

impl GenerateError {
    /// The message for the author of the declaration.
    pub fn message(&self) -> (text: String)
        ensures
            text@ == message_text(self@),
    {
        let mut text = String::from_str("member `");
        text.append(self.member.as_str());
        text.append("`: ");
        let fault = self.kind.describe();
        text.append(fault.as_str());
        text
    }
}

} // verus!
