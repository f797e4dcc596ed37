use viable::directive::{DirectiveFault, DirectiveKind};
use viable::error::{ErrorKind, GenerateError};
use viable::slots::SlotFault;
use viable::text::{decimal, signed};

fn refused(member: &str, kind: ErrorKind) -> String {
    GenerateError { member: member.to_string(), kind }.message()
}

#[test]
fn numbers_in_decimal() {
    assert_eq!(decimal(0), "0");
    assert_eq!(decimal(7), "7");
    assert_eq!(decimal(10), "10");
    assert_eq!(decimal(1234567890), "1234567890");
    assert_eq!(decimal(u128::MAX), u128::MAX.to_string());
    assert_eq!(signed(0), "0");
    assert_eq!(signed(15), "15");
    assert_eq!(signed(-5), "-5");
    assert_eq!(signed(i64::MIN), i64::MIN.to_string());
    assert_eq!(signed(i64::MAX), i64::MAX.to_string());
}

#[test]
fn messages_name_member_directive_and_slots() {
    assert_eq!(
        refused(
            "third",
            ErrorKind::Slot(SlotFault::CheckMismatch { expected: 3, actual: 2 })
        ),
        "member `third`: check expected slot 3, but the cursor stands at slot 2"
    );
    assert_eq!(
        refused(
            "first",
            ErrorKind::Slot(SlotFault::NegativeCursor { cursor: 0, delta: -5 })
        ),
        "member `first`: skip by -5 moves the cursor below 0 from slot 0"
    );
    assert_eq!(
        refused("far", ErrorKind::Slot(SlotFault::OutOfRange { cursor: 12 })),
        "member `far`: the cursor cannot go beyond slot 12"
    );
    assert_eq!(
        refused(
            "add",
            ErrorKind::Directive(DirectiveFault::Malformed(DirectiveKind::Offset))
        ),
        "member `add`: offset needs one integer literal in its range as argument"
    );
    assert_eq!(
        refused(
            "add",
            ErrorKind::Directive(DirectiveFault::Duplicate(DirectiveKind::Skip))
        ),
        "member `add`: skip is given more than once"
    );
    assert_eq!(
        refused("add", ErrorKind::Directive(DirectiveFault::Conflicting)),
        "member `add`: offset and check cannot stand on one member"
    );
    assert_eq!(
        refused("internal", ErrorKind::Misplaced(DirectiveKind::Check)),
        "member `internal`: check stands on a member that is not callable"
    );
}

#[test]
fn every_fault_has_its_own_text() {
    assert_eq!(
        ErrorKind::Misplaced(DirectiveKind::Skip).describe(),
        "skip stands on a member that is not callable"
    );
    assert_eq!(
        ErrorKind::Slot(SlotFault::CheckMismatch { expected: 10, actual: 0 }).describe(),
        "check expected slot 10, but the cursor stands at slot 0"
    );
}

#[test]
fn a_refusal_can_be_copied() {
    let error = GenerateError {
        member: "age".to_string(),
        kind: ErrorKind::Misplaced(DirectiveKind::Offset),
    };
    assert_eq!(error.clone(), error);
}
