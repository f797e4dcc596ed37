//! Slot resolution: which entry of the dispatch table each callable member
//! takes.
//!
//! One cursor runs through the whole declaration. It starts at 0. Before a
//! member takes its slot, the member's directives are applied to the cursor
//! in the order in which they are written: `offset` sets it, `check` compares
//! it, `skip` moves it. The member then takes the slot at the cursor, and the
//! cursor advances by one.
//!
//! The cursor is a `usize`. No member takes the slot `usize::MAX`, since the
//! cursor could not advance past it.

use vstd::prelude::*;
use crate::directive::Directive;

verus! {

/// Why a member cannot take a slot.
#[derive(Clone, Copy, Debug, PartialEq, Eq, Structural)]
pub enum SlotFault {
    /// A `check` named one slot while the cursor stood at another.
    CheckMismatch { expected: usize, actual: usize },
    /// A `skip` would move the cursor below 0.
    NegativeCursor { cursor: usize, delta: i64 },
    /// The cursor cannot go beyond `usize::MAX`.
    OutOfRange { cursor: usize },
}

/// A fault together with the position, among the callable members, of the
/// member at which it was met.
#[derive(Clone, Copy, Debug, PartialEq, Eq, Structural)]
pub struct ResolveError {
    pub member: usize,
    pub fault: SlotFault,
}

/// The cursor after one directive was applied to it.
pub open spec fn applied(cursor: int, directive: Directive) -> Result<int, SlotFault> {
    match directive {
        Directive::Offset(slot) => Ok(slot as int),
        Directive::Check(slot) => if cursor == slot {
            Ok(cursor)
        } else {
            Err(SlotFault::CheckMismatch { expected: slot, actual: cursor as usize })
        },
        Directive::Skip(delta) => if cursor + delta < 0 {
            Err(SlotFault::NegativeCursor { cursor: cursor as usize, delta })
        } else if cursor + delta > usize::MAX {
            Err(SlotFault::OutOfRange { cursor: cursor as usize })
        } else {
            Ok(cursor + delta)
        },
    }
}

/// The cursor after a member's directives were applied to it in order, or
/// the first fault.
pub open spec fn moved(cursor: int, directives: Seq<Directive>) -> Result<int, SlotFault>
    decreases directives.len(),
{
    if directives.len() == 0 {
        Ok(cursor)
    } else {
        match moved(cursor, directives.drop_last()) {
            Ok(cursor) => applied(cursor, directives.last()),
            Err(fault) => Err(fault),
        }
    }
}

/// The slot of a member with the given directives, when the cursor stands
/// at `cursor` before them.
pub open spec fn placed(cursor: int, directives: Seq<Directive>) -> Result<int, SlotFault> {
    match moved(cursor, directives) {
        Ok(slot) => if slot < usize::MAX {
            Ok(slot)
        } else {
            Err(SlotFault::OutOfRange { cursor: slot as usize })
        },
        Err(fault) => Err(fault),
    }
}

/// Where the cursor stands after the members that took `slots`: at 0 before
/// the first member, and one past the slot of the last member after it.
pub open spec fn cursor_after(slots: Seq<usize>) -> int {
    if slots.len() == 0 {
        0
    } else {
        slots.last() + 1
    }
}

/// The slots of the callable members whose directives are `members`, in
/// declaration order, or the first fault and the position of its member.
pub open spec fn resolved(members: Seq<Seq<Directive>>) -> Result<Seq<usize>, ResolveError>
    decreases members.len(),
{
    if members.len() == 0 {
        Ok(Seq::empty())
    } else {
        match resolved(members.drop_last()) {
            Ok(slots) => match placed(cursor_after(slots), members.last()) {
                Ok(slot) => Ok(slots.push(slot as usize)),
                Err(fault) => Err(ResolveError { member: (members.len() - 1) as usize, fault }),
            },
            Err(error) => Err(error),
        }
    }
}

/// The directive lists held by a sequence of vectors.
pub open spec fn lists(members: Seq<Vec<Directive>>) -> Seq<Seq<Directive>> {
    members.map_values(|directives: Vec<Directive>| directives@)
}

/// Applies one directive to the cursor.
pub fn apply(cursor: usize, directive: Directive) -> (outcome: Result<usize, SlotFault>)
    ensures
        match outcome {
            Ok(next) => applied(cursor as int, directive) == Ok::<int, SlotFault>(next as int),
            Err(fault) => applied(cursor as int, directive) == Err::<int, SlotFault>(fault),
        },
{
    match directive {
        Directive::Offset(slot) => Ok(slot),
        Directive::Check(slot) => if cursor == slot {
            Ok(cursor)
        } else {
            Err(SlotFault::CheckMismatch { expected: slot, actual: cursor })
        },
        Directive::Skip(delta) => {
            let target: i128 = cursor as i128 + delta as i128;
            if target < 0 {
                Err(SlotFault::NegativeCursor { cursor, delta })
            } else if target > usize::MAX as i128 {
                Err(SlotFault::OutOfRange { cursor })
            } else {
                Ok(target as usize)
            }
        },
    }
}

/// Resolves the slot of one member: applies its directives to the cursor in
/// order and hands back where the cursor then stands.
pub fn place(cursor: usize, directives: &Vec<Directive>) -> (outcome: Result<usize, SlotFault>)
    ensures
        match outcome {
            Ok(slot) => placed(cursor as int, directives@) == Ok::<int, SlotFault>(slot as int),
            Err(fault) => placed(cursor as int, directives@) == Err::<int, SlotFault>(fault),
        },
{
    let mut current: usize = cursor;
    let mut index: usize = 0;
    while index < directives.len()
        invariant
            index <= directives.len(),
            moved(cursor as int, directives@.take(index as int)) == Ok::<int, SlotFault>(
                current as int,
            ),
        decreases directives.len() - index,
    {
        proof {
            assert(directives@.take(index + 1).drop_last() == directives@.take(index as int));
        }
        match apply(current, directives[index]) {
            Ok(next) => {
                current = next;
            },
            Err(fault) => {
                proof {
                    moved_fails_on(cursor as int, directives@, index as int);
                }
                return Err(fault);
            },
        }
        index += 1;
    }
    proof {
        assert(directives@.take(index as int) == directives@);
    }
    if current < usize::MAX {
        Ok(current)
    } else {
        Err(SlotFault::OutOfRange { cursor: current })
    }
}

/// A fault met in a prefix of the directives is the fault of the whole list.
pub proof fn moved_fails_on(cursor: int, directives: Seq<Directive>, index: int)
    requires
        0 <= index < directives.len(),
        moved(cursor, directives.take(index + 1)) is Err,
    ensures
        moved(cursor, directives) == moved(cursor, directives.take(index + 1)),
    decreases directives.len(),
{
    if index + 1 == directives.len() {
        assert(directives.take(index + 1) == directives);
    } else {
        assert(directives.drop_last().take(index + 1) == directives.take(index + 1));
        moved_fails_on(cursor, directives.drop_last(), index);
    }
}

/// Resolves the slots of the callable members of a declaration, given the
/// directives of each in declaration order.
pub fn resolve_slots(members: &Vec<Vec<Directive>>) -> (outcome: Result<Vec<usize>, ResolveError>)
    ensures
        match outcome {
            Ok(slots) => resolved(lists(members@)) == Ok::<Seq<usize>, ResolveError>(slots@),
            Err(error) => resolved(lists(members@)) == Err::<Seq<usize>, ResolveError>(error),
        },
{
    let mut slots: Vec<usize> = Vec::new();
    let mut cursor: usize = 0;
    let mut index: usize = 0;
    while index < members.len()
        invariant
            index <= members.len(),
            resolved(lists(members@).take(index as int)) == Ok::<Seq<usize>, ResolveError>(
                slots@,
            ),
            cursor == cursor_after(slots@),
        decreases members.len() - index,
    {
        proof {
            let all = lists(members@);
            assert(all.take(index + 1).drop_last() == all.take(index as int));
            assert(all.take(index + 1).last() == members@[index as int]@);
        }
        match place(cursor, &members[index]) {
            Ok(slot) => {
                slots.push(slot);
                cursor = slot + 1;
            },
            Err(fault) => {
                proof {
                    resolved_fails_on(lists(members@), index as int);
                }
                return Err(ResolveError { member: index, fault });
            },
        }
        index += 1;
    }
    proof {
        assert(lists(members@).take(index as int) == lists(members@));
    }
    Ok(slots)
}

/// A fault met in a prefix of the members is the fault of the whole list.
pub proof fn resolved_fails_on(members: Seq<Seq<Directive>>, index: int)
    requires
        0 <= index < members.len(),
        resolved(members.take(index + 1)) is Err,
    ensures
        resolved(members) == resolved(members.take(index + 1)),
    decreases members.len(),
{
    if index + 1 == members.len() {
        assert(members.take(index + 1) == members);
    } else {
        assert(members.drop_last().take(index + 1) == members.take(index + 1));
        resolved_fails_on(members.drop_last(), index);
    }
}

} // verus!
