//! What holds of slot resolution on every declaration.

use vstd::prelude::*;
use crate::directive::Directive;
use crate::slots::{applied, cursor_after, moved, placed, resolved, ResolveError, SlotFault};

verus! {

/// Where the cursor stands before the member at `index` is resolved, as
/// long as the members before it resolve.
pub open spec fn running_cursor(members: Seq<Seq<Directive>>, index: int) -> int
    recommends
        0 <= index <= members.len(),
        resolved(members.take(index)) is Ok,
{
    cursor_after(resolved(members.take(index)).unwrap())
}

/// Resolution gives each member one slot.
pub proof fn one_slot_each(members: Seq<Seq<Directive>>)
    requires
        resolved(members) is Ok,
    ensures
        resolved(members).unwrap().len() == members.len(),
    decreases members.len(),
{
    if members.len() > 0 {
        one_slot_each(members.drop_last());
    }
}

/// Where a declaration resolves, so does every prefix of it, to the same
/// slots.
pub proof fn prefix_resolves(members: Seq<Seq<Directive>>, count: int)
    requires
        0 <= count <= members.len(),
        resolved(members) is Ok,
    ensures
        resolved(members.take(count)) == Ok::<Seq<usize>, ResolveError>(
            resolved(members).unwrap().take(count),
        ),
    decreases members.len(),
{
    one_slot_each(members);
    if count == members.len() {
        assert(members.take(count) == members);
        assert(resolved(members).unwrap().take(count) == resolved(members).unwrap());
    } else {
        let shorter = members.drop_last();
        one_slot_each(shorter);
        prefix_resolves(shorter, count);
        assert(shorter.take(count) == members.take(count));
        assert(resolved(shorter).unwrap().take(count) == resolved(members).unwrap().take(count));
    }
}

/// The step of resolution: after the members before `index` have resolved,
/// the member at `index` takes the slot that its directives give from the
/// running cursor, or resolution ends with that member's fault.
pub proof fn resolution_step(members: Seq<Seq<Directive>>, index: int)
    requires
        0 <= index < members.len(),
        resolved(members.take(index)) is Ok,
    ensures
        resolved(members.take(index + 1)) == match placed(
            running_cursor(members, index),
            members[index],
        ) {
            Ok(slot) => Ok::<Seq<usize>, ResolveError>(
                resolved(members.take(index)).unwrap().push(slot as usize),
            ),
            Err(fault) => Err::<Seq<usize>, ResolveError>(
                ResolveError { member: index as usize, fault },
            ),
        },
        resolved(members.take(index + 1)) is Err ==> resolved(members) == resolved(
            members.take(index + 1),
        ),
{
    assert(members.take(index + 1).drop_last() == members.take(index));
    if resolved(members.take(index + 1)) is Err {
        crate::slots::resolved_fails_on(members, index);
    }
}

/// Every slot of a resolved declaration is the one that the member's
/// directives give from the cursor, which stands at 0 before the first
/// member and one past the previous member's slot before each other.
pub proof fn slot_follows_cursor(members: Seq<Seq<Directive>>, index: int)
    requires
        0 <= index < members.len(),
        resolved(members) is Ok,
    ensures
        resolved(members).unwrap().len() == members.len(),
        running_cursor(members, index) == if index == 0 {
            0
        } else {
            resolved(members).unwrap()[index - 1] + 1
        },
        placed(running_cursor(members, index), members[index]) == Ok::<int, SlotFault>(
            resolved(members).unwrap()[index] as int,
        ),
        resolved(members).unwrap()[index] < usize::MAX,
{
    one_slot_each(members);
    prefix_resolves(members, index);
    prefix_resolves(members, index + 1);
    resolution_step(members, index);
    let slots = resolved(members).unwrap();
    assert(slots.take(index + 1).last() == slots[index]);
    if index > 0 {
        assert(slots.take(index).last() == slots[index - 1]);
    }
}

/// Members without directives take the slots 0, 1, 2, ... in declaration
/// order.
pub proof fn plain_members_count_up(members: Seq<Seq<Directive>>)
    requires
        members.len() <= usize::MAX,
        forall|i: int| 0 <= i < members.len() ==> (#[trigger] members[i]).len() == 0,
    ensures
        resolved(members) == Ok::<Seq<usize>, ResolveError>(
            Seq::new(members.len(), |i: int| i as usize),
        ),
    decreases members.len(),
{
    if members.len() == 0 {
        assert(Seq::new(0, |i: int| i as usize) =~= Seq::<usize>::empty());
    } else {
        let shorter = members.drop_last();
        plain_members_count_up(shorter);
        let slots = Seq::new(shorter.len(), |i: int| i as usize);
        assert(cursor_after(slots) == shorter.len());
        assert(moved(shorter.len() as int, members.last()) == Ok::<int, SlotFault>(
            shorter.len() as int,
        ));
        assert(slots.push(shorter.len() as usize) =~= Seq::new(
            members.len(),
            |i: int| i as usize,
        ));
    }
}

/// A member whose last directive is `offset` takes exactly the slot that
/// the directive names, and a member without directives that follows it
/// takes the next slot.
pub proof fn offset_sets_slot(members: Seq<Seq<Directive>>, index: int, slot: usize)
    requires
        0 <= index < members.len(),
        members[index].len() > 0,
        members[index].last() == Directive::Offset(slot),
        resolved(members) is Ok,
    ensures
        resolved(members).unwrap().len() == members.len(),
        resolved(members).unwrap()[index] == slot,
        index + 1 < members.len() && members[index + 1].len() == 0 ==> resolved(
            members,
        ).unwrap()[index + 1] == slot + 1,
{
    slot_follows_cursor(members, index);
    if index + 1 < members.len() && members[index + 1].len() == 0 {
        slot_follows_cursor(members, index + 1);
    }
}

/// Two declarations that resolve alike up to some member, and whose
/// members are the same from there on, resolve alike as a whole.
pub proof fn resolution_agrees(
    first: Seq<Seq<Directive>>,
    second: Seq<Seq<Directive>>,
    count: int,
)
    requires
        first.len() == second.len(),
        0 <= count <= first.len(),
        resolved(first.take(count)) == resolved(second.take(count)),
        forall|i: int| count <= i < first.len() ==> first[i] == second[i],
    ensures
        resolved(first) == resolved(second),
    decreases first.len(),
{
    if count == first.len() {
        assert(first.take(count) == first);
        assert(second.take(count) == second);
    } else {
        assert(first.drop_last().take(count) == first.take(count));
        assert(second.drop_last().take(count) == second.take(count));
        resolution_agrees(first.drop_last(), second.drop_last(), count);
    }
}

/// A `check` that is the last directive of a member passes if and only if
/// the cursor stands at the slot that it names. Where it passes, the
/// declaration resolves as it does without the check; where it does not,
/// resolution fails at that member with both slots.
pub proof fn check_compares_cursor(members: Seq<Seq<Directive>>, index: int, slot: usize)
    requires
        0 <= index < members.len(),
        members[index].len() > 0,
        members[index].last() == Directive::Check(slot),
        resolved(members.take(index)) is Ok,
        moved(running_cursor(members, index), members[index].drop_last()) is Ok,
    ensures
        ({
            let cursor = moved(running_cursor(members, index), members[index].drop_last()).unwrap();
            let without = members.update(index, members[index].drop_last());
            &&& cursor == slot ==> resolved(members) == resolved(without)
            &&& cursor != slot ==> resolved(members) == Err::<Seq<usize>, ResolveError>(
                ResolveError {
                    member: index as usize,
                    fault: SlotFault::CheckMismatch { expected: slot, actual: cursor as usize },
                },
            )
        }),
{
    let cursor = moved(running_cursor(members, index), members[index].drop_last()).unwrap();
    let without = members.update(index, members[index].drop_last());
    resolution_step(members, index);
    if cursor == slot {
        assert(without.take(index) == members.take(index));
        resolution_step(without, index);
        resolution_agrees(members, without, index + 1);
    }
}

/// A `skip` that is the last directive of a member moves the cursor by its
/// distance before the member takes its slot, and resolution fails at that
/// member if the cursor would go below 0.
pub proof fn skip_moves_cursor(members: Seq<Seq<Directive>>, index: int, delta: i64)
    requires
        0 <= index < members.len(),
        members[index].len() > 0,
        members[index].last() == Directive::Skip(delta),
        resolved(members.take(index)) is Ok,
        moved(running_cursor(members, index), members[index].drop_last()) is Ok,
    ensures
        ({
            let cursor = moved(running_cursor(members, index), members[index].drop_last()).unwrap();
            &&& cursor + delta < 0 ==> resolved(members) == Err::<Seq<usize>, ResolveError>(
                ResolveError {
                    member: index as usize,
                    fault: SlotFault::NegativeCursor { cursor: cursor as usize, delta },
                },
            )
            &&& 0 <= cursor + delta < usize::MAX ==> resolved(members.take(index + 1)) == Ok::<
                Seq<usize>,
                ResolveError,
            >(resolved(members.take(index)).unwrap().push((cursor + delta) as usize))
            &&& resolved(members) is Ok ==> resolved(members).unwrap()[index] == cursor + delta
        }),
{
    resolution_step(members, index);
    if resolved(members) is Ok {
        slot_follows_cursor(members, index);
    }
}

/// One directive at a time: `offset` sets the cursor, `check` leaves it or
/// fails, `skip` adds its distance or fails.
pub proof fn directive_effect(cursor: int, directive: Directive)
    requires
        0 <= cursor <= usize::MAX,
    ensures
        match directive {
            Directive::Offset(slot) => applied(cursor, directive) == Ok::<int, SlotFault>(
                slot as int,
            ),
            Directive::Check(slot) => (applied(cursor, directive) is Ok <==> cursor == slot) && (
            applied(cursor, directive) is Ok ==> applied(cursor, directive) == Ok::<
                int,
                SlotFault,
            >(cursor)),
            Directive::Skip(delta) => (applied(cursor, directive) is Ok <==> 0 <= cursor + delta
                <= usize::MAX) && (applied(cursor, directive) is Ok ==> applied(cursor, directive)
                == Ok::<int, SlotFault>(cursor + delta)) && (cursor + delta < 0 ==> applied(
                cursor,
                directive,
            ) == Err::<int, SlotFault>(
                SlotFault::NegativeCursor { cursor: cursor as usize, delta },
            )),
        },
{
}

} // verus!
