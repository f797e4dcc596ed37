//! What holds of the record and the accessors of every declaration.

use vstd::prelude::*;
use crate::directive::{directives, first_directive, passed_on, Directive, DirectiveFault};
use crate::emit::{
    accessor_of, field_of, generation, plan_cursor, plan_with, planned, planned_fails_on, refusal,
    AccessorView, FieldView, PlanView,
};
use crate::error::{ErrorKind, GenerateErrorView};
use crate::model::{AttributeView, DeclarationView, MemberView};
use crate::slot_laws::offset_sets_slot;
use crate::slots::{cursor_after, moved, resolved, ResolveError, SlotFault};

verus! {

/// The data members of a declaration, in declaration order.
pub open spec fn data_members(members: Seq<MemberView>) -> Seq<MemberView> {
    members.filter(|member: MemberView| !member.is_callable())
}

/// The callable members of a declaration, in declaration order.
pub open spec fn callable_members(members: Seq<MemberView>) -> Seq<MemberView> {
    members.filter(|member: MemberView| member.is_callable())
}

/// The fields of the given data members.
pub open spec fn fields_of(members: Seq<MemberView>) -> Seq<FieldView> {
    members.map_values(|member: MemberView| field_of(member))
}

/// The directives of each of the given members.
pub open spec fn directive_lists(members: Seq<MemberView>) -> Seq<Seq<Directive>> {
    members.map_values(|member: MemberView| directives(member.attributes).unwrap())
}

/// The slots of the given accessors.
pub open spec fn slots_of(accessors: Seq<AccessorView>) -> Seq<usize> {
    accessors.map_values(|accessor: AccessorView| accessor.slot)
}

/// The data members of a list that was extended by one member.
pub proof fn data_members_push(members: Seq<MemberView>, member: MemberView)
    ensures
        data_members(members.push(member)) == if member.is_callable() {
            data_members(members)
        } else {
            data_members(members).push(member)
        },
{
    reveal(Seq::filter);
    assert(members.push(member).drop_last() == members);
}

/// The callable members of a list that was extended by one member.
pub proof fn callable_members_push(members: Seq<MemberView>, member: MemberView)
    ensures
        callable_members(members.push(member)) == if member.is_callable() {
            callable_members(members).push(member)
        } else {
            callable_members(members)
        },
{
    reveal(Seq::filter);
    assert(members.push(member).drop_last() == members);
}

/// Attributes among which no directive is found make an empty list of
/// directives.
pub proof fn no_directive_found(attributes: Seq<AttributeView>)
    requires
        first_directive(attributes) is None,
    ensures
        directives(attributes) == Ok::<Seq<Directive>, DirectiveFault>(Seq::empty()),
    decreases attributes.len(),
{
    if attributes.len() > 0 {
        no_directive_found(attributes.drop_last());
    }
}

/// The record begins with the table pointer, and after it come the data
/// members in declaration order, each as it was declared. Callable members
/// are no fields, and data members get no accessor: there is one accessor
/// for each callable member.
pub proof fn record_holds_data_members(members: Seq<MemberView>)
    requires
        planned(members) is Ok,
    ensures
        planned(members)->Ok_0.fields == seq![FieldView::TablePointer] + fields_of(
            data_members(members),
        ),
        planned(members)->Ok_0.accessors.len() == callable_members(members).len(),
    decreases members.len(),
{
    if members.len() == 0 {
        assert(data_members(members) =~= Seq::<MemberView>::empty()) by {
            reveal(Seq::filter);
        }
        assert(callable_members(members) =~= Seq::<MemberView>::empty()) by {
            reveal(Seq::filter);
        }
        assert(planned(members)->Ok_0.fields =~= seq![FieldView::TablePointer] + fields_of(
            data_members(members),
        ));
    } else {
        let shorter = members.drop_last();
        let last = members.last();
        record_holds_data_members(shorter);
        assert(members == shorter.push(last));
        data_members_push(shorter, last);
        callable_members_push(shorter, last);
        if !last.is_callable() {
            assert(planned(members)->Ok_0.fields =~= seq![FieldView::TablePointer] + fields_of(
                data_members(members),
            ));
        }
    }
}

/// The accessors stand for the callable members, one for one and in
/// declaration order, and their slots are those that slot resolution gives
/// for the directives of those members.
pub proof fn accessors_follow_resolution(members: Seq<MemberView>)
    requires
        planned(members) is Ok,
    ensures
        ({
            let accessors = planned(members)->Ok_0.accessors;
            let callable = callable_members(members);
            &&& accessors.len() == callable.len()
            &&& forall|i: int|
                0 <= i < callable.len() ==> directives((#[trigger] callable[i]).attributes) is Ok
            &&& forall|i: int|
                0 <= i < callable.len() ==> #[trigger] accessors[i] == accessor_of(
                    callable[i],
                    accessors[i].slot,
                )
            &&& resolved(directive_lists(callable)) == Ok::<Seq<usize>, ResolveError>(
                slots_of(accessors),
            )
        }),
    decreases members.len(),
{
    if members.len() == 0 {
        assert(callable_members(members) =~= Seq::<MemberView>::empty()) by {
            reveal(Seq::filter);
        }
        assert(directive_lists(callable_members(members)) =~= Seq::<Seq<Directive>>::empty());
        assert(slots_of(planned(members)->Ok_0.accessors) =~= Seq::<usize>::empty());
    } else {
        let shorter = members.drop_last();
        let last = members.last();
        accessors_follow_resolution(shorter);
        assert(members == shorter.push(last));
        callable_members_push(shorter, last);
        if last.is_callable() {
            let before = planned(shorter)->Ok_0.accessors;
            let accessors = planned(members)->Ok_0.accessors;
            let callable = callable_members(members);
            let found = directives(last.attributes).unwrap();
            let lists = directive_lists(callable);
            assert(lists.drop_last() =~= directive_lists(callable_members(shorter)));
            assert(lists.last() == found);
            assert(cursor_after(slots_of(before)) == plan_cursor(before));
            assert(slots_of(accessors) =~= slots_of(before).push(accessors.last().slot));
        }
    }
}

/// In a declaration without directives the callable members take the slots
/// 0, 1, 2, ... in declaration order, whatever data members stand between
/// them, and nothing is refused.
pub proof fn plain_declaration_counts_up(members: Seq<MemberView>)
    requires
        members.len() <= usize::MAX,
        forall|i: int|
            0 <= i < members.len() ==> first_directive((#[trigger] members[i]).attributes) is None,
    ensures
        planned(members) is Ok,
        slots_of(planned(members)->Ok_0.accessors) == Seq::new(
            callable_members(members).len(),
            |i: int| i as usize,
        ),
    decreases members.len(),
{
    if members.len() == 0 {
        assert(callable_members(members) =~= Seq::<MemberView>::empty()) by {
            reveal(Seq::filter);
        }
        assert(slots_of(planned(members)->Ok_0.accessors) =~= Seq::new(
            0,
            |i: int| i as usize,
        ));
    } else {
        let shorter = members.drop_last();
        let last = members.last();
        plain_declaration_counts_up(shorter);
        record_holds_data_members(shorter);
        assert(members == shorter.push(last));
        callable_members_push(shorter, last);
        no_directive_found(last.attributes);
        let before = planned(shorter)->Ok_0.accessors;
        let count = callable_members(shorter).len();
        assert(count <= shorter.len()) by {
            broadcast use vstd::seq_lib::group_filter_ensures;
        }
        assert(slots_of(before).len() == count);
        if count > 0 {
            assert(slots_of(before).last() == before.last().slot);
        }
        assert(plan_cursor(before) == count);
        if last.is_callable() {
            assert(moved(count as int, Seq::<Directive>::empty()) == Ok::<int, SlotFault>(
                count as int,
            ));
            let accessors = planned(members)->Ok_0.accessors;
            assert(slots_of(accessors) =~= slots_of(before).push(count as usize));
            assert(slots_of(accessors) =~= Seq::new(
                callable_members(members).len(),
                |i: int| i as usize,
            ));
        }
    }
}

/// The record and the accessors carry the declaration's own name,
/// visibility and attributes, and a declaration is refused exactly when one
/// of its members is.
pub proof fn generation_follows_plan(declaration: DeclarationView)
    ensures
        generation(declaration) is Ok <==> planned(declaration.members) is Ok,
        generation(declaration) is Ok ==> ({
            let generated = generation(declaration)->Ok_0;
            let plan = planned(declaration.members)->Ok_0;
            &&& generated.record.name == declaration.name
            &&& generated.record.visibility == declaration.visibility
            &&& generated.record.attributes == declaration.attributes
            &&& generated.record.fields == plan.fields
            &&& generated.accessors == plan.accessors
        }),
        generation(declaration) is Err ==> generation(declaration)->Err_0 == planned(
            declaration.members,
        )->Err_0,
{
}

/// The position, among the accessors, of the accessor of the member at
/// `index`: the number of callable members before it.
pub open spec fn accessor_index(members: Seq<MemberView>, index: int) -> int {
    callable_members(members.take(index)).len() as int
}

/// Where the cursor stands before the member at `index` is read, as long
/// as the members before it are in order.
pub open spec fn cursor_before(members: Seq<MemberView>, index: int) -> int
    recommends
        0 <= index <= members.len(),
        planned(members.take(index)) is Ok,
{
    plan_cursor(planned(members.take(index))->Ok_0.accessors)
}

/// Whether each member is in order by itself: a data member carries no
/// directive, and the directives of a callable member go together.
pub open spec fn members_in_order(members: Seq<MemberView>) -> bool {
    forall|i: int|
        0 <= i < members.len() ==> if (#[trigger] members[i]).is_callable() {
            directives(members[i].attributes) is Ok
        } else {
            first_directive(members[i].attributes) is None
        }
}

/// A callable member is found among the callable members at the position
/// of its accessor.
pub proof fn callable_member_position(members: Seq<MemberView>, index: int)
    requires
        0 <= index < members.len(),
        members[index].is_callable(),
    ensures
        0 <= accessor_index(members, index) < callable_members(members).len(),
        callable_members(members)[accessor_index(members, index)] == members[index],
    decreases members.len(),
{
    let shorter = members.drop_last();
    let last = members.last();
    assert(members == shorter.push(last));
    callable_members_push(shorter, last);
    if index + 1 == members.len() {
        assert(members.take(index) == shorter);
    } else {
        assert(shorter.take(index) == members.take(index));
        callable_member_position(shorter, index);
    }
}

/// The plan of a declaration begins with the plan of each of its prefixes:
/// reading further members adds accessors at the end and changes none.
pub proof fn plan_prefix(members: Seq<MemberView>, count: int)
    requires
        0 <= count <= members.len(),
        planned(members) is Ok,
    ensures
        planned(members.take(count)) is Ok,
        0 <= accessor_index(members, count) <= planned(members)->Ok_0.accessors.len(),
        planned(members.take(count))->Ok_0.accessors == planned(members)->Ok_0.accessors.take(
            accessor_index(members, count),
        ),
    decreases members.len(),
{
    if count == members.len() {
        assert(members.take(count) == members);
        record_holds_data_members(members);
        let accessors = planned(members)->Ok_0.accessors;
        assert(accessors.take(accessors.len() as int) == accessors);
    } else {
        let shorter = members.drop_last();
        assert(shorter.take(count) == members.take(count));
        plan_prefix(shorter, count);
        let before = planned(shorter)->Ok_0.accessors;
        let accessors = planned(members)->Ok_0.accessors;
        let position = accessor_index(members, count);
        assert(before.take(position) =~= accessors.take(position));
    }
}

/// The step of planning: after the members before `index` were read, the
/// member at `index` extends the plan or is refused, and a refusal is the
/// refusal of the whole declaration.
pub proof fn plan_step(members: Seq<MemberView>, index: int)
    requires
        0 <= index < members.len(),
        planned(members.take(index)) is Ok,
    ensures
        planned(members.take(index + 1)) == plan_with(
            planned(members.take(index))->Ok_0,
            members[index],
        ),
        planned(members.take(index + 1)) is Err ==> planned(members) == planned(
            members.take(index + 1),
        ),
        accessor_index(members, index + 1) == if members[index].is_callable() {
            accessor_index(members, index) + 1
        } else {
            accessor_index(members, index)
        },
{
    assert(members.take(index + 1).drop_last() == members.take(index));
    assert(members.take(index + 1) == members.take(index).push(members[index]));
    callable_members_push(members.take(index), members[index]);
    if planned(members.take(index + 1)) is Err {
        planned_fails_on(members, index);
    }
}

/// Two declarations whose plans agree up to some member, and whose members
/// are the same from there on, have the same plan.
pub proof fn plans_agree(first: Seq<MemberView>, second: Seq<MemberView>, count: int)
    requires
        first.len() == second.len(),
        0 <= count <= first.len(),
        planned(first.take(count)) == planned(second.take(count)),
        forall|i: int| count <= i < first.len() ==> first[i] == second[i],
    ensures
        planned(first) == planned(second),
    decreases first.len(),
{
    if count == first.len() {
        assert(first.take(count) == first);
        assert(second.take(count) == second);
    } else {
        assert(first.drop_last().take(count) == first.take(count));
        assert(second.drop_last().take(count) == second.take(count));
        plans_agree(first.drop_last(), second.drop_last(), count);
    }
}

/// A declaration is planned, and so written out, exactly when each of its
/// members is in order by itself and the slots of its callable members
/// resolve.
pub proof fn plan_succeeds_with_resolution(members: Seq<MemberView>)
    ensures
        planned(members) is Ok <==> members_in_order(members) && resolved(
            directive_lists(callable_members(members)),
        ) is Ok,
    decreases members.len(),
{
    if members.len() == 0 {
        assert(callable_members(members) =~= Seq::<MemberView>::empty()) by {
            reveal(Seq::filter);
        }
        assert(directive_lists(callable_members(members)) =~= Seq::<Seq<Directive>>::empty());
    } else {
        let shorter = members.drop_last();
        let last = members.last();
        plan_succeeds_with_resolution(shorter);
        assert(members == shorter.push(last));
        callable_members_push(shorter, last);
        assert forall|i: int| 0 <= i < shorter.len() implies shorter[i] == members[i] by {}
        assert(members_in_order(members) <==> members_in_order(shorter) && if last.is_callable() {
            directives(last.attributes) is Ok
        } else {
            first_directive(last.attributes) is None
        }) by {
            if members_in_order(members) {
                assert forall|i: int| 0 <= i < shorter.len() implies if (
                #[trigger] shorter[i]).is_callable() {
                    directives(shorter[i].attributes) is Ok
                } else {
                    first_directive(shorter[i].attributes) is None
                } by {
                    assert(shorter[i] == members[i]);
                }
                assert(members[members.len() - 1] == last);
            }
        }
        if last.is_callable() {
            let lists = directive_lists(callable_members(members));
            assert(lists.drop_last() =~= directive_lists(callable_members(shorter)));
            assert(lists.last() == directives(last.attributes).unwrap());
            if planned(shorter) is Ok {
                accessors_follow_resolution(shorter);
                let before = planned(shorter)->Ok_0.accessors;
                assert(cursor_after(slots_of(before)) == plan_cursor(before));
            }
        }
    }
}

/// What is written out follows the plan: a declaration is written out
/// exactly when its members are in order and their slots resolve.
pub proof fn generation_succeeds_with_resolution(declaration: DeclarationView)
    ensures
        generation(declaration) is Ok <==> members_in_order(declaration.members) && resolved(
            directive_lists(callable_members(declaration.members)),
        ) is Ok,
{
    plan_succeeds_with_resolution(declaration.members);
}

/// In a declaration that is written out, a callable member whose last
/// directive is `offset` has the accessor with exactly the slot that the
/// directive names, and the next callable member, if it carries no
/// directive, has the accessor with the slot after it.
pub proof fn offset_sets_accessor_slot(members: Seq<MemberView>, index: int, slot: usize)
    requires
        0 <= index < members.len(),
        members[index].is_callable(),
        planned(members) is Ok,
        directives(members[index].attributes) is Ok,
        directives(members[index].attributes)->Ok_0.len() > 0,
        directives(members[index].attributes)->Ok_0.last() == Directive::Offset(slot),
    ensures
        ({
            let position = accessor_index(members, index);
            let accessors = planned(members)->Ok_0.accessors;
            let callable = callable_members(members);
            &&& 0 <= position < accessors.len()
            &&& accessors.len() == callable.len()
            &&& accessors[position] == accessor_of(members[index], slot)
            &&& position + 1 < accessors.len() && directives(callable[position + 1].attributes)
                == Ok::<Seq<Directive>, DirectiveFault>(Seq::empty()) ==> accessors[position
                + 1].slot == slot + 1
        }),
{
    let position = accessor_index(members, index);
    let accessors = planned(members)->Ok_0.accessors;
    let callable = callable_members(members);
    callable_member_position(members, index);
    accessors_follow_resolution(members);
    let lists = directive_lists(callable);
    assert(lists[position] == directives(callable[position].attributes).unwrap());
    if position + 1 < accessors.len() {
        assert(lists[position + 1] == directives(callable[position + 1].attributes).unwrap());
    }
    offset_sets_slot(lists, position, slot);
    assert(slots_of(accessors)[position] == accessors[position].slot);
    if position + 1 < accessors.len() {
        assert(slots_of(accessors)[position + 1] == accessors[position + 1].slot);
    }
}

/// A `check` that is the last directive of a callable member passes if and
/// only if the cursor stands at the slot that it names. Where it passes,
/// the declaration is planned as it is with a member in its place that
/// differs only in lacking the check. Where it does not, the declaration is
/// refused at that member, with both slots.
pub proof fn check_compares_plan_cursor(
    members: Seq<MemberView>,
    index: int,
    slot: usize,
    other: MemberView,
)
    requires
        0 <= index < members.len(),
        members[index].is_callable(),
        planned(members.take(index)) is Ok,
        directives(members[index].attributes) is Ok,
        directives(members[index].attributes)->Ok_0.len() > 0,
        directives(members[index].attributes)->Ok_0.last() == Directive::Check(slot),
        moved(
            cursor_before(members, index),
            directives(members[index].attributes)->Ok_0.drop_last(),
        ) is Ok,
        other.name == members[index].name,
        other.visibility == members[index].visibility,
        other.shape == members[index].shape,
        passed_on(other.attributes) == passed_on(members[index].attributes),
        directives(other.attributes) == Ok::<Seq<Directive>, DirectiveFault>(
            directives(members[index].attributes)->Ok_0.drop_last(),
        ),
    ensures
        ({
            let cursor = moved(
                cursor_before(members, index),
                directives(members[index].attributes)->Ok_0.drop_last(),
            )->Ok_0;
            &&& cursor == slot ==> planned(members) == planned(members.update(index, other))
            &&& cursor != slot ==> planned(members) == Err::<PlanView, GenerateErrorView>(
                refusal(
                    members[index],
                    ErrorKind::Slot(
                        SlotFault::CheckMismatch { expected: slot, actual: cursor as usize },
                    ),
                ),
            )
        }),
{
    let found = directives(members[index].attributes)->Ok_0;
    let cursor = moved(cursor_before(members, index), found.drop_last())->Ok_0;
    plan_step(members, index);
    if cursor == slot {
        let without = members.update(index, other);
        assert(without.take(index) == members.take(index));
        plan_step(without, index);
        assert(accessor_of(other, slot) == accessor_of(members[index], slot));
        plans_agree(members, without, index + 1);
    }
}

/// A `skip` that is the last directive of a callable member moves the
/// cursor by its distance before the member takes its slot. The
/// declaration is refused at that member if the cursor would go below 0,
/// and where the declaration is written out the member's accessor has the
/// slot at which the cursor then stands.
pub proof fn skip_moves_plan_cursor(members: Seq<MemberView>, index: int, delta: i64)
    requires
        0 <= index < members.len(),
        members[index].is_callable(),
        planned(members.take(index)) is Ok,
        directives(members[index].attributes) is Ok,
        directives(members[index].attributes)->Ok_0.len() > 0,
        directives(members[index].attributes)->Ok_0.last() == Directive::Skip(delta),
        moved(
            cursor_before(members, index),
            directives(members[index].attributes)->Ok_0.drop_last(),
        ) is Ok,
    ensures
        ({
            let cursor = moved(
                cursor_before(members, index),
                directives(members[index].attributes)->Ok_0.drop_last(),
            )->Ok_0;
            let position = accessor_index(members, index);
            &&& cursor + delta < 0 ==> planned(members) == Err::<PlanView, GenerateErrorView>(
                refusal(
                    members[index],
                    ErrorKind::Slot(
                        SlotFault::NegativeCursor { cursor: cursor as usize, delta },
                    ),
                ),
            )
            &&& 0 <= cursor + delta < usize::MAX ==> planned(members.take(index + 1)) is Ok
            &&& planned(members) is Ok ==> 0 <= position < planned(members)->Ok_0.accessors.len()
                && planned(members)->Ok_0.accessors[position] == accessor_of(
                members[index],
                (cursor + delta) as usize,
            )
        }),
{
    plan_step(members, index);
    if planned(members) is Ok {
        plan_prefix(members, index);
        plan_prefix(members, index + 1);
        let position = accessor_index(members, index);
        let accessors = planned(members)->Ok_0.accessors;
        assert(accessors.take(position + 1).last() == accessors[position]);
    }
}

} // verus!
