//! What a synthesized builder does when it runs: the meaning of its slots,
//! its setters and its finalize operation, as functions on sequences.
//!
//! A builder instance is a sequence of slot states, one per field. A setter
//! call writes one slot and cannot fail. Finalize looks for the first required
//! slot that is absent: if there is one it fails and changes nothing, and else
//! it yields one value per field and empties what it has taken.

use vstd::prelude::*;
use crate::artifact::{
    ArtifactModel, ExtractionRule, InitialValue, SetterAction, SlotModel, StorageModel,
};

verus! {

/// What a slot holds.
pub enum SlotState<V> {
    /// At most one value.
    Single(Option<V>),
    /// A sequence of values in insertion order.
    Sequence(Seq<V>),
}

/// What finalize yields for one field.
pub enum FieldModel<V> {
    /// The value of a required field.
    Required(V),
    /// The value of an optional field, absent or present.
    Optional(Option<V>),
    /// The elements of an accumulated field, in insertion order.
    Accumulated(Seq<V>),
}

/// A setter call: the index of the setter and the value handed to it.
pub struct Call<V> {
    pub setter: int,
    pub value: V,
}

/// The state of a slot before any call.
pub open spec fn fresh_slot<V>(slot: SlotModel) -> SlotState<V> {
    match slot.initial {
        InitialValue::Absent => SlotState::Single(None),
        InitialValue::EmptySequence => SlotState::Sequence(Seq::empty()),
    }
}

/// The state of a builder before any call: every slot at its initial value.
pub open spec fn fresh<V>(artifact: ArtifactModel) -> Seq<SlotState<V>> {
    Seq::new(artifact.builder_layout.len(), |i: int| fresh_slot(artifact.builder_layout[i]))
}

/// Whether a slot state has the form that its storage demands.
pub open spec fn slot_fits<V>(slot: SlotModel, state: SlotState<V>) -> bool {
    match slot.storage {
        StorageModel::Optional(_) => state is Single,
        StorageModel::Sequence(_) => state is Sequence,
    }
}

/// Whether a state is one of the artifact's builder: one slot state per slot,
/// each of the form that its storage demands.
pub open spec fn state_fits<V>(artifact: ArtifactModel, state: Seq<SlotState<V>>) -> bool {
    &&& state.len() == artifact.builder_layout.len()
    &&& forall|i: int|
        0 <= i < state.len() ==> slot_fits(artifact.builder_layout[i], #[trigger] state[i])
}

/// The slot after a setter has written `value` to it: replaced by the value,
/// or with the value appended.
pub open spec fn written<V>(action: SetterAction, slot: SlotState<V>, value: V) -> SlotState<V> {
    match action {
        SetterAction::Replace => SlotState::Single(Some(value)),
        SetterAction::Append => match slot {
            SlotState::Sequence(values) => SlotState::Sequence(values.push(value)),
            SlotState::Single(_) => slot,
        },
    }
}

/// The state after one setter call. Only the setter's slot changes.
pub open spec fn after_call<V>(artifact: ArtifactModel, state: Seq<SlotState<V>>, call: Call<V>)
    -> Seq<SlotState<V>> {
    let setter = artifact.setters[call.setter];
    state.update(setter.slot, written(setter.action, state[setter.slot], call.value))
}

/// The state after a sequence of setter calls, made in order.
pub open spec fn after_calls<V>(
    artifact: ArtifactModel,
    state: Seq<SlotState<V>>,
    calls: Seq<Call<V>>,
) -> Seq<SlotState<V>>
    decreases calls.len(),
{
    if calls.len() == 0 {
        state
    } else {
        after_call(artifact, after_calls(artifact, state, calls.drop_last()), calls.last())
    }
}

/// Whether every call names a setter of the artifact.
pub open spec fn calls_valid<V>(artifact: ArtifactModel, calls: Seq<Call<V>>) -> bool {
    forall|k: int| 0 <= k < calls.len() ==> 0 <= (#[trigger] calls[k]).setter < artifact.setters.len()
}

/// Whether the setter with index `setter` is called at least once.
pub open spec fn called<V>(calls: Seq<Call<V>>, setter: int) -> bool {
    exists|k: int| 0 <= k < calls.len() && (#[trigger] calls[k]).setter == setter
}

/// Whether each of the first `count` setters is called at least once.
pub open spec fn all_called<V>(calls: Seq<Call<V>>, count: int) -> bool {
    forall|setter: int| 0 <= setter < count ==> #[trigger] called(calls, setter)
}

/// Whether `setter` is the first setter that is never called.
pub open spec fn is_first_uncalled<V>(calls: Seq<Call<V>>, setter: int) -> bool {
    &&& 0 <= setter
    &&& !called(calls, setter)
    &&& all_called(calls, setter)
}

/// The values handed to the setter with index `setter`, in call order.
pub open spec fn values_of<V>(calls: Seq<Call<V>>, setter: int) -> Seq<V>
    decreases calls.len(),
{
    if calls.len() == 0 {
        Seq::empty()
    } else if calls.last().setter == setter {
        values_of(calls.drop_last(), setter).push(calls.last().value)
    } else {
        values_of(calls.drop_last(), setter)
    }
}

/// What a slot holds once its setter has been handed `values`, in that
/// order, starting from a fresh builder: the last value where the setter
/// replaces, all of them where it appends.
pub open spec fn slot_holding<V>(slot: SlotModel, values: Seq<V>) -> SlotState<V> {
    match slot.storage {
        StorageModel::Optional(_) => SlotState::Single(
            if values.len() == 0 {
                None
            } else {
                Some(values.last())
            },
        ),
        StorageModel::Sequence(_) => SlotState::Sequence(values),
    }
}

/// Whether finalize finds the field with index `index` missing: it is
/// required and its slot is absent.
pub open spec fn is_missing<V>(artifact: ArtifactModel, state: Seq<SlotState<V>>, index: int)
    -> bool {
    &&& artifact.finalize[index].rule == ExtractionRule::Required
    &&& state[index] == SlotState::<V>::Single(None)
}

/// Whether `index` is the first missing field in declaration order.
pub open spec fn is_first_missing<V>(
    artifact: ArtifactModel,
    state: Seq<SlotState<V>>,
    index: int,
) -> bool {
    &&& 0 <= index < state.len()
    &&& is_missing(artifact, state, index)
    &&& forall|earlier: int| 0 <= earlier < index ==> !#[trigger] is_missing(artifact, state, earlier)
}

/// Whether finalize succeeds: no field is missing.
pub open spec fn complete<V>(artifact: ArtifactModel, state: Seq<SlotState<V>>) -> bool {
    forall|index: int| 0 <= index < state.len() ==> !#[trigger] is_missing(artifact, state, index)
}

/// What finalize yields for a field from its slot.
pub open spec fn yielded<V>(rule: ExtractionRule, slot: SlotState<V>) -> FieldModel<V> {
    match rule {
        ExtractionRule::Required => FieldModel::Required(
            match slot {
                SlotState::Single(Some(value)) => value,
                _ => arbitrary(),
            },
        ),
        ExtractionRule::Optional => FieldModel::Optional(
            match slot {
                SlotState::Single(held) => held,
                _ => arbitrary(),
            },
        ),
        ExtractionRule::Accumulated => FieldModel::Accumulated(
            match slot {
                SlotState::Sequence(values) => values,
                _ => arbitrary(),
            },
        ),
    }
}

/// What a successful finalize leaves in a slot: a required value is taken
/// out, a sequence is emptied, an optional value stays.
pub open spec fn left_behind<V>(rule: ExtractionRule, slot: SlotState<V>) -> SlotState<V> {
    match rule {
        ExtractionRule::Required => SlotState::Single(None),
        ExtractionRule::Optional => slot,
        ExtractionRule::Accumulated => SlotState::Sequence(Seq::empty()),
    }
}

/// The record that a successful finalize yields: one value per field, in
/// declaration order.
pub open spec fn record_of<V>(artifact: ArtifactModel, state: Seq<SlotState<V>>) -> Seq<
    FieldModel<V>,
> {
    Seq::new(state.len(), |i: int| yielded(artifact.finalize[i].rule, state[i]))
}

/// The state that a successful finalize leaves.
pub open spec fn after_finalize<V>(artifact: ArtifactModel, state: Seq<SlotState<V>>) -> Seq<
    SlotState<V>,
> {
    Seq::new(state.len(), |i: int| left_behind(artifact.finalize[i].rule, state[i]))
}

/// A fresh state is one of the artifact's builder.
pub proof fn lemma_fresh_fits<V>(artifact: ArtifactModel)
    requires
        artifact.well_formed(),
    ensures
        state_fits(artifact, fresh::<V>(artifact)),
{
    let state = fresh::<V>(artifact);
    assert forall|i: int| 0 <= i < state.len() implies slot_fits(
        artifact.builder_layout[i],
        #[trigger] state[i],
    ) by {
        assert(artifact.builder_layout[i].fits(artifact.finalize[i]));
    }
}

/// A setter call keeps the state one of the artifact's builder.
pub proof fn lemma_call_fits<V>(artifact: ArtifactModel, state: Seq<SlotState<V>>, call: Call<V>)
    requires
        artifact.well_formed(),
        state_fits(artifact, state),
        0 <= call.setter < artifact.setters.len(),
    ensures
        state_fits(artifact, after_call(artifact, state, call)),
{
    let setter = artifact.setters[call.setter];
    let next = after_call(artifact, state, call);
    assert(setter.fits(artifact.builder_layout[setter.slot]));
    assert(slot_fits(artifact.builder_layout[setter.slot], state[setter.slot]));
    assert forall|i: int| 0 <= i < next.len() implies slot_fits(
        artifact.builder_layout[i],
        #[trigger] next[i],
    ) by {
        if i != setter.slot {
            assert(next[i] == state[i]);
        }
    }
}

/// A successful finalize leaves a state that is one of the artifact's builder.
pub proof fn lemma_finalize_fits<V>(artifact: ArtifactModel, state: Seq<SlotState<V>>)
    requires
        artifact.well_formed(),
        state_fits(artifact, state),
    ensures
        state_fits(artifact, after_finalize(artifact, state)),
{
    let next = after_finalize(artifact, state);
    assert forall|i: int| 0 <= i < next.len() implies slot_fits(
        artifact.builder_layout[i],
        #[trigger] next[i],
    ) by {
        assert(artifact.builder_layout[i].fits(artifact.finalize[i]));
        assert(slot_fits(artifact.builder_layout[i], state[i]));
    }
}

/// The setter with index `setter` is called exactly when it is handed at
/// least one value.
pub proof fn lemma_called_values<V>(calls: Seq<Call<V>>, setter: int)
    ensures
        called(calls, setter) <==> values_of(calls, setter).len() > 0,
    decreases calls.len(),
{
    if calls.len() == 0 {
    } else {
        let earlier = calls.drop_last();
        lemma_called_values(earlier, setter);
        if calls.last().setter == setter {
            assert(calls[calls.len() - 1].setter == setter);
        } else {
            if called(calls, setter) {
                let k = choose|k: int| 0 <= k < calls.len() && (#[trigger] calls[k]).setter == setter;
                assert(earlier[k].setter == setter);
            }
            if called(earlier, setter) {
                let k = choose|k: int|
                    0 <= k < earlier.len() && (#[trigger] earlier[k]).setter == setter;
                assert(calls[k].setter == setter);
            }
        }
    }
}

/// Where every call goes to the setter with index `setter`, the values handed
/// to it are the values of all the calls, in call order.
pub proof fn lemma_values_of_own_calls<V>(calls: Seq<Call<V>>, setter: int)
    requires
        forall|k: int| 0 <= k < calls.len() ==> (#[trigger] calls[k]).setter == setter,
    ensures
        values_of(calls, setter) == Seq::new(calls.len(), |k: int| calls[k].value),
    decreases calls.len(),
{
    if calls.len() > 0 {
        let earlier = calls.drop_last();
        assert forall|k: int| 0 <= k < earlier.len() implies (#[trigger] earlier[k]).setter
            == setter by {
            assert(earlier[k] == calls[k]);
        }
        lemma_values_of_own_calls(earlier, setter);
        assert(calls[calls.len() - 1].setter == setter);
    }
    assert(values_of(calls, setter) =~= Seq::new(calls.len(), |k: int| calls[k].value));
}

/// From a fresh builder with one setter per slot, each slot holds what its
/// own setter was handed, whatever calls to other setters came in between.
pub proof fn lemma_slots_after_calls<V>(artifact: ArtifactModel, calls: Seq<Call<V>>)
    requires
        artifact.well_formed(),
        artifact.one_setter_per_slot(),
        calls_valid(artifact, calls),
    ensures
        after_calls(artifact, fresh(artifact), calls).len() == artifact.builder_layout.len(),
        forall|i: int|
            0 <= i < artifact.builder_layout.len() ==> #[trigger] after_calls(
                artifact,
                fresh(artifact),
                calls,
            )[i] == slot_holding(artifact.builder_layout[i], values_of(calls, i)),
    decreases calls.len(),
{
    let state = after_calls(artifact, fresh(artifact), calls);
    if calls.len() == 0 {
        assert forall|i: int| 0 <= i < artifact.builder_layout.len() implies #[trigger] state[i]
            == slot_holding(artifact.builder_layout[i], values_of(calls, i)) by {
            assert(artifact.builder_layout[i].fits(artifact.finalize[i]));
        }
    } else {
        let earlier = calls.drop_last();
        let call = calls.last();
        assert(calls_valid(artifact, earlier)) by {
            assert forall|k: int| 0 <= k < earlier.len() implies 0 <= (
            #[trigger] earlier[k]).setter < artifact.setters.len() by {
                assert(earlier[k] == calls[k]);
            }
        }
        lemma_slots_after_calls(artifact, earlier);
        let before = after_calls(artifact, fresh(artifact), earlier);
        assert(0 <= calls[calls.len() - 1].setter < artifact.setters.len());
        let setter = artifact.setters[call.setter];
        assert(setter.slot == call.setter);
        assert(setter.fits(artifact.builder_layout[setter.slot]));
        assert forall|i: int| 0 <= i < artifact.builder_layout.len() implies #[trigger] state[i]
            == slot_holding(artifact.builder_layout[i], values_of(calls, i)) by {
            assert(before[i] == slot_holding(artifact.builder_layout[i], values_of(earlier, i)));
        }
    }
}

} // verus!
