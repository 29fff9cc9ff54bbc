//! A builder instance that runs an artifact: slots that hold values, setter
//! calls that write them, and the finalize operation.
//!
//! The instance does what the builder written out from the artifact does, on
//! values of any one type `T`. It is the executable counterpart of the
//! functions on sequences that give builders their meaning.

use vstd::prelude::*;
use crate::artifact::{
    is_first_named, ArtifactModel, BuilderArtifact, ExtractionRule, InitialValue, SetterAction,
};
use crate::semantics::{
    after_call, after_finalize, complete, fresh, is_first_missing, is_missing,
    lemma_call_fits, lemma_finalize_fits, lemma_fresh_fits, record_of, slot_fits, state_fits, Call,
    FieldModel, SlotState,
};

verus! {

/// What a slot of a builder instance holds.
#[derive(Debug, PartialEq, Eq)]
pub enum Slot<T> {
    /// At most one value.
    Single(Option<T>),
    /// A sequence of values in insertion order.
    Sequence(Vec<T>),
}

impl<T> View for Slot<T> {
    type V = SlotState<T>;

    open spec fn view(&self) -> SlotState<T> {
        match *self {
            Slot::Single(held) => SlotState::Single(held),
            Slot::Sequence(values) => SlotState::Sequence(values@),
        }
    }
}

/// What finalize yields for one field of the record.
#[derive(Debug, PartialEq, Eq)]
pub enum FieldValue<T> {
    /// The value of a required field.
    Required(T),
    /// The value of an optional field, absent or present.
    Optional(Option<T>),
    /// The elements of an accumulated field, in insertion order.
    Accumulated(Vec<T>),
}

impl<T> View for FieldValue<T> {
    type V = FieldModel<T>;

    open spec fn view(&self) -> FieldModel<T> {
        match *self {
            FieldValue::Required(value) => FieldModel::Required(value),
            FieldValue::Optional(held) => FieldModel::Optional(held),
            FieldValue::Accumulated(values) => FieldModel::Accumulated(values@),
        }
    }
}

/// The error of finalize: the first required field, in declaration order,
/// whose slot is absent.
#[derive(Debug, PartialEq, Eq)]
pub struct BuildError {
    /// The index of the field.
    pub index: usize,
    /// The name of the field.
    pub field: String,
}

/// The text that reports the field `field` missing: the name of the field,
/// directly followed by `is not set`.
pub open spec fn missing_text(field: Seq<char>) -> Seq<char> {
    field + "is not set"@
}

/// Writes the text that reports the field `field` missing.
pub fn missing_message(field: &str) -> (text: String)
    ensures
        text@ == missing_text(field@),
{
    let mut text = String::from_str(field);
    text.append("is not set");
    text
}

impl BuildError {
    /// The text of the error.
    pub fn message(&self) -> (text: String)
        ensures
            text@ == missing_text(self.field@),
    {
        missing_message(self.field.as_str())
    }
}

/// Whether `actual` is what finalize may hand out where the slots yield
/// `expected`: the same value, but that the value of an optional field, which
/// stays in its slot, is handed out as a clone.
pub open spec fn handed_out<T: Clone>(actual: FieldModel<T>, expected: FieldModel<T>) -> bool {
    match expected {
        FieldModel::Optional(Some(held)) => actual matches FieldModel::Optional(Some(copy))
            && cloned(held, copy),
        _ => actual == expected,
    }
}

/// A builder instance of one artifact.
pub struct Builder<'a, T> {
    artifact: &'a BuilderArtifact<'a>,
    slots: Vec<Slot<T>>,
}

impl<'a, T> Builder<'a, T> {
    /// The artifact that the instance runs.
    pub closed spec fn artifact(&self) -> ArtifactModel {
        self.artifact@
    }

    /// The state of the instance: what each slot holds.
    pub closed spec fn state(&self) -> Seq<SlotState<T>> {
        Seq::new(self.slots@.len(), |i: int| self.slots@[i]@)
    }

    /// The invariant of an instance: its artifact is well formed, and its
    /// state is one of that artifact's builder.
    pub open spec fn well_formed(&self) -> bool {
        &&& self.artifact().well_formed()
        &&& state_fits(self.artifact(), self.state())
    }

    /// A fresh instance: every slot at its initial value.
    pub fn new(artifact: &'a BuilderArtifact<'a>) -> (builder: Self)
        requires
            artifact@.well_formed(),
        ensures
            builder.well_formed(),
            builder.artifact() == artifact@,
            builder.state() == fresh::<T>(artifact@),
    {
        let mut slots: Vec<Slot<T>> = Vec::new();
        let mut index: usize = 0;
        while index < artifact.builder_layout.len()
            invariant
                index <= artifact.builder_layout.len(),
                slots@.len() == index,
                forall|i: int|
                    0 <= i < index ==> (#[trigger] slots@[i])@ == fresh::<T>(artifact@)[i],
            decreases artifact.builder_layout.len() - index,
        {
            let slot = match artifact.builder_layout[index].initial {
                InitialValue::Absent => Slot::Single(None),
                InitialValue::EmptySequence => Slot::Sequence(Vec::new()),
            };
            slots.push(slot);
            index += 1;
        }
        proof {
            lemma_fresh_fits::<T>(artifact@);
            assert(Seq::new(slots@.len(), |i: int| slots@[i]@) =~= fresh::<T>(artifact@));
        }
        Builder { artifact, slots }
    }

    /// The artifact that the instance runs.
    pub fn described(&self) -> (artifact: &'a BuilderArtifact<'a>)
        ensures
            artifact@ == self.artifact(),
    {
        self.artifact
    }

    /// What each slot holds, in declaration order.
    pub fn slots(&self) -> (slots: &Vec<Slot<T>>)
        ensures
            slots@.len() == self.state().len(),
            forall|i: int| 0 <= i < slots@.len() ==> (#[trigger] slots@[i])@ == self.state()[i],
    {
        &self.slots
    }

    /// Calls the setter with index `setter` on `value`. The call cannot fail,
    /// and it hands the instance back for the next call.
    pub fn apply(&mut self, setter: usize, value: T) -> (builder: &mut Self)
        requires
            old(self).well_formed(),
            setter < old(self).artifact().setters.len(),
        ensures
            builder.well_formed(),
            builder.artifact() == old(self).artifact(),
            builder.state() == after_call(
                old(self).artifact(),
                old(self).state(),
                Call { setter: setter as int, value },
            ),
            *final(self) == *final(builder),
    {
        proof {
            lemma_call_fits(self.artifact@, self.state(), Call { setter: setter as int, value });
        }
        let ghost before = self.state();
        let ghost after = after_call(self.artifact@, before, Call { setter: setter as int, value });
        let described = &self.artifact.setters[setter];
        assert(described@ == self.artifact@.setters[setter as int]);
        let index = described.slot;
        match described.action {
            SetterAction::Replace => {
                self.slots.set(index, Slot::Single(Some(value)));
            },
            SetterAction::Append => {
                let mut slot: Slot<T> = Slot::Sequence(Vec::new());
                assert(before[index as int] is Sequence) by {
                    assert(self.artifact@.setters[setter as int].fits(
                        self.artifact@.builder_layout[index as int],
                    ));
                }
                self.slots.set_and_swap(index, &mut slot);
                match slot {
                    Slot::Sequence(mut values) => {
                        values.push(value);
                        self.slots.set(index, Slot::Sequence(values));
                    },
                    Slot::Single(_) => unreached(),
                }
            },
        }
        assert(self.state() =~= after);
        self
    }

    /// Calls the first setter with the given name on `value`, and tells
    /// whether there is such a setter. Where there is none, nothing changes.
    pub fn call(&mut self, name: &str, value: T) -> (found: bool)
        requires
            old(self).well_formed(),
        ensures
            final(self).well_formed(),
            final(self).artifact() == old(self).artifact(),
            found == old(self).artifact().has_setter(name@),
            found ==> (exists|setter: int| #[trigger]
                is_first_named(old(self).artifact().setters, name@, setter) && final(self).state()
                    == after_call(old(self).artifact(), old(self).state(), Call { setter, value })),
            !found ==> final(self).state() == old(self).state(),
    {
        match self.artifact.setter_named(name) {
            Some(setter) => {
                assert(is_first_named(self.artifact@.setters, name@, setter as int));
                self.apply(setter, value);
                true
            },
            None => false,
        }
    }

    /// Looks for the first required field whose slot is absent.
    pub fn first_missing(&self) -> (missing: Option<usize>)
        requires
            self.well_formed(),
        ensures
            missing is None <==> complete(self.artifact(), self.state()),
            missing matches Some(index) ==> is_first_missing(
                self.artifact(),
                self.state(),
                index as int,
            ),
    {
        let rules = &self.artifact.finalize.fields;
        let mut index: usize = 0;
        while index < self.slots.len()
            invariant
                self.well_formed(),
                rules == &self.artifact.finalize.fields,
                index <= self.slots.len(),
                forall|earlier: int|
                    0 <= earlier < index ==> !#[trigger] is_missing(
                        self.artifact(),
                        self.state(),
                        earlier,
                    ),
            decreases self.slots.len() - index,
        {
            if let ExtractionRule::Required = rules[index].rule {
                if let Slot::Single(None) = &self.slots[index] {
                    assert(is_missing(self.artifact(), self.state(), index as int));
                    return Some(index);
                }
            }
            assert(!is_missing(self.artifact(), self.state(), index as int));
            index += 1;
        }
        None
    }
}

impl<'a, T: Clone> Builder<'a, T> {
    /// Finalizes the instance.
    ///
    /// Where a required field is missing, the error names the first such
    /// field in declaration order and the instance is left as it was, so that
    /// the caller can set the field and try again. Else the record comes
    /// back, one value per field in declaration order; required values and
    /// accumulated sequences are taken out of their slots, and optional
    /// values stay and are handed out as clones.
    pub fn build(&mut self) -> (outcome: Result<Vec<FieldValue<T>>, BuildError>)
        requires
            old(self).well_formed(),
        ensures
            final(self).well_formed(),
            final(self).artifact() == old(self).artifact(),
            (match outcome {
                Err(error) => {
                    &&& is_first_missing(
                        old(self).artifact(),
                        old(self).state(),
                        error.index as int,
                    )
                    &&& error.field@ == old(self).artifact().finalize[error.index as int].field
                    &&& final(self).state() == old(self).state()
                },
                Ok(record) => {
                    &&& complete(old(self).artifact(), old(self).state())
                    &&& record@.len() == old(self).state().len()
                    &&& forall|i: int|
                        0 <= i < record@.len() ==> handed_out(
                            (#[trigger] record@[i])@,
                            record_of(old(self).artifact(), old(self).state())[i],
                        )
                    &&& final(self).state() == after_finalize(
                        old(self).artifact(),
                        old(self).state(),
                    )
                },
            }),
    {
        let rules = &self.artifact.finalize.fields;
        if let Some(index) = self.first_missing() {
            return Err(BuildError { index, field: String::from_str(rules[index].field) });
        }
        let ghost artifact = self.artifact@;
        let ghost before = self.state();
        let ghost after = after_finalize(artifact, before);
        proof {
            lemma_finalize_fits(artifact, before);
        }
        let mut record: Vec<FieldValue<T>> = Vec::with_capacity(self.slots.len());
        let mut index: usize = 0;
        while index < self.slots.len()
            invariant
                artifact == self.artifact@,
                artifact.well_formed(),
                rules == &self.artifact.finalize.fields,
                state_fits(artifact, before),
                complete(artifact, before),
                after == after_finalize(artifact, before),
                self.slots@.len() == before.len(),
                index <= self.slots@.len(),
                record@.len() == index,
                forall|i: int| 0 <= i < index ==> (#[trigger] self.slots@[i])@ == after[i],
                forall|i: int|
                    index <= i < self.slots@.len() ==> (#[trigger] self.slots@[i])@ == before[i],
                forall|i: int|
                    0 <= i < index ==> handed_out(
                        (#[trigger] record@[i])@,
                        record_of(artifact, before)[i],
                    ),
            decreases self.slots@.len() - index,
        {
            proof {
                assert(artifact.builder_layout[index as int].fits(artifact.finalize[index as int]));
                assert(slot_fits(artifact.builder_layout[index as int], before[index as int]));
                assert(!is_missing(artifact, before, index as int));
                assert(rules@[index as int]@ == artifact.finalize[index as int]);
            }
            match rules[index].rule {
                ExtractionRule::Required => {
                    let mut slot: Slot<T> = Slot::Single(None);
                    self.slots.set_and_swap(index, &mut slot);
                    match slot {
                        Slot::Single(Some(value)) => record.push(FieldValue::Required(value)),
                        _ => unreached(),
                    }
                },
                ExtractionRule::Optional => {
                    let held = match &self.slots[index] {
                        Slot::Single(Some(value)) => Some(value.clone()),
                        _ => None,
                    };
                    record.push(FieldValue::Optional(held));
                },
                ExtractionRule::Accumulated => {
                    let mut slot: Slot<T> = Slot::Sequence(Vec::new());
                    self.slots.set_and_swap(index, &mut slot);
                    match slot {
                        Slot::Sequence(values) => record.push(FieldValue::Accumulated(values)),
                        _ => unreached(),
                    }
                },
            }
            index += 1;
        }
        assert(self.state() =~= after);
        Ok(record)
    }
}

} // verus!
