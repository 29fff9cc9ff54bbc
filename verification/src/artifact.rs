//! The builder artifact: what synthesis hands to whoever writes the builder
//! out. It says, field by field, how the slot is kept, which setter fills it
//! and how finalize reads it.

use vstd::prelude::*;
use crate::declaration::TypeSyntax;

verus! {

/// What a slot holds before any setter is called.
#[derive(Clone, Copy, Debug, PartialEq, Eq)]
pub enum InitialValue {
    /// No value.
    Absent,
    /// A sequence without elements.
    EmptySequence,
}

/// How a slot stores its content.
#[derive(Debug, PartialEq, Eq)]
pub enum SlotStorage<'a> {
    /// An optional value of the given type.
    Optional(&'a TypeSyntax),
    /// A growable sequence of elements of the given type.
    Sequence(&'a TypeSyntax),
}

/// One slot of the builder structure.
#[derive(Debug, PartialEq, Eq)]
pub struct BuilderSlotSpec<'a> {
    /// The name of the slot, which is the name of the field.
    pub name: &'a str,
    pub storage: SlotStorage<'a>,
    pub initial: InitialValue,
}

/// What a setter does to its slot.
#[derive(Clone, Copy, Debug, PartialEq, Eq)]
pub enum SetterAction {
    /// Puts the value in the slot, in place of what was there.
    Replace,
    /// Adds the value at the end of the slot's sequence.
    Append,
}

/// One setter of the builder. Every setter takes one value and hands the
/// builder back, so that calls can be chained.
#[derive(Debug, PartialEq, Eq)]
pub struct SetterSpec<'a> {
    pub name: String,
    /// The index of the slot that the setter writes.
    pub slot: usize,
    /// The type of the value that the setter takes.
    pub parameter: &'a TypeSyntax,
    pub action: SetterAction,
}

/// How finalize reads one slot.
#[derive(Clone, Copy, Debug, PartialEq, Eq)]
pub enum ExtractionRule {
    /// Fails while the slot is absent; else takes the value out of the slot.
    Required,
    /// Yields what the slot holds, absent or present, and leaves it there.
    Optional,
    /// Takes the whole sequence out of the slot, in insertion order.
    Accumulated,
}

/// How finalize fills one field of the record.
#[derive(Debug, PartialEq, Eq)]
pub struct FieldExtraction<'a> {
    /// The name of the field, which is the name of its slot.
    pub field: &'a str,
    pub rule: ExtractionRule,
}

/// The finalize operation: one extraction per field, in declaration order.
/// It fails at the first required field whose slot is absent.
#[derive(Debug, PartialEq, Eq)]
pub struct FinalizeSpec<'a> {
    pub fields: Vec<FieldExtraction<'a>>,
}

/// The builder synthesized for one record.
#[derive(Debug, PartialEq, Eq)]
pub struct BuilderArtifact<'a> {
    /// The name of the record, which gets the factory operation `builder`.
    pub record_name: &'a str,
    /// The name of the builder structure.
    pub builder_name: String,
    pub builder_layout: Vec<BuilderSlotSpec<'a>>,
    pub setters: Vec<SetterSpec<'a>>,
    pub finalize: FinalizeSpec<'a>,
}

/// `SlotStorage`, by value.
pub enum StorageModel {
    Optional(TypeSyntax),
    Sequence(TypeSyntax),
}

/// `BuilderSlotSpec` with its name as a sequence of characters.
pub struct SlotModel {
    pub name: Seq<char>,
    pub storage: StorageModel,
    pub initial: InitialValue,
}

/// `SetterSpec` with its name as a sequence of characters.
pub struct SetterModel {
    pub name: Seq<char>,
    pub slot: int,
    pub parameter: TypeSyntax,
    pub action: SetterAction,
}

/// `FieldExtraction` with its name as a sequence of characters.
pub struct ExtractionModel {
    pub field: Seq<char>,
    pub rule: ExtractionRule,
}

/// `BuilderArtifact` as sequences.
pub struct ArtifactModel {
    pub record_name: Seq<char>,
    pub builder_name: Seq<char>,
    pub builder_layout: Seq<SlotModel>,
    pub setters: Seq<SetterModel>,
    pub finalize: Seq<ExtractionModel>,
}

impl<'a> View for SlotStorage<'a> {
    type V = StorageModel;

    open spec fn view(&self) -> StorageModel {
        match *self {
            SlotStorage::Optional(ty) => StorageModel::Optional(*ty),
            SlotStorage::Sequence(element) => StorageModel::Sequence(*element),
        }
    }
}

impl<'a> View for BuilderSlotSpec<'a> {
    type V = SlotModel;

    open spec fn view(&self) -> SlotModel {
        SlotModel { name: self.name@, storage: self.storage@, initial: self.initial }
    }
}

impl<'a> View for SetterSpec<'a> {
    type V = SetterModel;

    open spec fn view(&self) -> SetterModel {
        SetterModel {
            name: self.name@,
            slot: self.slot as int,
            parameter: *self.parameter,
            action: self.action,
        }
    }
}

impl<'a> View for FieldExtraction<'a> {
    type V = ExtractionModel;

    open spec fn view(&self) -> ExtractionModel {
        ExtractionModel { field: self.field@, rule: self.rule }
    }
}

impl<'a> View for BuilderArtifact<'a> {
    type V = ArtifactModel;

    open spec fn view(&self) -> ArtifactModel {
        ArtifactModel {
            record_name: self.record_name@,
            builder_name: self.builder_name@,
            builder_layout: Seq::new(
                self.builder_layout@.len(),
                |i: int| self.builder_layout@[i]@,
            ),
            setters: Seq::new(self.setters@.len(), |i: int| self.setters@[i]@),
            finalize: Seq::new(self.finalize.fields@.len(), |i: int| self.finalize.fields@[i]@),
        }
    }
}

impl SlotModel {
    /// Whether the slot starts out as its storage demands and finalize reads
    /// it by a rule that fits: a sequence is accumulated, an optional value is
    /// not.
    pub open spec fn fits(self, extraction: ExtractionModel) -> bool {
        &&& self.name == extraction.field
        &&& match self.storage {
            StorageModel::Optional(_) => {
                &&& self.initial == InitialValue::Absent
                &&& extraction.rule != ExtractionRule::Accumulated
            },
            StorageModel::Sequence(_) => {
                &&& self.initial == InitialValue::EmptySequence
                &&& extraction.rule == ExtractionRule::Accumulated
            },
        }
    }
}

impl SetterModel {
    /// Whether the setter can act on the slot: it replaces an optional value
    /// or appends to a sequence, and takes a value of the type that is stored.
    pub open spec fn fits(self, slot: SlotModel) -> bool {
        match self.action {
            SetterAction::Replace => slot.storage == StorageModel::Optional(self.parameter),
            SetterAction::Append => slot.storage == StorageModel::Sequence(self.parameter),
        }
    }
}

/// Whether `index` is the first setter with the given name.
pub open spec fn is_first_named(setters: Seq<SetterModel>, name: Seq<char>, index: int) -> bool {
    &&& 0 <= index < setters.len()
    &&& setters[index].name == name
    &&& forall|earlier: int| 0 <= earlier < index ==> (#[trigger] setters[earlier]).name != name
}

impl ArtifactModel {
    /// Whether the artifact has a setter with the given name.
    pub open spec fn has_setter(self, name: Seq<char>) -> bool {
        exists|index: int| 0 <= index < self.setters.len() && (#[trigger] self.setters[index]).name == name
    }

    /// The invariant of an artifact: one extraction per slot, each fitting its
    /// slot, and every setter writing a slot that exists and that it fits.
    pub open spec fn well_formed(self) -> bool {
        &&& self.finalize.len() == self.builder_layout.len()
        &&& forall|i: int|
            0 <= i < self.builder_layout.len() ==> (#[trigger] self.builder_layout[i]).fits(
                self.finalize[i],
            )
        &&& forall|j: int|
            0 <= j < self.setters.len() ==> {
                &&& 0 <= (#[trigger] self.setters[j]).slot < self.builder_layout.len()
                &&& self.setters[j].fits(self.builder_layout[self.setters[j].slot])
            }
    }

    /// Whether the artifact has exactly one setter per slot, the setter with
    /// index `i` writing the slot with index `i`.
    pub open spec fn one_setter_per_slot(self) -> bool {
        &&& self.setters.len() == self.builder_layout.len()
        &&& forall|i: int| 0 <= i < self.setters.len() ==> (#[trigger] self.setters[i]).slot == i
    }
}

impl<'a> BuilderArtifact<'a> {
    /// Finds the first setter with the given name.
    pub fn setter_named(&self, name: &str) -> (found: Option<usize>)
        ensures
            found is Some <==> self@.has_setter(name@),
            found matches Some(index) ==> is_first_named(self@.setters, name@, index as int),
    {
        let wanted = String::from_str(name);
        let mut index: usize = 0;
        while index < self.setters.len()
            invariant
                index <= self.setters.len(),
                wanted@ == name@,
                forall|earlier: int|
                    0 <= earlier < index ==> (#[trigger] self@.setters[earlier]).name != name@,
            decreases self.setters.len() - index,
        {
            if self.setters[index].name == wanted {
                assert(self@.setters[index as int].name == name@);
                return Some(index);
            }
            index += 1;
        }
        None
    }
}

} // verus!
