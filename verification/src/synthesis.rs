//! The code synthesizer: from the classified fields of a record to its
//! builder artifact.
//!
//! | strategy     | slot                | starts as       | setter                     | finalize                     |
//! |--------------|---------------------|-----------------|----------------------------|------------------------------|
//! | optional     | optional `inner`    | absent          | `set_<field>`, replaces    | yields what the slot holds   |
//! | accumulating | sequence of element | empty sequence  | the `each` name, appends   | yields the sequence          |
//! | required     | optional `ty`       | absent          | `set_<field>`, replaces    | fails while absent           |

use vstd::prelude::*;
use crate::artifact::{
    ArtifactModel, BuilderArtifact, BuilderSlotSpec, ExtractionModel, ExtractionRule,
    FieldExtraction, FinalizeSpec, InitialValue, SetterAction, SetterModel, SetterSpec, SlotModel,
    SlotStorage, StorageModel,
};
use crate::classify::{classify_field, strategy_of, FieldStrategy, StrategyModel};
use crate::declaration::{Declaration, FieldDescriptor};
use crate::error::{Diagnostic, GenerationError, Location};
use crate::schema::{extract_schema, extraction_error};

verus! {

/// The slot of a field with the given name and strategy.
pub open spec fn slot_for(name: Seq<char>, strategy: StrategyModel) -> SlotModel {
    match strategy {
        StrategyModel::OptionalSlot { inner } => SlotModel {
            name,
            storage: StorageModel::Optional(inner),
            initial: InitialValue::Absent,
        },
        StrategyModel::AccumulatingSlot { element, each } => SlotModel {
            name,
            storage: StorageModel::Sequence(element),
            initial: InitialValue::EmptySequence,
        },
        StrategyModel::RequiredSlot { ty } => SlotModel {
            name,
            storage: StorageModel::Optional(ty),
            initial: InitialValue::Absent,
        },
    }
}

/// The setter of the field with the given name, index and strategy. It is
/// named `set_` and the field's name, but for an accumulating field, whose
/// setter has the name that the directive gives it.
pub open spec fn setter_for(name: Seq<char>, index: int, strategy: StrategyModel) -> SetterModel {
    match strategy {
        StrategyModel::OptionalSlot { inner } => SetterModel {
            name: "set_"@ + name,
            slot: index,
            parameter: inner,
            action: SetterAction::Replace,
        },
        StrategyModel::AccumulatingSlot { element, each } => SetterModel {
            name: each,
            slot: index,
            parameter: element,
            action: SetterAction::Append,
        },
        StrategyModel::RequiredSlot { ty } => SetterModel {
            name: "set_"@ + name,
            slot: index,
            parameter: ty,
            action: SetterAction::Replace,
        },
    }
}

/// How finalize reads the field with the given name and strategy.
pub open spec fn extraction_for(name: Seq<char>, strategy: StrategyModel) -> ExtractionModel {
    match strategy {
        StrategyModel::OptionalSlot { .. } => ExtractionModel {
            field: name,
            rule: ExtractionRule::Optional,
        },
        StrategyModel::AccumulatingSlot { .. } => ExtractionModel {
            field: name,
            rule: ExtractionRule::Accumulated,
        },
        StrategyModel::RequiredSlot { .. } => ExtractionModel {
            field: name,
            rule: ExtractionRule::Required,
        },
    }
}

/// Lays out the slot of a field.
pub fn slot_spec<'a>(name: &'a str, strategy: &FieldStrategy<'a>) -> (slot: BuilderSlotSpec<'a>)
    ensures
        slot@ == slot_for(name@, strategy@),
{
    match strategy {
        FieldStrategy::OptionalSlot { inner } => BuilderSlotSpec {
            name,
            storage: SlotStorage::Optional(*inner),
            initial: InitialValue::Absent,
        },
        FieldStrategy::AccumulatingSlot { element, .. } => BuilderSlotSpec {
            name,
            storage: SlotStorage::Sequence(*element),
            initial: InitialValue::EmptySequence,
        },
        FieldStrategy::RequiredSlot { ty } => BuilderSlotSpec {
            name,
            storage: SlotStorage::Optional(*ty),
            initial: InitialValue::Absent,
        },
    }
}

/// The name of the setter that replaces the value of the field `name`.
pub fn replacing_setter_name(name: &str) -> (setter: String)
    ensures
        setter@ == "set_"@ + name@,
{
    let mut setter = String::from_str("set_");
    setter.append(name);
    setter
}

/// Describes the setter of the field with index `index`.
pub fn setter_spec<'a>(name: &'a str, index: usize, strategy: &FieldStrategy<'a>) -> (setter:
    SetterSpec<'a>)
    ensures
        setter@ == setter_for(name@, index as int, strategy@),
{
    match strategy {
        FieldStrategy::OptionalSlot { inner } => SetterSpec {
            name: replacing_setter_name(name),
            slot: index,
            parameter: *inner,
            action: SetterAction::Replace,
        },
        FieldStrategy::AccumulatingSlot { element, each } => SetterSpec {
            name: String::from_str(*each),
            slot: index,
            parameter: *element,
            action: SetterAction::Append,
        },
        FieldStrategy::RequiredSlot { ty } => SetterSpec {
            name: replacing_setter_name(name),
            slot: index,
            parameter: *ty,
            action: SetterAction::Replace,
        },
    }
}

/// Describes how finalize reads a field.
pub fn field_extraction<'a>(name: &'a str, strategy: &FieldStrategy<'a>) -> (extraction:
    FieldExtraction<'a>)
    ensures
        extraction@ == extraction_for(name@, strategy@),
{
    match strategy {
        FieldStrategy::OptionalSlot { .. } => FieldExtraction {
            field: name,
            rule: ExtractionRule::Optional,
        },
        FieldStrategy::AccumulatingSlot { .. } => FieldExtraction {
            field: name,
            rule: ExtractionRule::Accumulated,
        },
        FieldStrategy::RequiredSlot { .. } => FieldExtraction {
            field: name,
            rule: ExtractionRule::Required,
        },
    }
}

/// Whether classification stops at the field with index `index`.
pub open spec fn rejects(fields: Seq<FieldDescriptor>, index: int) -> bool {
    strategy_of(&fields[index], index as usize) is Err
}

/// Whether classification accepts every field.
pub open spec fn all_accepted(fields: Seq<FieldDescriptor>) -> bool {
    forall|index: int| 0 <= index < fields.len() ==> !#[trigger] rejects(fields, index)
}

/// Whether `index` is the first field at which classification stops.
pub open spec fn is_first_rejected(fields: Seq<FieldDescriptor>, index: int) -> bool {
    &&& 0 <= index < fields.len()
    &&& rejects(fields, index)
    &&& forall|earlier: int| 0 <= earlier < index ==> !#[trigger] rejects(fields, earlier)
}

/// The index of the first field at which classification stops.
pub open spec fn first_rejected(fields: Seq<FieldDescriptor>) -> int {
    choose|index: int| is_first_rejected(fields, index)
}

/// There is at most one first rejected field, and `first_rejected` names it.
pub proof fn lemma_first_rejected(fields: Seq<FieldDescriptor>, index: int)
    requires
        is_first_rejected(fields, index),
    ensures
        !all_accepted(fields),
        first_rejected(fields) == index,
{
    let chosen = first_rejected(fields);
    assert(is_first_rejected(fields, chosen));
    if chosen < index {
        assert(!rejects(fields, chosen));
    } else if index < chosen {
        assert(!rejects(fields, index));
    }
}

/// The strategy of the field with index `index`, where it has one.
pub open spec fn strategy_at(fields: Seq<FieldDescriptor>, index: int) -> StrategyModel {
    match strategy_of(&fields[index], index as usize) {
        Ok(strategy) => strategy,
        Err(_) => arbitrary(),
    }
}

/// The error at the field with index `index`, where classification stops
/// there.
pub open spec fn error_at(fields: Seq<FieldDescriptor>, index: int) -> GenerationError {
    match strategy_of(&fields[index], index as usize) {
        Ok(_) => arbitrary(),
        Err(error) => error,
    }
}

/// The artifact of a record whose fields are all accepted: one slot, one
/// setter and one extraction per field, in declaration order, and a builder
/// named after the record.
pub open spec fn synthesized(name: Seq<char>, fields: Seq<FieldDescriptor>) -> ArtifactModel {
    ArtifactModel {
        record_name: name,
        builder_name: name + "Builder"@,
        builder_layout: Seq::new(
            fields.len(),
            |i: int| slot_for(fields[i].name@, strategy_at(fields, i)),
        ),
        setters: Seq::new(
            fields.len(),
            |i: int| setter_for(fields[i].name@, i, strategy_at(fields, i)),
        ),
        finalize: Seq::new(
            fields.len(),
            |i: int| extraction_for(fields[i].name@, strategy_at(fields, i)),
        ),
    }
}

/// What synthesis makes of a declaration: the artifact of its fields, or the
/// first error on the way. The declaration is looked at first, then its
/// fields in declaration order, so the error is that of the first field that
/// has one. There is no artifact with a field left out.
pub open spec fn generated(declaration: &Declaration) -> Result<ArtifactModel, GenerationError> {
    match extraction_error(declaration) {
        Some(error) => Err(error),
        None => {
            let fields = declaration.named_fields();
            if all_accepted(fields) {
                Ok(synthesized(declaration.name@, fields))
            } else {
                Err(error_at(fields, first_rejected(fields)))
            }
        },
    }
}

/// A synthesized artifact keeps the invariant of artifacts and has one setter
/// per slot.
pub proof fn lemma_synthesized_well_formed(name: Seq<char>, fields: Seq<FieldDescriptor>)
    ensures
        synthesized(name, fields).well_formed(),
        synthesized(name, fields).one_setter_per_slot(),
{
    let artifact = synthesized(name, fields);
    assert forall|i: int| 0 <= i < artifact.builder_layout.len() implies (
    #[trigger] artifact.builder_layout[i]).fits(artifact.finalize[i]) by {}
    assert forall|j: int| 0 <= j < artifact.setters.len() implies {
        &&& 0 <= (#[trigger] artifact.setters[j]).slot < artifact.builder_layout.len()
        &&& artifact.setters[j].fits(artifact.builder_layout[artifact.setters[j].slot])
    } by {}
}

/// The view of what `build_struct_def` returns.
pub open spec fn artifact_view(outcome: Result<BuilderArtifact, GenerationError>) -> Result<
    ArtifactModel,
    GenerationError,
> {
    match outcome {
        Ok(artifact) => Ok(artifact@),
        Err(error) => Err(error),
    }
}

/// Synthesizes the builder of a declaration.
///
/// The whole pipeline in one pass: extract the schema, classify each field in
/// declaration order (validating the directives of list fields on the way),
/// and lay out slot, setter and extraction for each. The first error ends the
/// pass.
pub fn build_struct_def<'a>(tree: &'a Declaration) -> (outcome: Result<
    BuilderArtifact<'a>,
    GenerationError,
>)
    ensures
        artifact_view(outcome) == generated(tree),
        outcome matches Ok(artifact) ==> artifact@.well_formed() && artifact@.one_setter_per_slot(),
{
    let schema = match extract_schema(tree) {
        Ok(schema) => schema,
        Err(error) => {
            return Err(error);
        },
    };
    let fields = schema.fields;
    let mut builder_layout: Vec<BuilderSlotSpec<'a>> = Vec::with_capacity(fields.len());
    let mut setters: Vec<SetterSpec<'a>> = Vec::with_capacity(fields.len());
    let mut extractions: Vec<FieldExtraction<'a>> = Vec::with_capacity(fields.len());
    let mut index: usize = 0;
    while index < fields.len()
        invariant
            index <= fields.len(),
            fields@ == tree.named_fields(),
            extraction_error(tree) is None,
            forall|earlier: int| 0 <= earlier < index ==> !#[trigger] rejects(fields@, earlier),
            builder_layout@.len() == index,
            setters@.len() == index,
            extractions@.len() == index,
            forall|i: int|
                0 <= i < index ==> (#[trigger] builder_layout@[i])@ == slot_for(
                    fields@[i].name@,
                    strategy_at(fields@, i),
                ),
            forall|i: int|
                0 <= i < index ==> (#[trigger] setters@[i])@ == setter_for(
                    fields@[i].name@,
                    i,
                    strategy_at(fields@, i),
                ),
            forall|i: int|
                0 <= i < index ==> (#[trigger] extractions@[i])@ == extraction_for(
                    fields@[i].name@,
                    strategy_at(fields@, i),
                ),
        decreases fields.len() - index,
    {
        let field = &fields[index];
        match classify_field(field, index) {
            Ok(strategy) => {
                let name = field.name.as_str();
                assert(!rejects(fields@, index as int));
                builder_layout.push(slot_spec(name, &strategy));
                setters.push(setter_spec(name, index, &strategy));
                extractions.push(field_extraction(name, &strategy));
            },
            Err(error) => {
                proof {
                    assert(rejects(fields@, index as int));
                    lemma_first_rejected(fields@, index as int);
                }
                return Err(error);
            },
        }
        index += 1;
    }
    let mut builder_name = String::from_str(schema.name);
    builder_name.append("Builder");
    let artifact = BuilderArtifact {
        record_name: schema.name,
        builder_name,
        builder_layout,
        setters,
        finalize: FinalizeSpec { fields: extractions },
    };
    proof {
        let expected = synthesized(tree.name@, fields@);
        assert(all_accepted(fields@));
        assert(artifact@.builder_layout =~= expected.builder_layout);
        assert(artifact@.setters =~= expected.setters);
        assert(artifact@.finalize =~= expected.finalize);
        lemma_synthesized_well_formed(tree.name@, fields@);
    }
    Ok(artifact)
}

/// What the host puts in the place of a declaration's builder: the builder
/// itself, or the diagnostic that breaks the build.
#[derive(Debug, PartialEq, Eq)]
pub enum Expansion<'a> {
    Builder(BuilderArtifact<'a>),
    CompileError(Diagnostic),
}

/// `Expansion` as sequences.
pub enum ExpansionModel {
    Builder(ArtifactModel),
    CompileError { message: Seq<char>, location: Location },
}

impl<'a> View for Expansion<'a> {
    type V = ExpansionModel;

    open spec fn view(&self) -> ExpansionModel {
        match *self {
            Expansion::Builder(artifact) => ExpansionModel::Builder(artifact@),
            Expansion::CompileError(diagnostic) => ExpansionModel::CompileError {
                message: diagnostic.message@,
                location: diagnostic.location,
            },
        }
    }
}

/// The expansion of a declaration: its artifact, or the text and the place of
/// the error that synthesis stops at.
pub open spec fn expanded(declaration: &Declaration) -> ExpansionModel {
    match generated(declaration) {
        Ok(artifact) => ExpansionModel::Builder(artifact),
        Err(error) => ExpansionModel::CompileError {
            message: error.spec_message(),
            location: error.spec_location(),
        },
    }
}

/// Expands a declaration into its builder, or into the diagnostic to report
/// at it. It always returns: an error of synthesis is a value, not a failure.
pub fn derive<'a>(input: &'a Declaration) -> (expansion: Expansion<'a>)
    ensures
        expansion@ == expanded(input),
{
    match build_struct_def(input) {
        Ok(artifact) => Expansion::Builder(artifact),
        Err(error) => Expansion::CompileError(
            Diagnostic { message: error.message(), location: error.location() },
        ),
    }
}

} // verus!
