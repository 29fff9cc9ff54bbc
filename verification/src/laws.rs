//! What holds of every synthesized builder, proved from the definitions.
//!
//! Each law speaks of a declaration, of the artifact synthesized for it and
//! of the setter calls made on a fresh builder, in the order in which they are
//! made. The setter of the field with index `i` has index `i`.

use vstd::prelude::*;
use crate::artifact::{ArtifactModel, ExtractionRule, SetterAction};
use crate::classify::{strategy_of, type_shape, wrapper_kind, StrategyModel, WrapperKind};
use crate::declaration::{Declaration, FieldDescriptor};
use crate::directive::{each_directive, first_recognized, has_recognized};
use crate::error::GenerationError;
use crate::semantics::{
    after_calls, after_finalize, all_called, called, calls_valid, complete, fresh,
    is_first_missing, is_first_uncalled, is_missing, lemma_called_values, lemma_slots_after_calls,
    lemma_values_of_own_calls, record_of, slot_holding, values_of, Call, FieldModel, SlotState,
};
use crate::synthesis::{
    all_accepted, extraction_for, generated, lemma_first_rejected, lemma_synthesized_well_formed,
    rejects, setter_for, slot_for, synthesized,
};

verus! {

/// Whether synthesis accepts the declaration and makes `artifact` of it.
pub open spec fn synthesizes(declaration: &Declaration, artifact: ArtifactModel) -> bool {
    generated(declaration) == Ok::<ArtifactModel, GenerationError>(artifact)
}

/// An artifact that synthesis makes has one slot, one setter and one
/// extraction for each field of the declaration, laid out by the strategy of
/// the field, and it keeps the invariant of artifacts.
pub proof fn law_one_of_each_per_field(declaration: &Declaration, artifact: ArtifactModel)
    requires
        synthesizes(declaration, artifact),
    ensures
        all_accepted(declaration.named_fields()),
        artifact == synthesized(declaration.name@, declaration.named_fields()),
        artifact.well_formed(),
        artifact.one_setter_per_slot(),
        artifact.builder_layout.len() == declaration.named_fields().len(),
        artifact.setters.len() == declaration.named_fields().len(),
        artifact.finalize.len() == declaration.named_fields().len(),
{
    lemma_synthesized_well_formed(declaration.name@, declaration.named_fields());
}

/// A record with only plain fields: finalize succeeds exactly when every
/// setter has been called at least once; else it fails at the first field
/// whose setter has not been called, whatever was called after it, and names
/// that field. A successful finalize leaves the builder fresh, so the same
/// holds of the calls made since the last successful finalize.
pub proof fn law_plain_fields_all_required<V>(
    declaration: &Declaration,
    artifact: ArtifactModel,
    calls: Seq<Call<V>>,
)
    requires
        synthesizes(declaration, artifact),
        forall|i: int|
            0 <= i < declaration.named_fields().len() ==> type_shape(
                &(#[trigger] declaration.named_fields()[i]).declared_type,
            ) is Plain,
        calls_valid(artifact, calls),
    ensures
        ({
            let fields = declaration.named_fields();
            let state = after_calls(artifact, fresh(artifact), calls);
            &&& complete(artifact, state) <==> all_called(calls, fields.len() as int)
            &&& forall|i: int| #[trigger]
                is_first_missing(artifact, state, i) <==> i < fields.len() && is_first_uncalled(
                    calls,
                    i,
                )
            &&& forall|i: int|
                0 <= i < fields.len() ==> (#[trigger] artifact.finalize[i]).field
                    == fields[i].name@
            &&& complete(artifact, state) ==> after_finalize(artifact, state) == fresh::<V>(
                artifact,
            )
        }),
{
    let fields = declaration.named_fields();
    let state = after_calls(artifact, fresh(artifact), calls);
    law_one_of_each_per_field(declaration, artifact);
    lemma_slots_after_calls(artifact, calls);
    assert forall|i: int| 0 <= i < fields.len() implies (#[trigger] is_missing(artifact, state, i)
        <==> !called(calls, i)) by {
        lemma_called_values(calls, i);
        assert(type_shape(&fields[i].declared_type) is Plain);
        assert(!rejects(fields, i));
    }
    assert(after_finalize(artifact, state) =~= fresh::<V>(artifact)) by {
        assert forall|i: int| 0 <= i < fields.len() implies #[trigger] after_finalize(
            artifact,
            state,
        )[i] == fresh::<V>(artifact)[i] by {
            assert(is_missing(artifact, state, i) <==> !called(calls, i));
        }
    }
    assert forall|i: int| #[trigger]
        is_first_missing(artifact, state, i) <==> i < fields.len() && is_first_uncalled(
            calls,
            i,
        ) by {
        if 0 <= i < fields.len() {
            assert(is_missing(artifact, state, i) <==> !called(calls, i));
            if is_first_missing(artifact, state, i) {
                assert forall|earlier: int| 0 <= earlier < i implies #[trigger] called(
                    calls,
                    earlier,
                ) by {
                    assert(!is_missing(artifact, state, earlier));
                }
            }
            if is_first_uncalled(calls, i) {
                assert forall|earlier: int| 0 <= earlier < i implies !#[trigger] is_missing(
                    artifact,
                    state,
                    earlier,
                ) by {
                    assert(called(calls, earlier));
                }
            }
        }
    }
    if complete(artifact, state) {
        assert forall|i: int| 0 <= i < fields.len() implies #[trigger] called(calls, i) by {
            assert(!is_missing(artifact, state, i));
        }
    }
    if all_called(calls, fields.len() as int) {
        assert forall|i: int| 0 <= i < state.len() implies !#[trigger] is_missing(
            artifact,
            state,
            i,
        ) by {
            assert(called(calls, i));
        }
    }
}

/// A list field without a recognized directive is a required field like any
/// plain one: its slot, its setter and its extraction are those of a required
/// field of the list type, which takes the whole list at once. Finalize does
/// not succeed before its setter is called, and then yields the last list
/// that the setter was handed.
pub proof fn law_list_without_each_is_required<V>(
    declaration: &Declaration,
    artifact: ArtifactModel,
    field: int,
    calls: Seq<Call<V>>,
)
    requires
        synthesizes(declaration, artifact),
        0 <= field < declaration.named_fields().len(),
        wrapper_kind(&declaration.named_fields()[field].declared_type) == Some(WrapperKind::List),
        !has_recognized(declaration.named_fields()[field].directives@),
        calls_valid(artifact, calls),
    ensures
        ({
            let described = declaration.named_fields()[field];
            let required = StrategyModel::RequiredSlot { ty: described.declared_type };
            &&& strategy_of(&described, field as usize) == Ok::<StrategyModel, GenerationError>(
                required,
            )
            &&& artifact.builder_layout[field] == slot_for(described.name@, required)
            &&& artifact.setters[field] == setter_for(described.name@, field, required)
            &&& artifact.finalize[field] == extraction_for(described.name@, required)
        }),
        ({
            let state = after_calls(artifact, fresh(artifact), calls);
            &&& is_missing(artifact, state, field) <==> !called(calls, field)
            &&& complete(artifact, state) ==> called(calls, field)
            &&& called(calls, field) ==> record_of(artifact, state)[field]
                == FieldModel::Required(values_of(calls, field).last())
        }),
{
    let state = after_calls(artifact, fresh(artifact), calls);
    law_one_of_each_per_field(declaration, artifact);
    lemma_slots_after_calls(artifact, calls);
    lemma_called_values(calls, field);
    assert(!rejects(declaration.named_fields(), field));
    assert(state[field] == slot_holding(
        artifact.builder_layout[field],
        values_of(calls, field),
    ));
    if complete(artifact, state) {
        assert(!is_missing(artifact, state, field));
    }
}

/// A list field with a well-formed `each` directive accumulates: its setter
/// has the name that the directive gives and appends one element per call.
/// The slot holds exactly the values handed to the setter, in call order,
/// whatever other setters were called in between; finalize never finds the
/// field missing, not even when its setter was never called, and yields that
/// sequence. Where the calls all go to this setter, it is the sequence of
/// their values.
pub proof fn law_each_accumulates_in_order<V>(
    declaration: &Declaration,
    artifact: ArtifactModel,
    field: int,
    each: Seq<char>,
    calls: Seq<Call<V>>,
)
    requires
        synthesizes(declaration, artifact),
        0 <= field < declaration.named_fields().len(),
        wrapper_kind(&declaration.named_fields()[field].declared_type) == Some(WrapperKind::List),
        each_directive(declaration.named_fields()[field].directives@, field as usize) == Ok::<
            Option<Seq<char>>,
            GenerationError,
        >(Some(each)),
        calls_valid(artifact, calls),
    ensures
        artifact.setters[field].name == each,
        artifact.setters[field].action == SetterAction::Append,
        ({
            let state = after_calls(artifact, fresh(artifact), calls);
            &&& state[field] == SlotState::Sequence(values_of(calls, field))
            &&& !is_missing(artifact, state, field)
            &&& record_of(artifact, state)[field] == FieldModel::Accumulated(
                values_of(calls, field),
            )
            &&& !called(calls, field) ==> record_of(artifact, state)[field]
                == FieldModel::Accumulated(Seq::<V>::empty())
            &&& (forall|k: int| 0 <= k < calls.len() ==> (#[trigger] calls[k]).setter == field)
                ==> record_of(artifact, state)[field] == FieldModel::Accumulated(
                Seq::new(calls.len(), |k: int| calls[k].value),
            )
        }),
{
    law_one_of_each_per_field(declaration, artifact);
    lemma_slots_after_calls(artifact, calls);
    lemma_called_values(calls, field);
    let state = after_calls(artifact, fresh(artifact), calls);
    assert(!rejects(declaration.named_fields(), field));
    assert(state[field] == slot_holding(
        artifact.builder_layout[field],
        values_of(calls, field),
    ));
    if !called(calls, field) {
        assert(values_of(calls, field) =~= Seq::<V>::empty());
    }
    if forall|k: int| 0 <= k < calls.len() ==> (#[trigger] calls[k]).setter == field {
        lemma_values_of_own_calls(calls, field);
    }
}

/// An optional field never makes finalize fail. Finalize yields it absent
/// where its setter was never called, and else present with the value of the
/// last call; its directives are not looked at.
pub proof fn law_optional_never_missing<V>(
    declaration: &Declaration,
    artifact: ArtifactModel,
    field: int,
    calls: Seq<Call<V>>,
)
    requires
        synthesizes(declaration, artifact),
        0 <= field < declaration.named_fields().len(),
        wrapper_kind(&declaration.named_fields()[field].declared_type) == Some(WrapperKind::Optional),
        calls_valid(artifact, calls),
    ensures
        artifact.finalize[field].rule == ExtractionRule::Optional,
        ({
            let state = after_calls(artifact, fresh(artifact), calls);
            &&& !is_missing(artifact, state, field)
            &&& !called(calls, field) ==> record_of(artifact, state)[field]
                == FieldModel::<V>::Optional(None)
            &&& called(calls, field) ==> record_of(artifact, state)[field] == FieldModel::Optional(
                Some(values_of(calls, field).last()),
            )
        }),
{
    law_one_of_each_per_field(declaration, artifact);
    lemma_slots_after_calls(artifact, calls);
    lemma_called_values(calls, field);
    let state = after_calls(artifact, fresh(artifact), calls);
    assert(!rejects(declaration.named_fields(), field));
    assert(state[field] == slot_holding(
        artifact.builder_layout[field],
        values_of(calls, field),
    ));
}

/// Finalize succeeds exactly when every required field holds a value, and
/// the fields that are optional or accumulated have no say in it.
pub proof fn law_only_required_fields_can_be_missing<V>(
    artifact: ArtifactModel,
    state: Seq<SlotState<V>>,
)
    ensures
        complete(artifact, state) <==> forall|i: int|
            0 <= i < state.len() && (#[trigger] artifact.finalize[i]).rule
                == ExtractionRule::Required ==> state[i] != SlotState::<V>::Single(None),
{
    if complete(artifact, state) {
        assert forall|i: int|
            0 <= i < state.len() && (#[trigger] artifact.finalize[i]).rule
                == ExtractionRule::Required implies state[i] != SlotState::<V>::Single(None) by {
            assert(!is_missing(artifact, state, i));
        }
    }
}

/// A list field whose first directive under the recognized key is malformed
/// stops synthesis: the declaration gets no artifact, so the field is never
/// taken for a plain required list. Where no earlier field stops synthesis,
/// the error is the malformed directive, by field and by directive.
pub proof fn law_malformed_directive_rejects(declaration: &Declaration, field: int)
    requires
        0 <= field < declaration.named_fields().len(),
        wrapper_kind(&declaration.named_fields()[field].declared_type) == Some(WrapperKind::List),
        has_recognized(declaration.named_fields()[field].directives@),
        declaration.named_fields()[field].directives@[first_recognized(
            declaration.named_fields()[field].directives@,
        )].each_value() is None,
    ensures
        generated(declaration) is Err,
        (forall|earlier: int| 0 <= earlier < field ==> !#[trigger] rejects(
            declaration.named_fields(),
            earlier,
        )) ==> generated(declaration) == Err::<ArtifactModel, GenerationError>(
            GenerationError::MalformedDirective {
                field: field as usize,
                directive: first_recognized(
                    declaration.named_fields()[field].directives@,
                ) as usize,
            },
        ),
{
    let fields = declaration.named_fields();
    assert(rejects(fields, field));
    if forall|earlier: int| 0 <= earlier < field ==> !#[trigger] rejects(fields, earlier) {
        lemma_first_rejected(fields, field);
    }
}

/// A field of an unsupported type stops synthesis for the whole record: the
/// declaration gets no artifact at all. Where no earlier field stops
/// synthesis, the error points at that field.
pub proof fn law_unsupported_type_rejects(declaration: &Declaration, field: int)
    requires
        0 <= field < declaration.named_fields().len(),
        type_shape(&declaration.named_fields()[field].declared_type) is Unsupported,
    ensures
        generated(declaration) is Err,
        (forall|earlier: int| 0 <= earlier < field ==> !#[trigger] rejects(
            declaration.named_fields(),
            earlier,
        )) ==> generated(declaration) == Err::<ArtifactModel, GenerationError>(
            GenerationError::UnsupportedFieldType { field: field as usize },
        ),
{
    let fields = declaration.named_fields();
    assert(rejects(fields, field));
    if forall|earlier: int| 0 <= earlier < field ==> !#[trigger] rejects(fields, earlier) {
        lemma_first_rejected(fields, field);
    }
}

/// The strategy of a field depends on the field alone: two fields with the
/// same type and the same directives get the same strategy wherever they
/// stand, and an error differs only in the index that it points at.
pub proof fn law_strategy_is_per_field(
    first: &FieldDescriptor,
    second: &FieldDescriptor,
    i: usize,
    j: usize,
)
    requires
        first.declared_type == second.declared_type,
        first.directives@ == second.directives@,
    ensures
        strategy_of(first, i) is Ok <==> strategy_of(second, j) is Ok,
        strategy_of(first, i) is Ok ==> strategy_of(first, i) == strategy_of(second, j),
{
}

} // verus!
