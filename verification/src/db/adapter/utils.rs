//! `with_apply_default`: whether a field's default (on create) or its update generator (on
//! update) replaces a missing value. A fixed default is applied here; generators are application
//! code: where one is to be called, the decision says so and the application calls it.

use vstd::prelude::*;
use crate::db::types::{same_value, DbFieldAttribute, DbValue, DefaultValue};

verus! {

/// The adapter action a value is prepared for (only `Create` and `Update` change it).
#[derive(Debug, Clone, Copy, PartialEq, Eq, Structural)]
pub enum ApplyAction {
    /// Inserting a new record.
    Create,
    /// Updating an existing record.
    Update,
    /// Reading a single record.
    FindOne,
    /// Reading many records.
    FindMany,
}

/// What becomes of a value.
#[derive(Debug, Clone, PartialEq)]
pub enum DefaultOutcome {
    /// The resulting value (`None` is a missing value): the value as it was, or the field's
    /// fixed default.
    Value(Option<DbValue>),
    /// What the field's default generator produces replaces it.
    GenerateDefault,
    /// What the field's update generator produces replaces it.
    ApplyOnUpdate,
}

/// Whether `r` is what becomes of `value`. On update, a missing value is generated by the field's
/// update generator when it has one. On create, a missing value, or a null one on a field whose
/// `required` is literally `true`, is replaced by the field's default when it has one: a copy of
/// its fixed value, or what its generator produces. Otherwise, and on reads, the value stays.
pub open spec fn default_outcome(
    value: Option<DbValue>,
    required: Option<bool>,
    default: Option<DefaultValue>,
    has_on_update: bool,
    action: ApplyAction,
    r: DefaultOutcome,
) -> bool {
    match action {
        ApplyAction::Update => r == if value is None && has_on_update {
            DefaultOutcome::ApplyOnUpdate
        } else {
            DefaultOutcome::Value(value)
        },
        ApplyAction::Create => if (value is None || (required == Some(true) && value == Some(DbValue::Null)))
            && default is Some {
            match default->Some_0 {
                DefaultValue::Static(v) => r matches DefaultOutcome::Value(Some(c)) && same_value(v, c),
                DefaultValue::Generator => r == DefaultOutcome::GenerateDefault,
            }
        } else {
            r == DefaultOutcome::Value(value)
        },
        _ => r == DefaultOutcome::Value(value),
    }
}

/// Decide what becomes of a field's incoming value for an action.
pub fn with_apply_default(value: Option<DbValue>, field: &DbFieldAttribute, action: ApplyAction) -> (r: DefaultOutcome)
    ensures
        default_outcome(
            value,
            field.config.required,
            field.config.default_value,
            field.config.on_update,
            action,
            r,
        ),
{
    match action {
        ApplyAction::Update => {
            if value.is_none() && field.config.on_update {
                DefaultOutcome::ApplyOnUpdate
            } else {
                DefaultOutcome::Value(value)
            }
        },
        ApplyAction::Create => {
            let required_strict = match field.config.required {
                Some(true) => true,
                _ => false,
            };
            let is_undefined = value.is_none();
            let is_null = match &value {
                Some(DbValue::Null) => true,
                _ => false,
            };
            if is_undefined || (required_strict && is_null) {
                match &field.config.default_value {
                    Some(DefaultValue::Static(v)) => DefaultOutcome::Value(Some(v.clone())),
                    Some(DefaultValue::Generator) => DefaultOutcome::GenerateDefault,
                    None => DefaultOutcome::Value(value),
                }
            } else {
                DefaultOutcome::Value(value)
            }
        },
        ApplyAction::FindOne | ApplyAction::FindMany => DefaultOutcome::Value(value),
    }
}

/// A value that is present is never replaced, whatever the action.
pub proof fn lemma_present_value_kept(
    v: DbValue,
    required: Option<bool>,
    default: Option<DefaultValue>,
    has_on_update: bool,
    action: ApplyAction,
    r: DefaultOutcome,
)
    requires
        !(v is Null),
        default_outcome(Some(v), required, default, has_on_update, action, r),
    ensures
        r == DefaultOutcome::Value(Some(v)),
{
}

/// Reads never change a value.
pub proof fn lemma_reads_keep(
    value: Option<DbValue>,
    required: Option<bool>,
    default: Option<DefaultValue>,
    has_on_update: bool,
    action: ApplyAction,
    r: DefaultOutcome,
)
    requires
        action == ApplyAction::FindOne || action == ApplyAction::FindMany,
        default_outcome(value, required, default, has_on_update, action, r),
    ensures
        r == DefaultOutcome::Value(value),
{
}

} // verus!
