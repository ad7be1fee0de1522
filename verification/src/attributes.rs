//! Attribute types shared by the entities: time stamps, the tri-state
//! optional of update requests, and the addresses of each kind of record.

use vstd::prelude::*;
use crate::identity::IdentityAddress;

verus! {

pub type ProposalAddress = IdentityAddress;

pub type ProposedIntentAddress = IdentityAddress;

pub type ProposedToAddress = IdentityAddress;

pub type IntentAddress = IdentityAddress;

pub type EconomicResourceAddress = IdentityAddress;

pub type EconomicEventAddress = IdentityAddress;

pub type ProcessAddress = IdentityAddress;

pub type ProcessSpecificationAddress = IdentityAddress;

pub type ResourceSpecificationAddress = IdentityAddress;

pub type LocationAddress = IdentityAddress;

pub type ProductBatchAddress = IdentityAddress;

/// A point in time, in microseconds since the Unix epoch.
#[derive(Clone, Copy, Debug, PartialEq, Eq, Structural)]
pub struct Timestamp {
    pub micros: i64,
}

/// A field of a request that may be left out, be null, or hold a value. On
/// an update the three mean: leave the stored field as it is, clear it, set
/// it.
#[derive(Debug, PartialEq, Eq)]
pub enum MaybeUndefined<T> {
    /// The field was sent as null.
    Null,
    /// The field was sent with this value.
    Value(T),
    /// The field was not sent.
    Undefined,
}

impl<T> MaybeUndefined<T> {
    /// The stored field after this request field was applied to it.
    pub open spec fn applied_to(self, prior: Option<T>) -> Option<T> {
        match self {
            MaybeUndefined::Undefined => prior,
            MaybeUndefined::Null => None,
            MaybeUndefined::Value(value) => Some(value),
        }
    }

    /// The value that the request field holds, if it holds one.
    pub open spec fn as_option(self) -> Option<T> {
        match self {
            MaybeUndefined::Value(value) => Some(value),
            _ => None,
        }
    }

    /// Whether the field was not sent.
    pub fn is_undefined(&self) -> (undefined: bool)
        ensures
            undefined == (*self is Undefined),
    {
        match self {
            MaybeUndefined::Undefined => true,
            _ => false,
        }
    }

    /// Whether the field holds a value.
    pub fn is_some(&self) -> (some: bool)
        ensures
            some == (*self is Value),
    {
        match self {
            MaybeUndefined::Value(_) => true,
            _ => false,
        }
    }

    /// The value of the field, if it holds one. Null and left out both give
    /// nothing.
    pub fn to_option(self) -> (value: Option<T>)
        ensures
            value == self.as_option(),
    {
        match self {
            MaybeUndefined::Value(value) => Some(value),
            _ => None,
        }
    }
}

impl<T> Default for MaybeUndefined<T> {
    /// A field that was not sent.
    fn default() -> (field: Self)
        ensures
            field is Undefined,
    {
        MaybeUndefined::Undefined
    }
}

impl<T: DeepView> DeepView for MaybeUndefined<T> {
    type V = MaybeUndefined<T::V>;

    open spec fn deep_view(&self) -> MaybeUndefined<T::V> {
        match self {
            MaybeUndefined::Null => MaybeUndefined::Null,
            MaybeUndefined::Value(value) => MaybeUndefined::Value(value.deep_view()),
            MaybeUndefined::Undefined => MaybeUndefined::Undefined,
        }
    }
}

/// A copy of an optional text.
pub fn copy_text(text: &Option<String>) -> (copy: Option<String>)
    ensures
        copy == *text,
{
    match text {
        Some(t) => Some(t.clone()),
        None => None,
    }
}

/// A copy of a list of texts.
pub fn copy_text_list(list: &Vec<String>) -> (copy: Vec<String>)
    ensures
        copy@ == list@,
        copy.deep_view() == list.deep_view(),
{
    let mut copy: Vec<String> = Vec::new();
    let mut i: usize = 0;
    while i < list.len()
        invariant
            i <= list.len(),
            copy@ == list@.take(i as int),
        decreases list.len() - i,
    {
        copy.push(list[i].clone());
        assert(list@.take(i + 1) == list@.take(i as int).push(list@[i as int]));
        i = i + 1;
    }
    assert(list@.take(list@.len() as int) == list@);
    assert(copy.deep_view() =~= list.deep_view());
    copy
}

/// A copy of an optional list of texts.
pub fn copy_texts(texts: &Option<Vec<String>>) -> (copy: Option<Vec<String>>)
    ensures
        copy.deep_view() == texts.deep_view(),
{
    match texts {
        Some(list) => Some(copy_text_list(list)),
        None => None,
    }
}

/// A copy of a request field that holds a text.
pub fn copy_maybe_text(field: &MaybeUndefined<String>) -> (copy: MaybeUndefined<String>)
    ensures
        copy == *field,
{
    match field {
        MaybeUndefined::Null => MaybeUndefined::Null,
        MaybeUndefined::Value(text) => MaybeUndefined::Value(text.clone()),
        MaybeUndefined::Undefined => MaybeUndefined::Undefined,
    }
}

/// A copy of a request field that holds a list of texts.
pub fn copy_maybe_texts(field: &MaybeUndefined<Vec<String>>) -> (copy: MaybeUndefined<Vec<String>>)
    ensures
        copy.deep_view() == field.deep_view(),
{
    match field {
        MaybeUndefined::Null => MaybeUndefined::Null,
        MaybeUndefined::Value(list) => MaybeUndefined::Value(copy_text_list(list)),
        MaybeUndefined::Undefined => MaybeUndefined::Undefined,
    }
}

/// A copy of a request field that holds a plain value.
pub fn copy_maybe_value<T: Copy>(field: &MaybeUndefined<T>) -> (copy: MaybeUndefined<T>)
    ensures
        copy == *field,
{
    match field {
        MaybeUndefined::Null => MaybeUndefined::Null,
        MaybeUndefined::Value(value) => MaybeUndefined::Value(*value),
        MaybeUndefined::Undefined => MaybeUndefined::Undefined,
    }
}

/// The stored value after a request field was applied to it.
pub fn merge_value<T: Copy>(prior: &Option<T>, update: &MaybeUndefined<T>) -> (merged: Option<T>)
    ensures
        merged == update.applied_to(*prior),
{
    match update {
        MaybeUndefined::Undefined => *prior,
        MaybeUndefined::Null => None,
        MaybeUndefined::Value(value) => Some(*value),
    }
}

/// The stored text after a request field was applied to it.
pub fn merge_text(prior: &Option<String>, update: &MaybeUndefined<String>) -> (merged: Option<String>)
    ensures
        merged == update.applied_to(*prior),
{
    match update {
        MaybeUndefined::Undefined => copy_text(prior),
        MaybeUndefined::Null => None,
        MaybeUndefined::Value(value) => Some(value.clone()),
    }
}

/// The stored list of texts after a request field was applied to it.
pub fn merge_texts(prior: &Option<Vec<String>>, update: &MaybeUndefined<Vec<String>>) -> (merged: Option<
    Vec<String>,
>)
    ensures
        merged.deep_view() == update.deep_view().applied_to(prior.deep_view()),
{
    match update {
        MaybeUndefined::Undefined => copy_texts(prior),
        MaybeUndefined::Null => None,
        MaybeUndefined::Value(value) => Some(copy_text_list(value)),
    }
}

} // verus!
