//! What an emitted conversion does at run time, as a model: applying a
//! conversion to a payload value constructs a union value carrying the
//! conversion's tag, and matching that union value against the same tag
//! recovers the payload unchanged.

use vstd::prelude::*;

use crate::model::{ConversionDeclaration, ConversionView};

verus! {

/// A union value as an emitted conversion constructs it: a payload value
/// wrapped under the tag of the alternative that the conversion serves.
pub struct UnionValue<T> {
    pub tag: String,
    pub value: T,
}

/// The mathematical view of a `UnionValue`.
pub struct UnionValueView<T> {
    pub tag: Seq<char>,
    pub value: T,
}

impl<T> View for UnionValue<T> {
    type V = UnionValueView<T>;

    open spec fn view(&self) -> UnionValueView<T> {
        UnionValueView { tag: self.tag@, value: self.value }
    }
}

/// The union value a conversion constructs from a payload value.
pub open spec fn spec_apply<T>(c: ConversionView, value: T) -> UnionValueView<T> {
    UnionValueView { tag: c.tag, value }
}

/// Pattern-matching a union value against a tag: the payload where the tags
/// agree, nothing where they differ.
pub open spec fn spec_match_tag<T>(u: UnionValueView<T>, tag: Seq<char>) -> Option<T> {
    if u.tag == tag {
        Some(u.value)
    } else {
        None
    }
}

impl ConversionDeclaration {
    /// The construction rule of an emitted conversion: wrap the payload value,
    /// tagging it with this conversion's alternative.
    pub fn apply<T>(&self, value: T) -> (r: UnionValue<T>)
        ensures
            r@ == spec_apply(self.deep_view(), value),
    {
        UnionValue { tag: self.tag.clone(), value }
    }
}

impl<T> UnionValue<T> {
    /// Match this union value against a tag, recovering the payload exactly
    /// when the tag is the one it was wrapped with.
    pub fn match_tag(self, tag: &String) -> (r: Option<T>)
        ensures
            r == spec_match_tag(self@, tag@),
    {
        if self.tag == *tag {
            Some(self.value)
        } else {
            None
        }
    }
}

/// Construction correctness: converting a payload value through a conversion
/// and then matching the resulting union value against that conversion's own
/// tag recovers the original value unchanged.
pub proof fn lemma_wrap_round_trip<T>(c: ConversionView, value: T)
    ensures
        spec_match_tag(spec_apply(c, value), c.tag) == Some(value),
{
}

} // verus!
