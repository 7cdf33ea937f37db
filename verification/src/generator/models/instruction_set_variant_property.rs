//! The properties of a variant.
use vstd::prelude::*;

use crate::generator::text::equals;

verus! {

/// The properties that a variant can have beyond its operands: the prefixes
/// that it asks for.
#[derive(Debug, Clone, Copy, PartialEq, Eq, Structural, Hash)]
pub struct VariantProperty {
    /// The variant takes a REX prefix.
    pub prefix_rex: bool,
    /// The variant takes a REX prefix with W set.
    pub prefix_rex_w: bool,
    /// The variant takes the operand-size override prefix.
    pub prefix_oso: bool,
}

/// A text names no property of a variant.
#[derive(Debug, Clone, Copy, PartialEq, Eq, Structural, Hash)]
pub struct InvalidVariantFlagError;

impl VariantProperty {
    /// The properties that `name` stands for: none for `None` and for the
    /// empty text, one for each of the names of a property.
    pub open spec fn parse(name: Seq<char>) -> Option<VariantProperty> {
        if name == "None"@ || name == ""@ {
            Some(VariantProperty { prefix_rex: false, prefix_rex_w: false, prefix_oso: false })
        } else if name == "PrefixRex"@ {
            Some(VariantProperty { prefix_rex: true, prefix_rex_w: false, prefix_oso: false })
        } else if name == "PrefixRexW"@ {
            Some(VariantProperty { prefix_rex: false, prefix_rex_w: true, prefix_oso: false })
        } else if name == "PrefixOSO"@ {
            Some(VariantProperty { prefix_rex: false, prefix_rex_w: false, prefix_oso: true })
        } else {
            None
        }
    }

    /// Whether every property of `other` is one of these.
    pub open spec fn spec_contains(&self, other: VariantProperty) -> bool {
        &&& other.prefix_rex ==> self.prefix_rex
        &&& other.prefix_rex_w ==> self.prefix_rex_w
        &&& other.prefix_oso ==> self.prefix_oso
    }

    /// The properties of either.
    pub open spec fn spec_union(self, other: VariantProperty) -> VariantProperty {
        VariantProperty {
            prefix_rex: self.prefix_rex || other.prefix_rex,
            prefix_rex_w: self.prefix_rex_w || other.prefix_rex_w,
            prefix_oso: self.prefix_oso || other.prefix_oso,
        }
    }

    /// No property.
    pub fn Empty() -> (flags: Self)
        ensures
            flags == (VariantProperty { prefix_rex: false, prefix_rex_w: false, prefix_oso: false }),
    {
        VariantProperty { prefix_rex: false, prefix_rex_w: false, prefix_oso: false }
    }

    /// The REX prefix.
    pub fn PrefixRex() -> (flags: Self)
        ensures
            flags == (VariantProperty { prefix_rex: true, prefix_rex_w: false, prefix_oso: false }),
    {
        VariantProperty { prefix_rex: true, prefix_rex_w: false, prefix_oso: false }
    }

    /// The REX prefix with W set.
    pub fn PrefixRexW() -> (flags: Self)
        ensures
            flags == (VariantProperty { prefix_rex: false, prefix_rex_w: true, prefix_oso: false }),
    {
        VariantProperty { prefix_rex: false, prefix_rex_w: true, prefix_oso: false }
    }

    /// The operand-size override prefix.
    pub fn PrefixOSO() -> (flags: Self)
        ensures
            flags == (VariantProperty { prefix_rex: false, prefix_rex_w: false, prefix_oso: true }),
    {
        VariantProperty { prefix_rex: false, prefix_rex_w: false, prefix_oso: true }
    }

    /// Whether every property of `other` is one of these.
    #[verifier::when_used_as_spec(spec_contains)]
    pub fn contains(&self, other: VariantProperty) -> (all: bool)
        ensures
            all == self.spec_contains(other),
    {
        (!other.prefix_rex || self.prefix_rex) && (!other.prefix_rex_w || self.prefix_rex_w) && (
        !other.prefix_oso || self.prefix_oso)
    }

    /// The properties of either.
    #[verifier::when_used_as_spec(spec_union)]
    pub fn union(self, other: VariantProperty) -> (both: Self)
        ensures
            both == self.spec_union(other),
    {
        VariantProperty {
            prefix_rex: self.prefix_rex || other.prefix_rex,
            prefix_rex_w: self.prefix_rex_w || other.prefix_rex_w,
            prefix_oso: self.prefix_oso || other.prefix_oso,
        }
    }

    /// The properties that `value` names.
    pub fn try_from(value: &str) -> (result: Result<Self, InvalidVariantFlagError>)
        ensures
            result is Ok <==> VariantProperty::parse(value@) is Some,
            result matches Ok(flags) ==> VariantProperty::parse(value@) == Some(flags),
    {
        if equals(value, "None") || equals(value, "") {
            Ok(VariantProperty::Empty())
        } else if equals(value, "PrefixRex") {
            Ok(VariantProperty::PrefixRex())
        } else if equals(value, "PrefixRexW") {
            Ok(VariantProperty::PrefixRexW())
        } else if equals(value, "PrefixOSO") {
            Ok(VariantProperty::PrefixOSO())
        } else {
            Err(InvalidVariantFlagError)
        }
    }
}

impl Default for VariantProperty {
    fn default() -> (flags: Self)
        ensures
            flags == (VariantProperty { prefix_rex: false, prefix_rex_w: false, prefix_oso: false }),
    {
        VariantProperty::Empty()
    }
}

} // verus!
