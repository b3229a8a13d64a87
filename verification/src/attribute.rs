//! The attribute triple and its per-key typed factories.

use vstd::prelude::*;
use vstd::std_specs::cmp::PartialEqSpec;

use crate::key::spec_scope_of;
use crate::key::AttributeKey;
use crate::key::AttributeScope;
use crate::value::spec_normalize_bool;
use crate::value::spec_normalize_string;
use crate::value::spec_normalize_uint;
use crate::value::AttributeValue;

verus! {

/// An immutable (key, value, scope) triple: one formatting directive.
///
/// Built only through the per-key typed factories below, which normalize the
/// raw value and resolve the scope from the static classification table, so a
/// key can never be paired with the wrong scope or an un-normalized value.
/// Every factory is total: the value's type is constrained by the factory's
/// signature, not validated at runtime.
#[derive(Debug, Clone, Eq)]
pub struct Attribute {
    pub key: AttributeKey,
    pub value: AttributeValue,
    pub scope: AttributeScope,
}

impl PartialEq for Attribute {
    /// Structural equality: two attributes built from equal (key,
    /// normalized-value) pairs compare equal regardless of which raw inputs
    /// produced them.
    fn eq(&self, other: &Attribute) -> bool {
        self.key == other.key && self.value == other.value && self.scope == other.scope
    }
}

impl vstd::std_specs::cmp::PartialEqSpecImpl for Attribute {
    open spec fn obeys_eq_spec() -> bool {
        true
    }

    open spec fn eq_spec(&self, other: &Attribute) -> bool {
        self.key == other.key && self.value@ == other.value@ && self.scope == other.scope
    }
}

/// What every factory guarantees: the requested key, the normalized form of
/// the raw input as the value, and the key's scope from the classification
/// table.
pub open spec fn spec_built(a: Attribute, key: AttributeKey, v: Option<Seq<char>>) -> bool {
    a.key == key && a.value@ == v && a.scope == spec_scope_of(key)
}

impl Attribute {
    #[allow(non_snake_case)]
    pub fn Bold(value: bool) -> (a: Attribute)
        ensures
            spec_built(a, AttributeKey::Bold, spec_normalize_bool(value)),
    {
        Attribute {
            key: AttributeKey::Bold,
            value: AttributeValue::normalize_bool(value),
            scope: AttributeScope::Inline,
        }
    }

    #[allow(non_snake_case)]
    pub fn Italic(value: bool) -> (a: Attribute)
        ensures
            spec_built(a, AttributeKey::Italic, spec_normalize_bool(value)),
    {
        Attribute {
            key: AttributeKey::Italic,
            value: AttributeValue::normalize_bool(value),
            scope: AttributeScope::Inline,
        }
    }

    #[allow(non_snake_case)]
    pub fn Underline(value: bool) -> (a: Attribute)
        ensures
            spec_built(a, AttributeKey::Underline, spec_normalize_bool(value)),
    {
        Attribute {
            key: AttributeKey::Underline,
            value: AttributeValue::normalize_bool(value),
            scope: AttributeScope::Inline,
        }
    }

    #[allow(non_snake_case)]
    pub fn StrikeThrough(value: bool) -> (a: Attribute)
        ensures
            spec_built(a, AttributeKey::StrikeThrough, spec_normalize_bool(value)),
    {
        Attribute {
            key: AttributeKey::StrikeThrough,
            value: AttributeValue::normalize_bool(value),
            scope: AttributeScope::Inline,
        }
    }

    #[allow(non_snake_case)]
    pub fn Link(value: &str) -> (a: Attribute)
        ensures
            spec_built(a, AttributeKey::Link, spec_normalize_string(value@)),
    {
        Attribute {
            key: AttributeKey::Link,
            value: AttributeValue::normalize_string(value),
            scope: AttributeScope::Inline,
        }
    }

    #[allow(non_snake_case)]
    pub fn Color(value: String) -> (a: Attribute)
        ensures
            spec_built(a, AttributeKey::Color, spec_normalize_string(value@)),
    {
        Attribute {
            key: AttributeKey::Color,
            value: AttributeValue::normalize_string(value.as_str()),
            scope: AttributeScope::Inline,
        }
    }

    #[allow(non_snake_case)]
    pub fn Font(value: usize) -> (a: Attribute)
        ensures
            spec_built(a, AttributeKey::Font, spec_normalize_uint(value as nat)),
    {
        Attribute {
            key: AttributeKey::Font,
            value: AttributeValue::normalize_uint(value),
            scope: AttributeScope::Inline,
        }
    }

    #[allow(non_snake_case)]
    pub fn Size(value: usize) -> (a: Attribute)
        ensures
            spec_built(a, AttributeKey::Size, spec_normalize_uint(value as nat)),
    {
        Attribute {
            key: AttributeKey::Size,
            value: AttributeValue::normalize_uint(value),
            scope: AttributeScope::Inline,
        }
    }

    #[allow(non_snake_case)]
    pub fn Background(value: String) -> (a: Attribute)
        ensures
            spec_built(a, AttributeKey::Background, spec_normalize_string(value@)),
    {
        Attribute {
            key: AttributeKey::Background,
            value: AttributeValue::normalize_string(value.as_str()),
            scope: AttributeScope::Inline,
        }
    }

    #[allow(non_snake_case)]
    pub fn InlineCode(value: bool) -> (a: Attribute)
        ensures
            spec_built(a, AttributeKey::InlineCode, spec_normalize_bool(value)),
    {
        Attribute {
            key: AttributeKey::InlineCode,
            value: AttributeValue::normalize_bool(value),
            scope: AttributeScope::Inline,
        }
    }

    #[allow(non_snake_case)]
    pub fn Header(value: usize) -> (a: Attribute)
        ensures
            spec_built(a, AttributeKey::Header, spec_normalize_uint(value as nat)),
    {
        Attribute {
            key: AttributeKey::Header,
            value: AttributeValue::normalize_uint(value),
            scope: AttributeScope::Block,
        }
    }

    #[allow(non_snake_case)]
    pub fn Indent(value: usize) -> (a: Attribute)
        ensures
            spec_built(a, AttributeKey::Indent, spec_normalize_uint(value as nat)),
    {
        Attribute {
            key: AttributeKey::Indent,
            value: AttributeValue::normalize_uint(value),
            scope: AttributeScope::Block,
        }
    }

    #[allow(non_snake_case)]
    pub fn Align(value: String) -> (a: Attribute)
        ensures
            spec_built(a, AttributeKey::Align, spec_normalize_string(value@)),
    {
        Attribute {
            key: AttributeKey::Align,
            value: AttributeValue::normalize_string(value.as_str()),
            scope: AttributeScope::Block,
        }
    }

    #[allow(non_snake_case)]
    pub fn List(value: &str) -> (a: Attribute)
        ensures
            spec_built(a, AttributeKey::List, spec_normalize_string(value@)),
    {
        Attribute {
            key: AttributeKey::List,
            value: AttributeValue::normalize_string(value),
            scope: AttributeScope::Block,
        }
    }

    #[allow(non_snake_case)]
    pub fn CodeBlock(value: bool) -> (a: Attribute)
        ensures
            spec_built(a, AttributeKey::CodeBlock, spec_normalize_bool(value)),
    {
        Attribute {
            key: AttributeKey::CodeBlock,
            value: AttributeValue::normalize_bool(value),
            scope: AttributeScope::Block,
        }
    }

    #[allow(non_snake_case)]
    pub fn BlockQuote(value: bool) -> (a: Attribute)
        ensures
            spec_built(a, AttributeKey::BlockQuote, spec_normalize_bool(value)),
    {
        Attribute {
            key: AttributeKey::BlockQuote,
            value: AttributeValue::normalize_bool(value),
            scope: AttributeScope::Block,
        }
    }

    #[allow(non_snake_case)]
    pub fn Width(value: usize) -> (a: Attribute)
        ensures
            spec_built(a, AttributeKey::Width, spec_normalize_uint(value as nat)),
    {
        Attribute {
            key: AttributeKey::Width,
            value: AttributeValue::normalize_uint(value),
            scope: AttributeScope::Ignore,
        }
    }

    #[allow(non_snake_case)]
    pub fn Height(value: usize) -> (a: Attribute)
        ensures
            spec_built(a, AttributeKey::Height, spec_normalize_uint(value as nat)),
    {
        Attribute {
            key: AttributeKey::Height,
            value: AttributeValue::normalize_uint(value),
            scope: AttributeScope::Ignore,
        }
    }

    /// The `bullet` variant of the closed List-payload enumeration.
    #[allow(non_snake_case)]
    pub fn Bullet() -> (a: Attribute)
        ensures
            spec_built(a, AttributeKey::List, Option::Some("bullet"@)),
    {
        proof {
            reveal_strlit("bullet");
        }
        Attribute::List("bullet")
    }

    /// The `ordered` variant of the closed List-payload enumeration.
    #[allow(non_snake_case)]
    pub fn Ordered() -> (a: Attribute)
        ensures
            spec_built(a, AttributeKey::List, Option::Some("ordered"@)),
    {
        proof {
            reveal_strlit("ordered");
        }
        Attribute::List("ordered")
    }

    /// The `checked` variant of the closed List-payload enumeration.
    #[allow(non_snake_case)]
    pub fn Checked() -> (a: Attribute)
        ensures
            spec_built(a, AttributeKey::List, Option::Some("checked"@)),
    {
        proof {
            reveal_strlit("checked");
        }
        Attribute::List("checked")
    }

    /// The `unchecked` variant of the closed List-payload enumeration.
    #[allow(non_snake_case)]
    pub fn UnChecked() -> (a: Attribute)
        ensures
            spec_built(a, AttributeKey::List, Option::Some("unchecked"@)),
    {
        proof {
            reveal_strlit("unchecked");
        }
        Attribute::List("unchecked")
    }
}

/// Attributes built from equal (key, normalized-value) pairs compare equal,
/// regardless of which raw inputs produced the values.
pub proof fn lemma_attribute_eq(a: Attribute, b: Attribute)
    requires
        a.key == b.key,
        a.value@ == b.value@,
        a.scope == b.scope,
    ensures
        a.eq_spec(&b),
{
}

} // verus!
