//! Attribute keys, their scopes, and the static classification between them.

use vstd::prelude::*;

verus! {

/// Closed enumeration of the recognized attribute names.
///
/// Every key carries exactly one wire-format name ([`wire_name`]) and is
/// classified into exactly one [`AttributeScope`] ([`scope_of`]); both
/// mappings are fixed at definition time.
#[derive(Clone, Copy, Debug, PartialEq, Eq, Structural, Hash)]
pub enum AttributeKey {
    Bold,
    Italic,
    Underline,
    StrikeThrough,
    Font,
    Size,
    Link,
    Color,
    Background,
    Indent,
    Align,
    CodeBlock,
    InlineCode,
    List,
    BlockQuote,
    Width,
    Height,
    Header,
}

/// Classification of an attribute's applicability, used by the surrounding
/// transform/merge logic to decide combination rules.
#[derive(Clone, Copy, Debug, PartialEq, Eq, Structural)]
pub enum AttributeScope {
    /// Character-run formatting.
    Inline,
    /// Line/paragraph formatting.
    Block,
    /// Embedded-object metadata; reserved, no key currently maps here.
    Embeds,
    /// Rendering hint with no semantic/transform effect.
    Ignore,
}

/// The block-level keys: line/paragraph formatting.
pub open spec fn is_block_key(k: AttributeKey) -> bool {
    k == AttributeKey::Header || k == AttributeKey::Indent || k == AttributeKey::Align
        || k == AttributeKey::CodeBlock || k == AttributeKey::List || k == AttributeKey::BlockQuote
}

/// The inline keys: character-run formatting.
pub open spec fn is_inline_key(k: AttributeKey) -> bool {
    k == AttributeKey::Bold || k == AttributeKey::Italic || k == AttributeKey::Underline
        || k == AttributeKey::StrikeThrough || k == AttributeKey::Link || k == AttributeKey::Color
        || k == AttributeKey::Font || k == AttributeKey::Size || k == AttributeKey::Background
        || k == AttributeKey::InlineCode
}

/// The keys whose attributes are rendering hints only.
pub open spec fn is_ignore_key(k: AttributeKey) -> bool {
    k == AttributeKey::Width || k == AttributeKey::Height
}

/// The scope that the classification table assigns to each key.
pub open spec fn spec_scope_of(k: AttributeKey) -> AttributeScope {
    if is_block_key(k) {
        AttributeScope::Block
    } else if is_ignore_key(k) {
        AttributeScope::Ignore
    } else {
        AttributeScope::Inline
    }
}

/// Resolves the scope of a key through the static classification table.
pub fn scope_of(k: &AttributeKey) -> (s: AttributeScope)
    ensures
        s == spec_scope_of(*k),
{
    match k {
        AttributeKey::Header
        | AttributeKey::Indent
        | AttributeKey::Align
        | AttributeKey::CodeBlock
        | AttributeKey::List
        | AttributeKey::BlockQuote => AttributeScope::Block,
        AttributeKey::Width | AttributeKey::Height => AttributeScope::Ignore,
        AttributeKey::Bold
        | AttributeKey::Italic
        | AttributeKey::Underline
        | AttributeKey::StrikeThrough
        | AttributeKey::Link
        | AttributeKey::Color
        | AttributeKey::Font
        | AttributeKey::Size
        | AttributeKey::Background
        | AttributeKey::InlineCode => AttributeScope::Inline,
    }
}

/// The fixed wire-format name of each key.
pub open spec fn spec_wire_name(k: AttributeKey) -> Seq<char> {
    match k {
        AttributeKey::Bold => "bold"@,
        AttributeKey::Italic => "italic"@,
        AttributeKey::Underline => "underline"@,
        AttributeKey::StrikeThrough => "strike"@,
        AttributeKey::Font => "font"@,
        AttributeKey::Size => "size"@,
        AttributeKey::Link => "link"@,
        AttributeKey::Color => "color"@,
        AttributeKey::Background => "background"@,
        AttributeKey::Indent => "indent"@,
        AttributeKey::Align => "align"@,
        AttributeKey::CodeBlock => "code_block"@,
        AttributeKey::InlineCode => "code"@,
        AttributeKey::List => "list"@,
        AttributeKey::BlockQuote => "blockquote"@,
        AttributeKey::Width => "width"@,
        AttributeKey::Height => "height"@,
        AttributeKey::Header => "header"@,
    }
}

/// The wire-format name under which a key travels; consumers recompute the
/// scope from this name, so it is never serialized alongside it.
pub fn wire_name(k: &AttributeKey) -> (r: &'static str)
    ensures
        r@ == spec_wire_name(*k),
{
    match k {
        AttributeKey::Bold => "bold",
        AttributeKey::Italic => "italic",
        AttributeKey::Underline => "underline",
        AttributeKey::StrikeThrough => "strike",
        AttributeKey::Font => "font",
        AttributeKey::Size => "size",
        AttributeKey::Link => "link",
        AttributeKey::Color => "color",
        AttributeKey::Background => "background",
        AttributeKey::Indent => "indent",
        AttributeKey::Align => "align",
        AttributeKey::CodeBlock => "code_block",
        AttributeKey::InlineCode => "code",
        AttributeKey::List => "list",
        AttributeKey::BlockQuote => "blockquote",
        AttributeKey::Width => "width",
        AttributeKey::Height => "height",
        AttributeKey::Header => "header",
    }
}

/// The key-to-wire-name mapping has no duplicates: no two distinct keys
/// share a wire name, so consumers can recompute the key, and with it the
/// scope, from the name alone.
#[verifier::rlimit(30)]
pub proof fn lemma_wire_names_distinct()
    ensures
        forall|k1: AttributeKey, k2: AttributeKey|
            spec_wire_name(k1) == spec_wire_name(k2) ==> k1 == k2,
{
    reveal_strlit("bold");
    reveal_strlit("italic");
    reveal_strlit("underline");
    reveal_strlit("strike");
    reveal_strlit("font");
    reveal_strlit("size");
    reveal_strlit("link");
    reveal_strlit("color");
    reveal_strlit("background");
    reveal_strlit("indent");
    reveal_strlit("align");
    reveal_strlit("code_block");
    reveal_strlit("code");
    reveal_strlit("list");
    reveal_strlit("blockquote");
    reveal_strlit("width");
    reveal_strlit("height");
    reveal_strlit("header");
    assert forall|k1: AttributeKey, k2: AttributeKey|
        spec_wire_name(k1) == spec_wire_name(k2) implies k1 == k2 by {
        let s1 = spec_wire_name(k1);
        let s2 = spec_wire_name(k2);
        assert(s1.len() == s2.len());
        assert(s1[0] == s2[0]);
        assert(s1[1] == s2[1]);
        assert(s1[2] == s2[2]);
    }
}

/// Holds exactly for the block-level keys other than `Header`.
pub open spec fn spec_is_block_except_header(k: AttributeKey) -> bool {
    is_block_key(k) && k != AttributeKey::Header
}

/// True iff `k` is block-scoped and is not `Header`.
///
/// `Header` is the one block-level attribute that the surrounding transform
/// logic toggles/merges independently of the generic block-attribute-clearing
/// rule; this predicate is the seam it uses to special-case it.
pub fn is_block_except_header(k: &AttributeKey) -> (r: bool)
    ensures
        r == spec_is_block_except_header(*k),
{
    if *k == AttributeKey::Header {
        return false;
    }
    match k {
        AttributeKey::Indent
        | AttributeKey::Align
        | AttributeKey::CodeBlock
        | AttributeKey::List
        | AttributeKey::BlockQuote => true,
        _ => false,
    }
}

/// The classification is a total partition of the keys: every key falls in
/// exactly one of the Block, Inline and Ignore sets, `scope_of` agrees with
/// the set membership, and no key is classified `Embeds` (a reserved
/// extension point). Since the classification is a pure function of the key,
/// every reader observes this same complete table.
pub proof fn lemma_scope_partition()
    ensures
        forall|k: AttributeKey| is_block_key(k) || is_inline_key(k) || is_ignore_key(k),
        forall|k: AttributeKey| !(is_block_key(k) && is_inline_key(k)),
        forall|k: AttributeKey| !(is_block_key(k) && is_ignore_key(k)),
        forall|k: AttributeKey| !(is_inline_key(k) && is_ignore_key(k)),
        forall|k: AttributeKey|
            (#[trigger] spec_scope_of(k)) == AttributeScope::Block <==> is_block_key(k),
        forall|k: AttributeKey| spec_scope_of(k) == AttributeScope::Inline <==> is_inline_key(k),
        forall|k: AttributeKey| spec_scope_of(k) == AttributeScope::Ignore <==> is_ignore_key(k),
        forall|k: AttributeKey| spec_scope_of(k) != AttributeScope::Embeds,
{
}

} // verus!
