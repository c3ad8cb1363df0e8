//! Block selectors and their resolution into endpoint identifiers.

use vstd::prelude::*;

verus! {

/// An abstract chain-position selector, independent of the identifier format
/// the endpoint expects.
#[derive(Clone, Copy, Debug, PartialEq, Eq, Structural)]
pub enum BlockTag {
    Latest,
    Finalized,
    Number(u64),
}

/// The concrete block identifier an endpoint call carries: the endpoint's
/// "latest" or "finalized" marker, or a specific block number.
///
/// A `BlockIdent` is only ever produced by [`resolve_block_tag`]; since it is
/// a distinct type from [`BlockTag`], a selector cannot be resolved twice.
#[derive(Clone, Copy, Debug, PartialEq, Eq, Structural)]
pub enum BlockIdent {
    Latest,
    Finalized,
    Number(u64),
}

/// What the resolver returns for each selector.
pub open spec fn spec_resolve(tag: BlockTag) -> BlockIdent {
    match tag {
        BlockTag::Latest => BlockIdent::Latest,
        BlockTag::Finalized => BlockIdent::Finalized,
        BlockTag::Number(n) => BlockIdent::Number(n),
    }
}

/// Maps a block selector to the identifier the endpoint expects. Pure; it
/// never fails.
pub fn resolve_block_tag(tag: BlockTag) -> (r: BlockIdent)
    ensures
        r == spec_resolve(tag),
{
    match tag {
        BlockTag::Latest => BlockIdent::Latest,
        BlockTag::Finalized => BlockIdent::Finalized,
        BlockTag::Number(n) => BlockIdent::Number(n),
    }
}

/// The resolver maps every selector to exactly the identifier of the same
/// chain position: `Latest` to the latest marker, `Finalized` to the
/// finalized marker, and `Number(n)` to the identifier of block `n`.
pub proof fn lemma_resolver_maps_each_variant(tag: BlockTag)
    ensures
        tag is Latest ==> spec_resolve(tag) == BlockIdent::Latest,
        tag is Finalized ==> spec_resolve(tag) == BlockIdent::Finalized,
        forall|n: u64| tag == BlockTag::Number(n) ==> spec_resolve(tag) == BlockIdent::Number(n),
{
}

} // verus!
