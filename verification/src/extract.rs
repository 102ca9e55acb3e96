//! The contract extractor: locate the type-implementation block of the
//! source unit and turn it into the definition the validator and emitter
//! consume.
//!
//! When a unit holds several implementation blocks, the last one wins; the
//! ones before it are ignored entirely.  A unit with no implementation
//! block is rejected outright.

use vstd::prelude::*;

use crate::model::{ContractDefinition, ImplBlock, SourceUnit, UnitItem};
use crate::validate::ContractError;

verus! {

/// The implementation block that extraction settles on: the last one of
/// the unit, or `None` when the unit has none.
pub open spec fn last_impl(items: Seq<UnitItem>) -> Option<ImplBlock>
    decreases items.len(),
{
    if items.len() == 0 {
        None
    } else {
        match items.last() {
            UnitItem::Impl(b) => Some(b),
            UnitItem::Other => last_impl(items.drop_last()),
        }
    }
}

/// Law: a unit without any implementation block is rejected as a
/// structural failure.
pub proof fn lemma_no_impl_rejected(items: Seq<UnitItem>)
    requires
        forall|i: int| 0 <= i < items.len() ==> !((#[trigger] items[i]) is Impl),
    ensures
        last_impl(items) is None,
    decreases items.len(),
{
    if items.len() > 0 {
        lemma_no_impl_rejected(items.drop_last());
    }
}

/// Law: with several implementation blocks in one unit, the last one wins;
/// every block before it is ignored.
pub proof fn lemma_last_impl_wins(items: Seq<UnitItem>, i: int, b: ImplBlock)
    requires
        0 <= i < items.len(),
        items[i] == UnitItem::Impl(b),
        forall|j: int| i < j < items.len() ==> !((#[trigger] items[j]) is Impl),
    ensures
        last_impl(items) == Some(b),
    decreases items.len(),
{
    if i + 1 < items.len() {
        lemma_last_impl_wins(items.drop_last(), i, b);
    }
}

/// Produce the contract definition of a lowered source unit: the rendered
/// name of the implemented type and the block's methods in declaration
/// order.  Fails exactly when the unit holds no implementation block.
pub fn extract(unit: SourceUnit) -> (r: Result<ContractDefinition, ContractError>)
    ensures
        last_impl(unit.items@) is None ==> r == Err::<ContractDefinition, ContractError>(
            ContractError::MissingContract,
        ),
        last_impl(unit.items@) matches Some(b) ==> r matches Ok(d) && d.type_identifier
            == b.self_name && d.methods == b.methods,
{
    let mut items = unit.items;
    while items.len() > 0
        invariant
            last_impl(unit.items@) == last_impl(items@),
        decreases items@.len(),
    {
        let ghost prev = items@;
        let item = items.pop().unwrap();
        proof {
            assert(prev.drop_last() =~= items@);
            assert(prev.last() == item);
        }
        match item {
            UnitItem::Impl(b) => {
                return Ok(ContractDefinition { type_identifier: b.self_name, methods: b.methods });
            },
            UnitItem::Other => {},
        }
    }
    Err(ContractError::MissingContract)
}

} // verus!
