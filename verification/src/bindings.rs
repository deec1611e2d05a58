//! The asset-binding table: which resource currently occupies which numbered
//! slot of which asset.
//!
//! The table records association only. It never checks that a bound handle is
//! still registered anywhere, and removing a resource elsewhere leaves its
//! bindings in place.
//!
//! The rows are kept in a vector and searched in order. An asset identity is
//! an opaque value here, of which nothing but equality is known; what a hash
//! map does with such a key cannot be stated, so none is used.

use crate::render_resource::RenderResource;
use bevy_asset::HandleUntyped;
use vstd::prelude::*;

verus! {

/// `bevy_asset::HandleUntyped`, the untyped identity of an asset. The table
/// treats it as an opaque value that can be copied and compared.
#[verifier::external_type_specification]
#[verifier::external_body]
pub struct ExHandleUntyped(HandleUntyped);

/// Compares two asset identities with `HandleUntyped`'s own `==`.
///
/// Not proved: that `==` holds exactly of equal values. `HandleUntyped`
/// derives `PartialEq` over its two fields, an id and a type id, each of which
/// compares by value.
#[verifier::external_body]
fn same_asset(a: &HandleUntyped, b: &HandleUntyped) -> (same: bool)
    ensures
        same == (*a == *b),
{
    *a == *b
}

/// What a table with contents `bindings` resolves `(asset, index)` to: the
/// bound handle, or nothing when the slot was never bound.
pub open spec fn lookup_binding(
    bindings: Map<(HandleUntyped, usize), RenderResource>,
    asset: HandleUntyped,
    index: usize,
) -> Option<RenderResource> {
    if bindings.contains_key((asset, index)) {
        Some(bindings[(asset, index)])
    } else {
        None
    }
}

/// One row of the table.
struct AssetBinding {
    asset: HandleUntyped,
    index: usize,
    resource: RenderResource,
}

impl AssetBinding {
    spec fn key(self) -> (HandleUntyped, usize) {
        (self.asset, self.index)
    }
}

/// No two rows bind the same slot of the same asset.
spec fn keys_unique(rows: Seq<AssetBinding>) -> bool {
    forall|i: int, j: int|
        0 <= i < rows.len() && 0 <= j < rows.len() && #[trigger] rows[i].key() == #[trigger] rows[j].key()
            ==> i == j
}

spec fn has_key(rows: Seq<AssetBinding>, key: (HandleUntyped, usize)) -> bool {
    exists|i: int| 0 <= i < rows.len() && #[trigger] rows[i].key() == key
}

spec fn row_of(rows: Seq<AssetBinding>, key: (HandleUntyped, usize)) -> int {
    choose|i: int| 0 <= i < rows.len() && #[trigger] rows[i].key() == key
}

spec fn rows_to_map(rows: Seq<AssetBinding>) -> Map<(HandleUntyped, usize), RenderResource> {
    Map::new(
        |key: (HandleUntyped, usize)| has_key(rows, key),
        |key: (HandleUntyped, usize)| rows[row_of(rows, key)].resource,
    )
}

/// A row at position `i` is what the map holds for that row's key.
proof fn lemma_row_in_map(rows: Seq<AssetBinding>, i: int)
    requires
        keys_unique(rows),
        0 <= i < rows.len(),
    ensures
        rows_to_map(rows).contains_key(rows[i].key()),
        rows_to_map(rows)[rows[i].key()] == rows[i].resource,
{
    let key = rows[i].key();
    assert(has_key(rows, key));
    let j = row_of(rows, key);
    assert(rows[j].key() == rows[i].key());
}

/// Maps `(asset identity, slot index)` to the resource bound there.
///
/// Binding a slot again replaces the earlier binding. There is no index from
/// a resource back to the slots it occupies.
pub struct AssetBindingTable {
    rows: Vec<AssetBinding>,
}

impl View for AssetBindingTable {
    type V = Map<(HandleUntyped, usize), RenderResource>;

    closed spec fn view(&self) -> Map<(HandleUntyped, usize), RenderResource> {
        rows_to_map(self.rows@)
    }
}

impl AssetBindingTable {
    #[verifier::type_invariant]
    spec fn well_formed(&self) -> bool {
        keys_unique(self.rows@)
    }

    /// A table with no bindings.
    pub fn new() -> (table: Self)
        ensures
            table@ == Map::<(HandleUntyped, usize), RenderResource>::empty(),
    {
        let table = AssetBindingTable { rows: Vec::new() };
        assert(table@ =~= Map::<(HandleUntyped, usize), RenderResource>::empty());
        table
    }

    /// Position of the row for `(asset, index)`, if there is one.
    fn position(&self, asset: &HandleUntyped, index: usize) -> (found: Option<usize>)
        ensures
            match found {
                Some(i) => i < self.rows@.len() && self.rows@[i as int].key() == (*asset, index),
                None => !has_key(self.rows@, (*asset, index)),
            },
    {
        let mut i: usize = 0;
        while i < self.rows.len()
            invariant
                i <= self.rows@.len(),
                forall|j: int| 0 <= j < i ==> #[trigger] self.rows@[j].key() != (*asset, index),
            decreases self.rows@.len() - i,
        {
            if self.rows[i].index == index && same_asset(&self.rows[i].asset, asset) {
                return Some(i);
            }
            i += 1;
        }
        None
    }

    /// Binds `resource` to slot `index` of `asset`, replacing any earlier
    /// binding of that slot.
    pub fn bind(&mut self, asset: HandleUntyped, index: usize, resource: RenderResource)
        ensures
            final(self)@ == old(self)@.insert((asset, index), resource),
    {
        proof {
            use_type_invariant(&*self);
        }
        let ghost before = self.rows@;
        let row = AssetBinding { asset, index, resource };
        let found = self.position(&asset, index);
        let mut rows: Vec<AssetBinding> = Vec::new();
        core::mem::swap(&mut rows, &mut self.rows);
        let ghost at: int;
        match found {
            Some(i) => {
                rows[i] = row;
                proof {
                    at = i as int;
                }
            },
            None => {
                rows.push(row);
                proof {
                    at = before.len() as int;
                }
            },
        }
        proof {
            let after = rows@;
            let key = (asset, index);
            assert(after[at] == row);
            assert(forall|j: int| 0 <= j < before.len() && j != at ==> #[trigger] after[j] == before[j]);
            assert(after.len() == before.len() || (after.len() == before.len() + 1 && at == before.len()));
            assert forall|a: int, b: int|
                0 <= a < after.len() && 0 <= b < after.len() && #[trigger] after[a].key()
                    == #[trigger] after[b].key() implies a == b by {
                if a != at && b != at {
                    assert(before[a].key() == before[b].key());
                } else if a != at {
                    assert(before[a].key() == key);
                } else if b != at {
                    assert(before[b].key() == key);
                }
            }
            assert(keys_unique(after));
            assert forall|k: (HandleUntyped, usize)|
                #[trigger] rows_to_map(after).contains_key(k) <==> rows_to_map(before).insert(
                    key,
                    resource,
                ).contains_key(k) by {
                if k == key {
                    assert(after[at].key() == k);
                } else {
                    if has_key(after, k) {
                        let j = row_of(after, k);
                        assert(before[j].key() == k);
                    }
                    if has_key(before, k) {
                        let j = row_of(before, k);
                        assert(after[j].key() == k);
                    }
                }
            }
            assert forall|k: (HandleUntyped, usize)| #[trigger]
                rows_to_map(after).contains_key(k) implies rows_to_map(after)[k]
                == rows_to_map(before).insert(key, resource)[k] by {
                let j = row_of(after, k);
                lemma_row_in_map(after, j);
                if k == key {
                    assert(after[at].key() == after[j].key());
                } else {
                    assert(before[j].key() == k);
                    lemma_row_in_map(before, j);
                }
            }
            assert(rows_to_map(after) =~= rows_to_map(before).insert(key, resource));
        }
        self.rows = rows;
    }

    /// The resource bound to slot `index` of `asset`, if the slot is bound.
    pub fn resolve(&self, asset: HandleUntyped, index: usize) -> (found: Option<RenderResource>)
        ensures
            found == lookup_binding(self@, asset, index),
    {
        proof {
            use_type_invariant(self);
        }
        match self.position(&asset, index) {
            Some(i) => {
                proof {
                    lemma_row_in_map(self.rows@, i as int);
                }
                Some(self.rows[i].resource)
            },
            None => None,
        }
    }
}

impl Default for AssetBindingTable {
    fn default() -> (table: Self)
        ensures
            table@ == Map::<(HandleUntyped, usize), RenderResource>::empty(),
    {
        AssetBindingTable::new()
    }
}

} // verus!
