//! Shopping cart items and the product variants they refer to.

use vstd::prelude::*;
use vstd::std_specs::cmp::PartialOrdSpecImpl;
use std::cmp::Ordering;
use crate::ids::{Timestamp, Uuid};

verus! {

/// The local projection of a product variant: its identity and nothing else.
#[derive(Clone, Copy, Debug, PartialEq, Eq, Structural, Hash)]
pub struct ProductVariant {
    /// Product variant UUID.
    pub _id: Uuid,
}

/// Shopping cart item in a shopping cart of a user.
#[derive(Clone, Copy, Debug, PartialEq, Eq, Structural, Hash)]
pub struct ShoppingCartItem {
    /// Shopping cart item UUID.
    pub _id: Uuid,
    /// Count of items in basket.
    pub count: u32,
    /// Timestamp when shopping cart item was added.
    pub added_at: Timestamp,
    /// Product variant of shopping cart item, copied by value when the item
    /// was made.
    pub product_variant: ProductVariant,
}

impl View for ShoppingCartItem {
    type V = ShoppingCartItem;

    open spec fn view(&self) -> ShoppingCartItem {
        *self
    }
}

impl From<ShoppingCartItem> for Uuid {
    fn from(value: ShoppingCartItem) -> (id: Uuid) {
        value._id
    }
}

impl vstd::std_specs::convert::FromSpecImpl<ShoppingCartItem> for Uuid {
    open spec fn obeys_from_spec() -> bool {
        true
    }

    open spec fn from_spec(value: ShoppingCartItem) -> Uuid {
        value._id
    }
}

/// Items are ordered by their identities alone.
impl PartialOrd for ShoppingCartItem {
    fn partial_cmp(&self, other: &Self) -> (order: Option<Ordering>) {
        if self._id.value < other._id.value {
            Some(Ordering::Less)
        } else if self._id.value > other._id.value {
            Some(Ordering::Greater)
        } else {
            Some(Ordering::Equal)
        }
    }
}

impl PartialOrdSpecImpl for ShoppingCartItem {
    open spec fn obeys_partial_cmp_spec() -> bool {
        true
    }

    open spec fn partial_cmp_spec(&self, other: &Self) -> Option<Ordering> {
        if self._id.value < other._id.value {
            Some(Ordering::Less)
        } else if self._id.value > other._id.value {
            Some(Ordering::Greater)
        } else {
            Some(Ordering::Equal)
        }
    }
}

/// A node on its way into a connection edge, whose cursor is the node's own
/// identity.
#[derive(Debug, PartialEq, Eq)]
pub struct NodeWrapper<Node>(pub Node);

impl<Node: Copy + Into<Uuid>> NodeWrapper<Node> {
    /// The cursor and the node of the edge this wrapper stands for.
    pub fn into_edge(self) -> (edge: (Uuid, Node))
        ensures
            edge.1 == self.0,
            call_ensures(<Node as Into<Uuid>>::into, (self.0,), edge.0),
    {
        let node = self.0;
        let cursor: Uuid = node.into();
        (cursor, node)
    }
}

} // verus!
