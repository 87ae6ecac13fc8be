//! Connection-shaped results: a page of nodes, whether more follow, and the
//! size of the whole list the page was cut from.

use vstd::prelude::*;
use vstd::std_specs::convert::FromSpecImpl;
use crate::shoppingcart::ShoppingCart;
use crate::shoppingcart_item::ShoppingCartItem;

verus! {

/// Where a page starts in a list of `total` entries when `skip` are to be
/// passed over: at `skip`, or at the end when fewer are there.
pub open spec fn page_start(total: nat, skip: nat) -> nat {
    if skip < total {
        skip
    } else {
        total
    }
}

/// How many entries a page holds: the `first` asked for, or all that are
/// left after the skipped ones when fewer are left or no bound was given.
pub open spec fn page_len(total: nat, skip: nat, first: Option<nat>) -> nat {
    let remaining = (total - page_start(total, skip)) as nat;
    match first {
        Some(limit) => if limit < remaining {
            limit
        } else {
            remaining
        },
        None => remaining,
    }
}

/// The page itself.
pub open spec fn page_of<T>(all: Seq<T>, skip: nat, first: Option<nat>) -> Seq<T> {
    all.subrange(
        page_start(all.len(), skip) as int,
        (page_start(all.len(), skip) + page_len(all.len(), skip, first)) as int,
    )
}

/// Whether entries follow a page of `returned` entries that was cut after
/// `skip` entries from a list of `total`.
pub open spec fn more_after_page(total: nat, skip: nat, returned: nat) -> bool {
    total > skip + returned
}

/// Pagination total: a page cut with `first = k` and `skip = s` from a list
/// of `n` entries holds `min(k, max(0, n - s))` of them, and more follow
/// exactly when `n > s + returned`; with no `first` it holds all that are
/// left.
pub proof fn law_page_size<T>(all: Seq<T>, skip: nat, first: Option<nat>)
    ensures
        page_of(all, skip, first).len() == page_len(all.len(), skip, first),
        first matches Some(k) ==> page_len(all.len(), skip, first) == vstd::math::min(
            k as int,
            vstd::math::max(0, all.len() - skip),
        ),
        first is None ==> page_len(all.len(), skip, first) == vstd::math::max(0, all.len() - skip),
        more_after_page(all.len(), skip, page_of(all, skip, first).len()) <==> all.len() > skip
            + page_of(all, skip, first).len(),
        first matches Some(k) ==> (more_after_page(
            all.len(),
            skip,
            page_of(all, skip, first).len(),
        ) <==> all.len() > skip + k),
        first is None ==> !more_after_page(all.len(), skip, page_of(all, skip, first).len()),
{
}

/// What a paged find on a root collection hands back: the entries of the
/// page, whether more follow, and the count of all entries that matched.
#[derive(Debug, PartialEq, Eq)]
pub struct FindResult<T> {
    pub has_next_page: bool,
    pub total_count: u64,
    pub items: Vec<T>,
}

/// A paged find result on its way into a connection.
#[derive(Debug, PartialEq, Eq)]
pub struct FindResultWrapper<T>(pub FindResult<T>);

/// A connection of entities of any kind.
#[derive(Debug, PartialEq, Eq)]
pub struct BaseConnection<T> {
    /// The resulting entities.
    pub nodes: Vec<T>,
    /// Whether this connection has a next page.
    pub has_next_page: bool,
    /// The total amount of items in this connection.
    pub total_count: u64,
}

impl<T> From<FindResultWrapper<T>> for BaseConnection<T> {
    fn from(value: FindResultWrapper<T>) -> (connection: Self) {
        BaseConnection {
            nodes: value.0.items,
            has_next_page: value.0.has_next_page,
            total_count: value.0.total_count,
        }
    }
}

impl<T> FromSpecImpl<FindResultWrapper<T>> for BaseConnection<T> {
    open spec fn obeys_from_spec() -> bool {
        true
    }

    open spec fn from_spec(value: FindResultWrapper<T>) -> Self {
        BaseConnection {
            nodes: value.0.items,
            has_next_page: value.0.has_next_page,
            total_count: value.0.total_count,
        }
    }
}

/// A connection of shopping cart items.
#[derive(Debug, PartialEq, Eq)]
pub struct ShoppingCartItemConnection {
    /// The resulting entities.
    pub nodes: Vec<ShoppingCartItem>,
    /// Whether this connection has a next page.
    pub has_next_page: bool,
    /// The total amount of items in this connection.
    pub total_count: u64,
}

impl From<BaseConnection<ShoppingCartItem>> for ShoppingCartItemConnection {
    fn from(value: BaseConnection<ShoppingCartItem>) -> (connection: Self) {
        ShoppingCartItemConnection {
            nodes: value.nodes,
            has_next_page: value.has_next_page,
            total_count: value.total_count,
        }
    }
}

impl FromSpecImpl<BaseConnection<ShoppingCartItem>> for ShoppingCartItemConnection {
    open spec fn obeys_from_spec() -> bool {
        true
    }

    open spec fn from_spec(value: BaseConnection<ShoppingCartItem>) -> Self {
        ShoppingCartItemConnection {
            nodes: value.nodes,
            has_next_page: value.has_next_page,
            total_count: value.total_count,
        }
    }
}

/// A connection of shopping carts.
#[derive(Debug, PartialEq, Eq)]
pub struct ShoppingCartConnection {
    /// The resulting entities.
    pub nodes: Vec<ShoppingCart>,
    /// Whether this connection has a next page.
    pub has_next_page: bool,
    /// The total amount of items in this connection.
    pub total_count: u64,
}

impl From<BaseConnection<ShoppingCart>> for ShoppingCartConnection {
    fn from(value: BaseConnection<ShoppingCart>) -> (connection: Self) {
        ShoppingCartConnection {
            nodes: value.nodes,
            has_next_page: value.has_next_page,
            total_count: value.total_count,
        }
    }
}

impl FromSpecImpl<BaseConnection<ShoppingCart>> for ShoppingCartConnection {
    open spec fn obeys_from_spec() -> bool {
        true
    }

    open spec fn from_spec(value: BaseConnection<ShoppingCart>) -> Self {
        ShoppingCartConnection {
            nodes: value.nodes,
            has_next_page: value.has_next_page,
            total_count: value.total_count,
        }
    }
}

} // verus!
