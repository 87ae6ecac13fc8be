//! The shopping cart of a user: its items, their order, and the paged view
//! of them.

use vstd::prelude::*;
use crate::connection::{more_after_page, page_len, page_of, ShoppingCartItemConnection};
use crate::ids::Timestamp;
use crate::order_datatypes::{CommonOrderInput, OrderDirection};
use crate::sequences::{first_index, lemma_first_index, lemma_first_index_is};
use crate::shoppingcart_item::ShoppingCartItem;

verus! {

/// The shopping cart of a user.
#[derive(Debug, PartialEq, Eq)]
pub struct ShoppingCart {
    /// Timestamp when shopping cart was last updated.
    pub last_updated_at: Timestamp,
    /// All shopping cart items, in the order in which they are stored.
    pub internal_shoppingcart_items: Vec<ShoppingCartItem>,
}

/// The mathematical value of a shopping cart.
pub struct ShoppingCartView {
    pub last_updated_at: Timestamp,
    pub items: Seq<ShoppingCartItem>,
}

impl View for ShoppingCart {
    type V = ShoppingCartView;

    open spec fn view(&self) -> ShoppingCartView {
        ShoppingCartView {
            last_updated_at: self.last_updated_at,
            items: self.internal_shoppingcart_items@,
        }
    }
}

/// No two items of the sequence share an identity.
pub open spec fn distinct_item_ids(items: Seq<ShoppingCartItem>) -> bool {
    forall|i: int, j: int|
        0 <= i < j < items.len() ==> (#[trigger] items[i])._id != (#[trigger] items[j])._id
}

/// Whether `a` may stand before `b` in a list ordered in `direction`.
pub open spec fn may_precede(
    a: ShoppingCartItem,
    b: ShoppingCartItem,
    direction: OrderDirection,
) -> bool {
    match direction {
        OrderDirection::Asc => a._id.value <= b._id.value,
        OrderDirection::Desc => a._id.value >= b._id.value,
    }
}

/// The sequence is ordered by identity in `direction`.
pub open spec fn ordered_by_id(items: Seq<ShoppingCartItem>, direction: OrderDirection) -> bool {
    forall|i: int, j: int|
        0 <= i < j < items.len() ==> may_precede(
            #[trigger] items[i],
            #[trigger] items[j],
            direction,
        )
}

/// The entry must stand behind `item` in a list ordered in `direction`.
pub open spec fn must_follow(item: ShoppingCartItem, direction: OrderDirection) -> spec_fn(
    ShoppingCartItem,
) -> bool {
    |entry: ShoppingCartItem| !may_precede(entry, item, direction)
}

/// Where `item` goes into an ordered sequence: before the first entry that
/// must stand behind it, so behind every entry of equal identity.
pub open spec fn insertion_point(
    ordered: Seq<ShoppingCartItem>,
    item: ShoppingCartItem,
    direction: OrderDirection,
) -> int {
    first_index(ordered, must_follow(item, direction))
}

/// The items ordered by identity in `direction`. Items of equal identity
/// keep the order in which they stood.
pub open spec fn items_in_order(
    items: Seq<ShoppingCartItem>,
    direction: OrderDirection,
) -> Seq<ShoppingCartItem>
    decreases items.len(),
{
    if items.len() == 0 {
        Seq::empty()
    } else {
        let ordered = items_in_order(items.drop_last(), direction);
        ordered.insert(insertion_point(ordered, items.last(), direction), items.last())
    }
}

/// `items_in_order` yields a rearrangement of the items that is ordered by
/// identity.
pub proof fn lemma_items_in_order(items: Seq<ShoppingCartItem>, direction: OrderDirection)
    ensures
        ordered_by_id(items_in_order(items, direction), direction),
        items_in_order(items, direction).to_multiset() == items.to_multiset(),
        items_in_order(items, direction).len() == items.len(),
    decreases items.len(),
{
    broadcast use vstd::seq_lib::group_to_multiset_ensures;

    if items.len() == 0 {
        assert(items_in_order(items, direction) =~= Seq::empty());
        assert(items =~= Seq::empty());
    } else {
        let front = items.drop_last();
        let last = items.last();
        lemma_items_in_order(front, direction);
        let ordered = items_in_order(front, direction);
        let p = insertion_point(ordered, last, direction);
        lemma_first_index(ordered, must_follow(last, direction));
        let result = ordered.insert(p, last);
        assert(result == items_in_order(items, direction));
        assert(ordered_by_id(result, direction)) by {
            assert forall|i: int, j: int| 0 <= i < j < result.len() implies may_precede(
                #[trigger] result[i],
                #[trigger] result[j],
                direction,
            ) by {
                if j < p {
                    assert(result[i] == ordered[i] && result[j] == ordered[j]);
                } else if j == p {
                    assert(result[i] == ordered[i]);
                } else if i < p {
                    assert(result[i] == ordered[i] && result[j] == ordered[j - 1]);
                } else if i == p {
                    assert(result[j] == ordered[j - 1]);
                    assert(!may_precede(ordered[p], last, direction));
                    if j - 1 > p {
                        assert(may_precede(ordered[p], ordered[j - 1], direction));
                    }
                } else {
                    assert(result[i] == ordered[i - 1] && result[j] == ordered[j - 1]);
                }
            }
        }
        assert(items =~= front.push(last));
        assert(result.to_multiset() =~= items.to_multiset());
    }
}

/// Ordering keeps identities distinct.
pub proof fn lemma_items_in_order_distinct(items: Seq<ShoppingCartItem>, direction: OrderDirection)
    requires
        distinct_item_ids(items),
    ensures
        distinct_item_ids(items_in_order(items, direction)),
    decreases items.len(),
{
    broadcast use vstd::seq_lib::group_to_multiset_ensures;

    if items.len() > 0 {
        let front = items.drop_last();
        let last = items.last();
        lemma_items_in_order_distinct(front, direction);
        lemma_items_in_order(front, direction);
        let ordered = items_in_order(front, direction);
        let p = insertion_point(ordered, last, direction);
        lemma_first_index(ordered, must_follow(last, direction));
        let result = ordered.insert(p, last);
        assert forall|k: int| 0 <= k < ordered.len() implies (#[trigger] ordered[k])._id
            != last._id by {
            assert(ordered.contains(ordered[k]));
            assert(front.to_multiset().count(ordered[k]) > 0);
            assert(front.contains(ordered[k]));
            let m = choose|m: int| 0 <= m < front.len() && front[m] == ordered[k];
            assert(items[m] == front[m]);
            assert(items[items.len() - 1] == last);
        }
        assert forall|i: int, j: int| 0 <= i < j < result.len() implies (#[trigger] result[i])._id
            != (#[trigger] result[j])._id by {
            if j < p {
                assert(result[i] == ordered[i] && result[j] == ordered[j]);
            } else if j == p {
                assert(result[i] == ordered[i]);
            } else if i < p {
                assert(result[i] == ordered[i] && result[j] == ordered[j - 1]);
            } else if i == p {
                assert(result[j] == ordered[j - 1]);
            } else {
                assert(result[i] == ordered[i - 1] && result[j] == ordered[j - 1]);
            }
        }
    }
}

/// Two rearrangements of the same items that are both ordered by identity
/// in the same direction are equal, provided the identities are distinct.
pub proof fn lemma_ordered_rearrangement_unique(
    x: Seq<ShoppingCartItem>,
    y: Seq<ShoppingCartItem>,
    direction: OrderDirection,
)
    requires
        distinct_item_ids(x),
        ordered_by_id(x, direction),
        ordered_by_id(y, direction),
        x.to_multiset() == y.to_multiset(),
    ensures
        x == y,
    decreases x.len(),
{
    broadcast use vstd::seq_lib::group_to_multiset_ensures;

    assert(x.len() == x.to_multiset().len() && y.len() == y.to_multiset().len());
    if x.len() == 0 {
        assert(x =~= y);
    } else {
        let n = x.len() - 1;
        let a = x[n];
        let b = y[n];
        assert(y.contains(b));
        assert(x.to_multiset().count(b) > 0);
        assert(x.contains(b));
        let m = choose|m: int| 0 <= m < x.len() && x[m] == b;
        assert(x.contains(a));
        assert(y.to_multiset().count(a) > 0);
        assert(y.contains(a));
        let k = choose|k: int| 0 <= k < y.len() && y[k] == a;
        if m < n {
            assert(may_precede(x[m], x[n], direction));
        }
        if k < n {
            assert(may_precede(y[k], y[n], direction));
        }
        assert(a._id.value == b._id.value);
        assert(m == n);
        assert(a == b);
        assert(x.remove(n) =~= x.drop_last());
        assert(y.remove(n) =~= y.drop_last());
        assert(x.drop_last().to_multiset() == y.drop_last().to_multiset());
        let xs = x.drop_last();
        let ys = y.drop_last();
        assert(distinct_item_ids(xs)) by {
            assert forall|i: int, j: int| 0 <= i < j < xs.len() implies (#[trigger] xs[i])._id != (
            #[trigger] xs[j])._id by {
                assert(xs[i] == x[i] && xs[j] == x[j]);
            }
        }
        assert(ordered_by_id(xs, direction)) by {
            assert forall|i: int, j: int| 0 <= i < j < xs.len() implies may_precede(
                #[trigger] xs[i],
                #[trigger] xs[j],
                direction,
            ) by {
                assert(xs[i] == x[i] && xs[j] == x[j]);
            }
        }
        assert(ordered_by_id(ys, direction)) by {
            assert forall|i: int, j: int| 0 <= i < j < ys.len() implies may_precede(
                #[trigger] ys[i],
                #[trigger] ys[j],
                direction,
            ) by {
                assert(ys[i] == y[i] && ys[j] == y[j]);
            }
        }
        lemma_ordered_rearrangement_unique(xs, ys, direction);
        assert(x =~= xs.push(a));
        assert(y =~= ys.push(b));
    }
}

/// Ordering determinism: of items with distinct identities, the descending
/// order is the exact reverse of the ascending order.
pub proof fn law_descending_reverses_ascending(items: Seq<ShoppingCartItem>)
    requires
        distinct_item_ids(items),
    ensures
        items_in_order(items, OrderDirection::Desc) == items_in_order(
            items,
            OrderDirection::Asc,
        ).reverse(),
{
    let ascending = items_in_order(items, OrderDirection::Asc);
    let descending = items_in_order(items, OrderDirection::Desc);
    lemma_items_in_order(items, OrderDirection::Asc);
    lemma_items_in_order(items, OrderDirection::Desc);
    lemma_items_in_order_distinct(items, OrderDirection::Desc);
    let reversed = ascending.reverse();
    ascending.lemma_reverse_to_multiset();
    assert(ordered_by_id(reversed, OrderDirection::Desc)) by {
        assert forall|i: int, j: int| 0 <= i < j < reversed.len() implies may_precede(
            #[trigger] reversed[i],
            #[trigger] reversed[j],
            OrderDirection::Desc,
        ) by {
            let n = ascending.len();
            assert(reversed[i] == ascending[n - 1 - i]);
            assert(reversed[j] == ascending[n - 1 - j]);
            assert(may_precede(ascending[n - 1 - j], ascending[n - 1 - i], OrderDirection::Asc));
        }
    }
    lemma_ordered_rearrangement_unique(descending, reversed, OrderDirection::Desc);
}

/// The order of a list whose identities are distinct does not depend on
/// the order in which the items were stored.
pub proof fn law_order_ignores_storage_order(
    x: Seq<ShoppingCartItem>,
    y: Seq<ShoppingCartItem>,
    direction: OrderDirection,
)
    requires
        distinct_item_ids(x),
        x.to_multiset() == y.to_multiset(),
    ensures
        items_in_order(x, direction) == items_in_order(y, direction),
{
    lemma_items_in_order(x, direction);
    lemma_items_in_order(y, direction);
    lemma_items_in_order_distinct(x, direction);
    lemma_ordered_rearrangement_unique(
        items_in_order(x, direction),
        items_in_order(y, direction),
        direction,
    );
}

impl ShoppingCart {
    /// The invariant of a cart: no two of its items share an identity.
    pub open spec fn wf(&self) -> bool {
        distinct_item_ids(self@.items)
    }

    /// An empty cart, last updated at `at`.
    pub fn new_at(at: Timestamp) -> (cart: ShoppingCart)
        ensures
            cart@.items == Seq::<ShoppingCartItem>::empty(),
            cart@.last_updated_at == at,
            cart.wf(),
    {
        ShoppingCart { last_updated_at: at, internal_shoppingcart_items: Vec::new() }
    }

    /// An empty cart, last updated now.
    pub fn new() -> (cart: ShoppingCart)
        ensures
            cart@.items == Seq::<ShoppingCartItem>::empty(),
            cart.wf(),
    {
        ShoppingCart::new_at(Timestamp::now())
    }

    /// Whether the cart is well formed.
    pub fn is_well_formed(&self) -> (yes: bool)
        ensures
            yes == self.wf(),
    {
        let items = &self.internal_shoppingcart_items;
        let mut j: usize = 0;
        while j < items.len()
            invariant
                j <= items.len(),
                items@ == self@.items,
                forall|a: int, b: int|
                    0 <= a < b < j ==> (#[trigger] items@[a])._id != (#[trigger] items@[b])._id,
            decreases items.len() - j,
        {
            let mut i: usize = 0;
            while i < j
                invariant
                    i <= j < items.len(),
                    items@ == self@.items,
                    forall|a: int|
                        0 <= a < i ==> (#[trigger] items@[a])._id != items@[j as int]._id,
                decreases j - i,
            {
                if items[i]._id == items[j]._id {
                    assert(self@.items[i as int]._id == self@.items[j as int]._id);
                    return false;
                }
                i = i + 1;
            }
            j = j + 1;
        }
        true
    }

    /// A copy of the cart.
    pub fn duplicate(&self) -> (cart: ShoppingCart)
        ensures
            cart@ == self@,
    {
        ShoppingCart {
            last_updated_at: self.last_updated_at,
            internal_shoppingcart_items: copy_items(&self.internal_shoppingcart_items),
        }
    }

    /// Retrieves the shopping cart items of the cart as a connection: the
    /// items are ordered by identity in the direction of `order_by`
    /// (ascending by default), then `skip` of them are passed over (none by
    /// default) and at most `first` returned (all by default).
    pub fn shoppingcart_items(
        &self,
        first: Option<usize>,
        skip: Option<usize>,
        order_by: Option<CommonOrderInput>,
    ) -> (connection: ShoppingCartItemConnection)
        ensures
            connection.nodes@ == page_of(
                items_in_order(self@.items, CommonOrderInput::resolved_direction(order_by)),
                skip_or_default(skip),
                first_as_nat(first),
            ),
            connection.has_next_page == more_after_page(
                self@.items.len(),
                skip_or_default(skip),
                connection.nodes@.len(),
            ),
            connection.total_count == self@.items.len(),
            connection.nodes@.len() == page_len(
                self@.items.len(),
                skip_or_default(skip),
                first_as_nat(first),
            ),
    {
        let mut shoppingcart_items = copy_items(&self.internal_shoppingcart_items);
        sort_shoppingcart_items(&mut shoppingcart_items, order_by);
        let total_count = shoppingcart_items.len();
        let definitely_skip = match skip {
            Some(skip) => skip,
            None => 0,
        };
        proof {
            lemma_items_in_order(self@.items, CommonOrderInput::resolved_direction(order_by));
        }
        let start = if definitely_skip < total_count {
            definitely_skip
        } else {
            total_count
        };
        let remaining = total_count - start;
        let count = match first {
            Some(limit) => if limit < remaining {
                limit
            } else {
                remaining
            },
            None => remaining,
        };
        let ghost ordered = shoppingcart_items@;
        let mut shoppingcart_items_part: Vec<ShoppingCartItem> = Vec::new();
        let mut taken: usize = 0;
        while taken < count
            invariant
                taken <= count,
                start + count <= total_count,
                total_count == shoppingcart_items.len(),
                shoppingcart_items@ == ordered,
                shoppingcart_items_part@ == ordered.subrange(start as int, start + taken),
            decreases count - taken,
        {
            shoppingcart_items_part.push(shoppingcart_items[start + taken]);
            assert(shoppingcart_items_part@ =~= ordered.subrange(start as int, start + taken + 1));
            taken = taken + 1;
        }
        let has_next_page = definitely_skip < total_count && total_count - definitely_skip > count;
        ShoppingCartItemConnection {
            nodes: shoppingcart_items_part,
            has_next_page,
            total_count: total_count as u64,
        }
    }
}

/// The number of entries to pass over: the one given, none otherwise.
pub open spec fn skip_or_default(skip: Option<usize>) -> nat {
    match skip {
        Some(skip) => skip as nat,
        None => 0,
    }
}

/// The bound on the page, as a natural number.
pub open spec fn first_as_nat(first: Option<usize>) -> Option<nat> {
    match first {
        Some(limit) => Some(limit as nat),
        None => None,
    }
}

/// A copy of the items.
pub fn copy_items(items: &Vec<ShoppingCartItem>) -> (copy: Vec<ShoppingCartItem>)
    ensures
        copy@ == items@,
{
    let mut copy: Vec<ShoppingCartItem> = Vec::new();
    let mut i: usize = 0;
    while i < items.len()
        invariant
            i <= items.len(),
            copy@ == items@.take(i as int),
        decreases items.len() - i,
    {
        copy.push(items[i]);
        assert(copy@ =~= items@.take(i + 1));
        i = i + 1;
    }
    assert(items@.take(items.len() as int) =~= items@);
    copy
}

/// Sorts the items by identity, in the direction of `order_by`, ascending
/// by default.
pub fn sort_shoppingcart_items(
    shoppingcart_items: &mut Vec<ShoppingCartItem>,
    order_by: Option<CommonOrderInput>,
)
    ensures
        final(shoppingcart_items)@ == items_in_order(
            old(shoppingcart_items)@,
            CommonOrderInput::resolved_direction(order_by),
        ),
        ordered_by_id(final(shoppingcart_items)@, CommonOrderInput::resolved_direction(order_by)),
        final(shoppingcart_items)@.to_multiset() == old(shoppingcart_items)@.to_multiset(),
{
    let direction = CommonOrderInput::direction_or_default(order_by);
    let ghost items = shoppingcart_items@;
    let mut ordered: Vec<ShoppingCartItem> = Vec::new();
    let mut i: usize = 0;
    while i < shoppingcart_items.len()
        invariant
            i <= shoppingcart_items.len(),
            shoppingcart_items@ == items,
            ordered@ == items_in_order(items.take(i as int), direction),
            ordered@.len() == i,
        decreases shoppingcart_items.len() - i,
    {
        let item = shoppingcart_items[i];
        let mut p: usize = 0;
        while p < ordered.len() && stands_before(&ordered[p], &item, direction)
            invariant
                p <= ordered.len(),
                forall|k: int|
                    0 <= k < p ==> !must_follow(item, direction)(#[trigger] ordered@[k]),
            decreases ordered.len() - p,
        {
            p = p + 1;
        }
        proof {
            lemma_first_index_is(ordered@, must_follow(item, direction), p as int);
            assert(items.take(i + 1).drop_last() =~= items.take(i as int));
            assert(items.take(i + 1).last() == item);
        }
        ordered.insert(p, item);
        i = i + 1;
    }
    proof {
        assert(items.take(i as int) =~= items);
        lemma_items_in_order(items, direction);
    }
    *shoppingcart_items = ordered;
}

/// Whether `a` may stand before `b` in a list ordered in `direction`:
/// `b < a` must not hold ascending, `a < b` must not hold descending.
fn stands_before(a: &ShoppingCartItem, b: &ShoppingCartItem, direction: OrderDirection) -> (yes:
    bool)
    ensures
        yes == may_precede(*a, *b, direction),
{
    match direction {
        OrderDirection::Asc => !(b < a),
        OrderDirection::Desc => !(a < b),
    }
}

} // verus!
