//! The inputs of the mutations.

use vstd::prelude::*;
use crate::ids::Uuid;

verus! {

/// A shopping cart item as a caller asks for it: how many of which product
/// variant.
#[derive(Clone, Copy, Debug, PartialEq, Eq, Structural, Hash)]
pub struct ShoppingCartItemInput {
    /// Count of shopping cart items in cart.
    pub count: u32,
    /// UUID of product variant.
    pub product_variant_id: Uuid,
}

/// Input of the mutation that makes a cart with given items.
#[derive(Debug, PartialEq, Eq)]
pub struct AddShoppingCartInput {
    /// UUID of user owning the shopping cart.
    pub user_id: Uuid,
    /// Shopping cart items in the shopping cart. They form a set: in a
    /// well-formed input no two entries are equal.
    pub shopping_cart_items: Vec<ShoppingCartItemInput>,
}

/// Input of the mutation that replaces the items of a cart.
#[derive(Debug, PartialEq, Eq)]
pub struct UpdateShoppingCartInput {
    /// UUID of user owning shopping cart.
    pub id: Uuid,
    /// Shopping cart items of shopping cart to update. Absent: the cart is
    /// left as it is. They form a set: in a well-formed input no two
    /// entries are equal.
    pub shopping_cart_items: Option<Vec<ShoppingCartItemInput>>,
}

/// Input of the mutation that adds one item to a cart.
#[derive(Clone, Copy, Debug, PartialEq, Eq, Structural)]
pub struct CreateShoppingCartItemInput {
    /// UUID of user owning the shopping cart.
    pub id: Uuid,
    /// Shopping cart item to add.
    pub shopping_cart_item: ShoppingCartItemInput,
}

/// Input of the mutation that adds one item to a cart.
#[derive(Clone, Copy, Debug, PartialEq, Eq, Structural)]
pub struct AddShoppingCartItemInput {
    /// UUID of shopping cart to add the item to.
    pub id: Uuid,
    /// Shopping cart item to add.
    pub shopping_cart_item: ShoppingCartItemInput,
}

/// Input of the mutation that changes the count of one item.
#[derive(Clone, Copy, Debug, PartialEq, Eq, Structural, Hash)]
pub struct UpdateShoppingCartItemInput {
    /// UUID of shoppingcart item to update.
    pub id: Uuid,
    /// Count of shopping cart items in cart.
    pub count: u32,
}

/// No two entries are equal.
pub open spec fn distinct_inputs(inputs: Seq<ShoppingCartItemInput>) -> bool {
    forall|i: int, j: int| 0 <= i < j < inputs.len() ==> inputs[i] != inputs[j]
}

/// Whether `input` is among `inputs`.
fn contains_input(inputs: &Vec<ShoppingCartItemInput>, input: ShoppingCartItemInput) -> (found:
    bool)
    ensures
        found == inputs@.contains(input),
{
    let mut i: usize = 0;
    while i < inputs.len()
        invariant
            i <= inputs.len(),
            forall|k: int| 0 <= k < i ==> inputs@[k] != input,
        decreases inputs.len() - i,
    {
        if inputs[i] == input {
            return true;
        }
        i = i + 1;
    }
    false
}

/// The entries as a set: each entry once, in the order in which the
/// entries first occur.
pub fn distinct_entries(inputs: &Vec<ShoppingCartItemInput>) -> (entries: Vec<
    ShoppingCartItemInput,
>)
    ensures
        distinct_inputs(entries@),
        forall|input: ShoppingCartItemInput|
            entries@.contains(input) <==> inputs@.contains(input),
        distinct_inputs(inputs@) ==> entries@ == inputs@,
{
    let mut entries: Vec<ShoppingCartItemInput> = Vec::new();
    let mut i: usize = 0;
    while i < inputs.len()
        invariant
            i <= inputs.len(),
            distinct_inputs(entries@),
            forall|input: ShoppingCartItemInput|
                entries@.contains(input) <==> inputs@.take(i as int).contains(input),
            distinct_inputs(inputs@) ==> entries@ == inputs@.take(i as int),
        decreases inputs.len() - i,
    {
        let input = inputs[i];
        let ghost before = entries@;
        let ghost seen = inputs@.take(i as int);
        let ghost next = inputs@.take(i + 1);
        assert(next =~= seen.push(input));
        let known = contains_input(&entries, input);
        if !known {
            entries.push(input);
        }
        proof {
            assert(entries@ == if known {
                before
            } else {
                before.push(input)
            });
            assert forall|other: ShoppingCartItemInput|
                entries@.contains(other) <==> next.contains(other) by {
                if entries@.contains(other) {
                    let k = choose|k: int| 0 <= k < entries@.len() && entries@[k] == other;
                    if k < before.len() {
                        assert(before[k] == other);
                        assert(before.contains(other));
                        assert(seen.contains(other));
                        let m = choose|m: int| 0 <= m < seen.len() && seen[m] == other;
                        assert(next[m] == other);
                    } else {
                        assert(next[i as int] == other);
                    }
                }
                if next.contains(other) {
                    let m = choose|m: int| 0 <= m < next.len() && next[m] == other;
                    if m < i {
                        assert(seen[m] == other);
                        assert(seen.contains(other));
                        assert(before.contains(other));
                        let k = choose|k: int| 0 <= k < before.len() && before[k] == other;
                        assert(entries@[k] == other);
                    } else if known {
                        assert(other == input);
                        assert(before.contains(other));
                        let k = choose|k: int| 0 <= k < before.len() && before[k] == other;
                        assert(entries@[k] == other);
                    } else {
                        assert(entries@[before.len() as int] == other);
                    }
                }
            }
            if distinct_inputs(inputs@) {
                if known {
                    assert(seen.contains(input));
                    let m = choose|m: int| 0 <= m < seen.len() && seen[m] == input;
                    assert(inputs@[m] == inputs@[i as int]);
                }
                assert(entries@ =~= next);
            }
        }
        i = i + 1;
    }
    assert(inputs@.take(i as int) =~= inputs@);
    entries
}

impl AddShoppingCartInput {
    /// The invariant of the input: its items form a set.
    pub open spec fn wf(&self) -> bool {
        distinct_inputs(self.shopping_cart_items@)
    }

    /// The input for the cart of user `user_id` with the given entries as
    /// a set.
    pub fn new(user_id: Uuid, shopping_cart_items: &Vec<ShoppingCartItemInput>) -> (input: Self)
        ensures
            input.wf(),
            input.user_id == user_id,
            forall|entry: ShoppingCartItemInput|
                input.shopping_cart_items@.contains(entry) <==> shopping_cart_items@.contains(entry),
            distinct_inputs(shopping_cart_items@) ==> input.shopping_cart_items@
                == shopping_cart_items@,
    {
        AddShoppingCartInput { user_id, shopping_cart_items: distinct_entries(shopping_cart_items) }
    }
}

impl UpdateShoppingCartInput {
    /// The invariant of the input: its items, if given, form a set.
    pub open spec fn wf(&self) -> bool {
        match self.items() {
            Some(items) => distinct_inputs(items),
            None => true,
        }
    }

    /// The input for the cart of user `id` with the given entries, if any,
    /// as a set.
    pub fn new(id: Uuid, shopping_cart_items: Option<&Vec<ShoppingCartItemInput>>) -> (input: Self)
        ensures
            input.wf(),
            input.id == id,
            match shopping_cart_items {
                Some(given) => input.items() matches Some(items) && (forall|
                    entry: ShoppingCartItemInput,
                | items.contains(entry) <==> given@.contains(entry)) && (distinct_inputs(given@)
                    ==> items == given@),
                None => input.items() is None,
            },
    {
        match shopping_cart_items {
            Some(given) => UpdateShoppingCartInput {
                id,
                shopping_cart_items: Some(distinct_entries(given)),
            },
            None => UpdateShoppingCartInput { id, shopping_cart_items: None },
        }
    }

    /// The item inputs, if any were given.
    pub open spec fn items(&self) -> Option<Seq<ShoppingCartItemInput>> {
        match self.shopping_cart_items {
            Some(items) => Some(items@),
            None => None,
        }
    }
}

} // verus!
