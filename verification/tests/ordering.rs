use shoppingcart::ids::{Timestamp, Uuid};
use shoppingcart::order_datatypes::{CommonOrderField, CommonOrderInput, OrderDirection};
use shoppingcart::shoppingcart::{sort_shoppingcart_items, ShoppingCart};
use shoppingcart::shoppingcart_item::{ProductVariant, ShoppingCartItem};

fn item(id: u128, count: u32) -> ShoppingCartItem {
    ShoppingCartItem {
        _id: Uuid::from_u128(id),
        count,
        added_at: Timestamp::from_millis(1_700_000_000_000),
        product_variant: ProductVariant { _id: Uuid::from_u128(id + 1000) },
    }
}

fn ids(items: &[ShoppingCartItem]) -> Vec<u128> {
    items.iter().map(|item| item._id.value).collect()
}

#[test]
fn sort_defaults_to_ascending_identity() {
    let mut items = vec![item(3, 1), item(1, 2), item(2, 3)];
    sort_shoppingcart_items(&mut items, None);
    assert_eq!(ids(&items), vec![1, 2, 3]);
}

#[test]
fn sort_descending_is_reverse_of_ascending() {
    let stored = vec![item(5, 1), item(9, 1), item(1, 1), item(7, 1)];
    let mut ascending = stored.clone();
    sort_shoppingcart_items(
        &mut ascending,
        Some(CommonOrderInput { direction: Some(OrderDirection::Asc), field: Some(CommonOrderField::Id) }),
    );
    let mut descending = stored.clone();
    sort_shoppingcart_items(
        &mut descending,
        Some(CommonOrderInput { direction: Some(OrderDirection::Desc), field: None }),
    );
    assert_eq!(ids(&ascending), vec![1, 5, 7, 9]);
    let mut reversed = ascending.clone();
    reversed.reverse();
    assert_eq!(descending, reversed);
}

#[test]
fn page_counts_follow_total() {
    let cart = ShoppingCart {
        last_updated_at: Timestamp::from_millis(0),
        internal_shoppingcart_items: vec![item(4, 1), item(2, 1), item(8, 1), item(6, 1), item(10, 1)],
    };
    let page = cart.shoppingcart_items(Some(2), Some(1), None);
    assert_eq!(ids(&page.nodes), vec![4, 6]);
    assert!(page.has_next_page);
    assert_eq!(page.total_count, 5);

    let tail = cart.shoppingcart_items(Some(10), Some(3), None);
    assert_eq!(ids(&tail.nodes), vec![8, 10]);
    assert!(!tail.has_next_page);

    let beyond = cart.shoppingcart_items(Some(3), Some(7), None);
    assert!(beyond.nodes.is_empty());
    assert!(!beyond.has_next_page);
    assert_eq!(beyond.total_count, 5);

    let everything = cart.shoppingcart_items(None, None, None);
    assert_eq!(ids(&everything.nodes), vec![2, 4, 6, 8, 10]);
    assert!(!everything.has_next_page);

    let huge_skip = cart.shoppingcart_items(Some(usize::MAX), Some(usize::MAX), None);
    assert!(huge_skip.nodes.is_empty());
    assert!(!huge_skip.has_next_page);
}
