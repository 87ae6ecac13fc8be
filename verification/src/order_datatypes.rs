//! Order specifications of list queries: the field to sort by and the
//! direction, and their storage-level names.

use vstd::prelude::*;
use vstd::std_specs::convert::FromSpecImpl;

verus! {

/// Order direction.
#[derive(Clone, Copy, Debug, PartialEq, Eq, Structural)]
pub enum OrderDirection {
    /// Ascending order direction.
    Asc,
    /// Descending order direction.
    Desc,
}

impl Default for OrderDirection {
    fn default() -> (direction: Self)
        ensures
            direction == OrderDirection::Asc,
    {
        OrderDirection::Asc
    }
}

impl OrderDirection {
    /// The sign the document store takes for this direction in a sort
    /// specification: `1` ascending, `-1` descending.
    pub open spec fn sign(self) -> int {
        match self {
            OrderDirection::Asc => 1,
            OrderDirection::Desc => -1,
        }
    }
}

/// Conversion to the sign of a storage-level sort specification.
impl From<OrderDirection> for i32 {
    fn from(value: OrderDirection) -> (sign: i32) {
        match value {
            OrderDirection::Asc => 1,
            OrderDirection::Desc => -1,
        }
    }
}

impl FromSpecImpl<OrderDirection> for i32 {
    open spec fn obeys_from_spec() -> bool {
        true
    }

    open spec fn from_spec(value: OrderDirection) -> i32 {
        match value {
            OrderDirection::Asc => 1i32,
            OrderDirection::Desc => -1i32,
        }
    }
}

/// The fields that shopping carts can be ordered by.
#[derive(Clone, Copy, Debug, PartialEq, Eq, Structural)]
pub enum ShoppingCartOrderField {
    /// Orders by "id".
    Id,
    /// Orders by "user_id".
    UserId,
    /// Orders by "name".
    Name,
    /// Orders by "created_at".
    CreatedAt,
    /// Orders by "last_updated_at".
    LastUpdatedAt,
}

impl ShoppingCartOrderField {
    /// The name of the stored field that this order field stands for.
    pub open spec fn field_name(self) -> Seq<char> {
        match self {
            ShoppingCartOrderField::Id => "_id"@,
            ShoppingCartOrderField::UserId => "user_id"@,
            ShoppingCartOrderField::Name => "name"@,
            ShoppingCartOrderField::CreatedAt => "created_at"@,
            ShoppingCartOrderField::LastUpdatedAt => "last_updated_at"@,
        }
    }

    pub fn as_str(&self) -> (name: &'static str)
        ensures
            name@ == self.field_name(),
    {
        match self {
            ShoppingCartOrderField::Id => "_id",
            ShoppingCartOrderField::UserId => "user_id",
            ShoppingCartOrderField::Name => "name",
            ShoppingCartOrderField::CreatedAt => "created_at",
            ShoppingCartOrderField::LastUpdatedAt => "last_updated_at",
        }
    }
}

impl Default for ShoppingCartOrderField {
    fn default() -> (field: Self)
        ensures
            field == ShoppingCartOrderField::Id,
    {
        ShoppingCartOrderField::Id
    }
}

/// Specifies the order of shopping carts.
#[derive(Clone, Copy, Debug, PartialEq, Eq, Structural)]
pub struct ShoppingCartOrderInput {
    /// Order direction of shopping carts.
    pub direction: Option<OrderDirection>,
    /// Field that shopping carts should be ordered by.
    pub field: Option<ShoppingCartOrderField>,
}

impl Default for ShoppingCartOrderInput {
    fn default() -> (order: Self)
        ensures
            order.direction == Some(OrderDirection::Asc),
            order.field == Some(ShoppingCartOrderField::Id),
    {
        ShoppingCartOrderInput {
            direction: Some(OrderDirection::Asc),
            field: Some(ShoppingCartOrderField::Id),
        }
    }
}

/// The fields that entities owned by other services can be ordered by.
#[derive(Clone, Copy, Debug, PartialEq, Eq, Structural)]
pub enum CommonOrderField {
    /// Orders by "id".
    Id,
}

impl CommonOrderField {
    /// The name of the stored field that this order field stands for.
    pub open spec fn field_name(self) -> Seq<char> {
        match self {
            CommonOrderField::Id => "_id"@,
        }
    }

    pub fn as_str(&self) -> (name: &'static str)
        ensures
            name@ == self.field_name(),
    {
        match self {
            CommonOrderField::Id => "_id",
        }
    }
}

impl Default for CommonOrderField {
    fn default() -> (field: Self)
        ensures
            field == CommonOrderField::Id,
    {
        CommonOrderField::Id
    }
}

/// Specifies the order of entities owned by other services.
#[derive(Clone, Copy, Debug, PartialEq, Eq, Structural)]
pub struct CommonOrderInput {
    /// Order direction.
    pub direction: Option<OrderDirection>,
    /// Field to order by.
    pub field: Option<CommonOrderField>,
}

impl Default for CommonOrderInput {
    fn default() -> (order: Self)
        ensures
            order.direction == Some(OrderDirection::Asc),
            order.field == Some(CommonOrderField::Id),
    {
        CommonOrderInput { direction: Some(OrderDirection::Asc), field: Some(CommonOrderField::Id) }
    }
}

impl CommonOrderInput {
    /// The direction that applies: the one given, ascending otherwise.
    pub open spec fn resolved_direction(order_by: Option<CommonOrderInput>) -> OrderDirection {
        match order_by {
            Some(order) => match order.direction {
                Some(direction) => direction,
                None => OrderDirection::Asc,
            },
            None => OrderDirection::Asc,
        }
    }

    /// The field that applies: the one given, the identity otherwise.
    pub open spec fn resolved_field(order_by: Option<CommonOrderInput>) -> CommonOrderField {
        match order_by {
            Some(order) => match order.field {
                Some(field) => field,
                None => CommonOrderField::Id,
            },
            None => CommonOrderField::Id,
        }
    }

    /// Resolves an optional order specification to its direction, with the
    /// defaults filled in.
    pub fn direction_or_default(order_by: Option<CommonOrderInput>) -> (direction: OrderDirection)
        ensures
            direction == Self::resolved_direction(order_by),
    {
        match order_by {
            Some(order) => match order.direction {
                Some(direction) => direction,
                None => OrderDirection::Asc,
            },
            None => OrderDirection::Asc,
        }
    }

    /// Resolves an optional order specification to its field, with the
    /// defaults filled in.
    pub fn field_or_default(order_by: Option<CommonOrderInput>) -> (field: CommonOrderField)
        ensures
            field == Self::resolved_field(order_by),
    {
        match order_by {
            Some(order) => match order.field {
                Some(field) => field,
                None => CommonOrderField::Id,
            },
            None => CommonOrderField::Id,
        }
    }
}

} // verus!
