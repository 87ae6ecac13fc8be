//! The failures of the service, by kind, each with the message shown to the
//! caller.

use vstd::prelude::*;
use vstd::string::*;
use crate::ids::{uuid_text, Uuid};

verus! {

/// The kinds of failure.
#[derive(Clone, Copy, Debug, PartialEq, Eq, Structural)]
pub enum ErrorKind {
    /// An id lookup failed. A storage error during the lookup looks the
    /// same.
    NotFound,
    /// A referenced product variant or owner is not in the local projection.
    ValidationFailed,
    /// The caller identity does not match the resolved owner.
    Unauthorized,
    /// A write did not report success.
    StorageOperationFailed,
    /// The topic of an inbound event is not one this service handles.
    UnroutableEvent,
}

/// A failure of a query, a mutation or an event delivery.
#[derive(Clone, Copy, Debug, PartialEq, Eq, Structural)]
pub enum CartError {
    /// No shopping cart is stored for the user `id`.
    ShoppingCartNotFound { id: Uuid },
    /// No user `id` is stored.
    UserNotFound { id: Uuid },
    /// No object `id` is stored.
    ObjectNotFound { id: Uuid },
    /// No shopping cart holds an item `id`.
    ShoppingCartItemNotFound { id: Uuid },
    /// The cart of `user_id` holds no item of the product variant.
    ShoppingCartItemOfVariantNotFound { product_variant_id: Uuid, user_id: Uuid },
    /// A user document that should carry the matched item carries none.
    ProjectionFailed,
    /// The product variant `id` is not known to this service.
    ProductVariantNotPresent { id: Uuid },
    /// The user `id`, to whose cart a mutation refers, is not known to this
    /// service.
    UserNotPresent { id: Uuid },
    /// The lookup of a batch of product variants failed.
    ProductVariantsNotPresent,
    /// The caller is absent or is not the owner `owner`.
    Unauthorized { owner: Uuid },
    /// Replacing the items of the cart of user `id` failed.
    UpdateShoppingCartFailed { id: Uuid },
    /// Adding the item `id` to its cart failed.
    AddShoppingCartItemFailed { id: Uuid },
    /// Updating the count of item `id` failed.
    UpdateShoppingCartItemFailed { id: Uuid },
    /// Deleting the item `id` failed.
    DeleteShoppingCartItemFailed { id: Uuid },
    /// Listing the shopping carts of a user failed.
    RetrievingShoppingCartsFailed,
    /// Applying an event to the projection failed.
    EventNotApplied,
    /// The event's topic is not handled here.
    UnroutableEvent,
}

impl CartError {
    /// The kind of the failure.
    pub open spec fn spec_kind(self) -> ErrorKind {
        match self {
            CartError::ShoppingCartNotFound { .. } => ErrorKind::NotFound,
            CartError::UserNotFound { .. } => ErrorKind::NotFound,
            CartError::ObjectNotFound { .. } => ErrorKind::NotFound,
            CartError::ShoppingCartItemNotFound { .. } => ErrorKind::NotFound,
            CartError::ShoppingCartItemOfVariantNotFound { .. } => ErrorKind::NotFound,
            CartError::ProjectionFailed => ErrorKind::NotFound,
            CartError::ProductVariantNotPresent { .. } => ErrorKind::ValidationFailed,
            CartError::ProductVariantsNotPresent => ErrorKind::ValidationFailed,
            CartError::UserNotPresent { .. } => ErrorKind::ValidationFailed,
            CartError::Unauthorized { .. } => ErrorKind::Unauthorized,
            CartError::UpdateShoppingCartFailed { .. } => ErrorKind::StorageOperationFailed,
            CartError::AddShoppingCartItemFailed { .. } => ErrorKind::StorageOperationFailed,
            CartError::UpdateShoppingCartItemFailed { .. } => ErrorKind::StorageOperationFailed,
            CartError::DeleteShoppingCartItemFailed { .. } => ErrorKind::StorageOperationFailed,
            CartError::RetrievingShoppingCartsFailed => ErrorKind::StorageOperationFailed,
            CartError::EventNotApplied => ErrorKind::StorageOperationFailed,
            CartError::UnroutableEvent => ErrorKind::UnroutableEvent,
        }
    }

    /// The kind of the failure.
    #[verifier::when_used_as_spec(spec_kind)]
    pub fn kind(self) -> (kind: ErrorKind)
        ensures
            kind == self.spec_kind(),
    {
        match self {
            CartError::ShoppingCartNotFound { .. } => ErrorKind::NotFound,
            CartError::UserNotFound { .. } => ErrorKind::NotFound,
            CartError::ObjectNotFound { .. } => ErrorKind::NotFound,
            CartError::ShoppingCartItemNotFound { .. } => ErrorKind::NotFound,
            CartError::ShoppingCartItemOfVariantNotFound { .. } => ErrorKind::NotFound,
            CartError::ProjectionFailed => ErrorKind::NotFound,
            CartError::ProductVariantNotPresent { .. } => ErrorKind::ValidationFailed,
            CartError::ProductVariantsNotPresent => ErrorKind::ValidationFailed,
            CartError::UserNotPresent { .. } => ErrorKind::ValidationFailed,
            CartError::Unauthorized { .. } => ErrorKind::Unauthorized,
            CartError::UpdateShoppingCartFailed { .. } => ErrorKind::StorageOperationFailed,
            CartError::AddShoppingCartItemFailed { .. } => ErrorKind::StorageOperationFailed,
            CartError::UpdateShoppingCartItemFailed { .. } => ErrorKind::StorageOperationFailed,
            CartError::DeleteShoppingCartItemFailed { .. } => ErrorKind::StorageOperationFailed,
            CartError::RetrievingShoppingCartsFailed => ErrorKind::StorageOperationFailed,
            CartError::EventNotApplied => ErrorKind::StorageOperationFailed,
            CartError::UnroutableEvent => ErrorKind::UnroutableEvent,
        }
    }

    /// The text of the message: fixed words around the identities that the
    /// failure is about.
    pub open spec fn message_text(self) -> Seq<char> {
        match self {
            CartError::ShoppingCartNotFound { id } => "ShoppingCart with UUID: `"@ + uuid_text(
                id.value,
            ) + "` not found."@,
            CartError::UserNotFound { id } => "User with UUID: `"@ + uuid_text(id.value)
                + "` not found."@,
            CartError::ObjectNotFound { id } => "Object with UUID: `"@ + uuid_text(id.value)
                + "` not found."@,
            CartError::ShoppingCartItemNotFound { id } => "ShoppingCartItem of UUID: `"@
                + uuid_text(id.value) + "` not found."@,
            CartError::ShoppingCartItemOfVariantNotFound { product_variant_id, user_id } =>
                "ShoppingCartItem referencing product variant of UUID: `"@ + uuid_text(
                product_variant_id.value,
            ) + "` in shopping cart of user with UUID: `"@ + uuid_text(user_id.value)
                + "` not found."@,
            CartError::ProjectionFailed =>
                "Projection failed, shoppingcart item could not be extracted from user."@,
            CartError::ProductVariantNotPresent { id } => "Product variant with the UUID: `"@
                + uuid_text(id.value) + "` is not present in the system."@,
            CartError::ProductVariantsNotPresent =>
                "Product variants with the specified UUIDs are not present in the system."@,
            CartError::UserNotPresent { id } => "User with the UUID: `"@ + uuid_text(id.value)
                + "` is not present in the system."@,
            CartError::Unauthorized { owner } =>
                "Authorization failed: operation is not permitted on the shopping cart of user with UUID: `"@
                + uuid_text(owner.value) + "`."@,
            CartError::UpdateShoppingCartFailed { id } =>
                "Updating product_variant_ids of shoppingcart of id: `"@ + uuid_text(id.value)
                + "` failed in MongoDB."@,
            CartError::AddShoppingCartItemFailed { id } => "Add shoppingcart item of id: `"@
                + uuid_text(id.value) + "` failed in MongoDB."@,
            CartError::UpdateShoppingCartItemFailed { id } =>
                "Updating count of shoppingcart item of id: `"@ + uuid_text(id.value)
                + "` failed in MongoDB."@,
            CartError::DeleteShoppingCartItemFailed { id } =>
                "Deleting shoppingcart item of id: `"@ + uuid_text(id.value)
                + "` failed in MongoDB."@,
            CartError::RetrievingShoppingCartsFailed =>
                "Retrieving shoppingcarts failed in MongoDB."@,
            CartError::EventNotApplied => "Applying the event to the projection failed."@,
            CartError::UnroutableEvent => "Event topic is not handled by this service."@,
        }
    }

    /// The message of the failure, naming the offending identity.
    pub fn message(&self) -> (text: String)
        ensures
            text@ == self.message_text(),
    {
        match self {
            CartError::ShoppingCartNotFound { id } => around(
                "ShoppingCart with UUID: `",
                *id,
                "` not found.",
            ),
            CartError::UserNotFound { id } => around("User with UUID: `", *id, "` not found."),
            CartError::ObjectNotFound { id } => around("Object with UUID: `", *id, "` not found."),
            CartError::ShoppingCartItemNotFound { id } => around(
                "ShoppingCartItem of UUID: `",
                *id,
                "` not found.",
            ),
            CartError::ShoppingCartItemOfVariantNotFound { product_variant_id, user_id } => {
                let mut text = around(
                    "ShoppingCartItem referencing product variant of UUID: `",
                    *product_variant_id,
                    "` in shopping cart of user with UUID: `",
                );
                let user = user_id.to_text();
                text.append(user.as_str());
                text.append("` not found.");
                text
            },
            CartError::ProjectionFailed => String::from_str(
                "Projection failed, shoppingcart item could not be extracted from user.",
            ),
            CartError::ProductVariantNotPresent { id } => around(
                "Product variant with the UUID: `",
                *id,
                "` is not present in the system.",
            ),
            CartError::ProductVariantsNotPresent => String::from_str(
                "Product variants with the specified UUIDs are not present in the system.",
            ),
            CartError::UserNotPresent { id } => around(
                "User with the UUID: `",
                *id,
                "` is not present in the system.",
            ),
            CartError::Unauthorized { owner } => around(
                "Authorization failed: operation is not permitted on the shopping cart of user with UUID: `",
                *owner,
                "`.",
            ),
            CartError::UpdateShoppingCartFailed { id } => around(
                "Updating product_variant_ids of shoppingcart of id: `",
                *id,
                "` failed in MongoDB.",
            ),
            CartError::AddShoppingCartItemFailed { id } => around(
                "Add shoppingcart item of id: `",
                *id,
                "` failed in MongoDB.",
            ),
            CartError::UpdateShoppingCartItemFailed { id } => around(
                "Updating count of shoppingcart item of id: `",
                *id,
                "` failed in MongoDB.",
            ),
            CartError::DeleteShoppingCartItemFailed { id } => around(
                "Deleting shoppingcart item of id: `",
                *id,
                "` failed in MongoDB.",
            ),
            CartError::RetrievingShoppingCartsFailed => String::from_str(
                "Retrieving shoppingcarts failed in MongoDB.",
            ),
            CartError::EventNotApplied => String::from_str(
                "Applying the event to the projection failed.",
            ),
            CartError::UnroutableEvent => String::from_str(
                "Event topic is not handled by this service.",
            ),
        }
    }

    /// The transport status with which a failed event delivery is answered:
    /// a server error, which the bus takes as a request to deliver again.
    pub fn status_code(&self) -> (status: u16)
        ensures
            status == 500,
    {
        500
    }
}

/// The text of `id` between two fixed pieces of text.
fn around(before: &str, id: Uuid, after: &str) -> (text: String)
    ensures
        text@ == before@ + uuid_text(id.value) + after@,
{
    let mut text = String::from_str(before);
    let middle = id.to_text();
    text.append(middle.as_str());
    text.append(after);
    text
}

} // verus!
