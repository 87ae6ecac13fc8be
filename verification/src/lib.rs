//! Shopping cart service core: the cart aggregate, the protocol that keeps it
//! consistent with upstream events, and the ordering and paging of its items.
//!
//! The library performs no input or output. What it needs from the document
//! store it asks for as a `store::StoreRequest` and takes back as a
//! `store::StoreReply`; `store::Database` is a store in memory that answers
//! the same requests.

pub mod ids;
pub mod sequences;
pub mod error;
pub mod order_datatypes;
pub mod shoppingcart_item;
pub mod connection;
pub mod shoppingcart;
pub mod user;
pub mod mutation_input_structs;
pub mod store;
pub mod authorization;
pub mod query;
pub mod mutation;
pub mod http_event_service;
pub mod laws;
