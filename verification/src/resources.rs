//! The API's endpoints, one module per resource group. Each module defines
//! its operations, the response types they decode into, and the handles
//! that build the operations.

pub mod account;
pub mod chats;
pub mod contact_card;
pub mod contacts;
pub mod facetime;
pub mod groups;
pub mod location;
pub mod numbers;
pub mod phone_numbers;
pub mod webhooks;
