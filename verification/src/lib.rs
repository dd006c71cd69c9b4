//! Entities of a small marketplace (users, businesses, products, orders),
//! the rules that decide whether untrusted text may become one of them, and
//! the decisions of the two registration requests built on those rules.
//!
//! Every entity has a trusted constructor `new`, which assembles a value from
//! whatever it is given, and a validating constructor `create`, which checks
//! the entity's rules in a fixed order and reports the first one that fails.

pub mod amount;
pub mod business;
pub mod formats;
pub mod handler;
pub mod order;
pub mod product;
pub mod reasons;
pub mod rules;
pub mod texts;
pub mod user;

pub use business::Business;
pub use order::Order;
pub use product::Product;
pub use user::User;
