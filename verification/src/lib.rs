//! Query construction and result mapping for tree-shaped field selections over
//! relational tables.
//!
//! A [`selection::Selection`] names the fields a caller wants of an
//! [`entity::Entity`] together with the arguments `filter`, `order`, `limit`,
//! `offset` and `primaryKey`. [`loading::LoadingHandler`] turns it into one
//! [`query::Query`], and, once the rows are back, into output values that follow
//! the order in which the fields were asked for.

pub mod backend;
pub mod context;
pub mod entity;
pub mod error;
pub mod filter;
pub mod key;
pub mod loading;
pub mod order;
pub mod query;
pub mod resolve;
pub mod schema;
pub mod select;
pub mod selection;
pub mod text;
pub mod value;
