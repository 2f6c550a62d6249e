//! Paginated resource access for customers, sellers and orders: the page
//! window arithmetic, the optional equality filters, field validation,
//! partial updates, the repository interface, the services above it and the
//! accounting of a bulk load.

pub mod bulk;
pub mod config;
pub mod error;
pub mod filters;
pub mod memory;
pub mod models;
pub mod pagination;
pub mod repositories;
pub mod services;
pub mod validation;
