//! Read-side projection service for an ERP application dictionary.
//!
//! The library projects change-data-capture events describing ERP metadata
//! (menus, windows, processes, forms, browsers, menu trees, roles) into a
//! search-store model as per-audience documents, and assembles
//! authorization-aware read results: localized menus filtered by the caller's
//! role, and dictionary objects looked up by identifier or free-text search.

pub mod errors;
pub mod text;
pub mod value;
pub mod indexes;
pub mod dictionary;
pub mod role;
pub mod form;
pub mod generic;
pub mod menu_item;
pub mod process;
pub mod browser;
pub mod window;
pub mod menu_tree;
pub mod sort;
pub mod ordering;
pub mod menu;
pub mod document;
pub mod store;
pub mod pipeline;
pub mod queries;
