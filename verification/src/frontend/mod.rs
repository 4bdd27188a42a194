//! The browser side: the state of the page and how messages change it.

pub mod frontend_types;
pub mod model;
pub mod sorting;
pub mod update;
pub mod http_bits;
pub mod routes;
pub mod breadcrumbs;
pub mod navigation;
pub mod stars;
pub mod views;
