//! The verified core of Mercato, a marketplace of listings on the AT
//! Protocol: the texts and link facets of the posts it publishes, the
//! AT-URIs of listings, the records built from its forms, the statements
//! its index runs, the order of its feed, and the decisions of its request
//! handlers about sessions.
pub mod access;
pub mod feed;
pub mod forms;
pub mod home;
pub mod instant;
pub mod lexicons;
pub mod listing;
pub mod page;
pub mod posts;
pub mod publish;
pub mod search;
pub mod session;
pub mod steps;
pub mod store;
pub mod text;
pub mod uris;
pub mod views;
