//! The rows of the relational store, and how records turn into rows and
//! back. The queries themselves are not part of this library.

pub mod models;
