//! The endpoints of the API, group by group.

pub mod character;
