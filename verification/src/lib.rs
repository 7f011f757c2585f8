//! The rules of a small order service, stated and proved.
//!
//! The service answers four requests: it lists orders, lists the total sales
//! of products, records one fixed order, and passes on a list of users from a
//! remote source. Talking to the database and to the network is left to the
//! program around this library. What the library holds is everything that is
//! decided in between: how a row of the database becomes a record and a
//! record a row, which statement records an order, and what each request is
//! answered with for every outcome of the outside work.
//!
//! - [`value`]: the values of the database and their conversions;
//! - [`rows`]: reading a row column by column, and a listing row by row;
//! - [`orders`], [`products`], [`records`]: the records, with the statements
//!   that list and record them;
//! - [`service`]: the reply to each request;
//! - [`laws`]: what holds across these.

pub mod laws;
pub mod orders;
pub mod products;
pub mod records;
pub mod rows;
pub mod service;
pub mod value;
