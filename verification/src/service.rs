//! What each request is answered with.
//!
//! The program around the library does the outside work of a request: it
//! runs a statement on the database, or asks the remote source. It hands the
//! outcome to the function of the request here, which decides the reply.
//! Whatever went wrong outside, and whatever is wrong with what came back,
//! the reply is the same server error.

use crate::orders::{orders_of_rows, Order};
use crate::products::{product_total_sales_of_rows, ProductTotalSales};
use crate::records::User;
use crate::value::SqlValue;
use vstd::prelude::*;

verus! {

/// The file of the database.
pub const DATABASE_PATH: &'static str = "../rust_prac03/northwind.db";

/// The address of the remote source of users.
pub const USERS_URL: &'static str = "https://jsonplaceholder.typicode.com/users";

/// The status code of a reply that succeeded.
pub const STATUS_OK: u16 = 200;

/// The status code of the server error.
pub const STATUS_SERVER_ERROR: u16 = 500;

/// What went wrong in the outside work of a request.
#[derive(Debug, Clone, Copy, PartialEq, Eq)]
pub enum Failure {
    /// The database could not be opened.
    Open,
    /// A statement could not be prepared or run, or a row of its result
    /// could not be taken.
    Query,
    /// The remote source could not be reached.
    Remote,
    /// What the remote source sent is not a list of users.
    Decode,
}

/// The reply to a request: success with a body, or the server error, which
/// carries nothing.
#[derive(Debug, Clone, PartialEq, Eq)]
pub enum Reply<T> {
    Success(T),
    ServerError,
}

impl<T: DeepView> DeepView for Reply<T> {
    type V = Reply<T::V>;

    open spec fn deep_view(&self) -> Reply<T::V> {
        match self {
            Reply::Success(body) => Reply::Success(body.deep_view()),
            Reply::ServerError => Reply::ServerError,
        }
    }
}

impl<T> Reply<T> {
    /// The status code of the reply.
    pub fn status(&self) -> (code: u16)
        ensures
            code == if self is Success {
                STATUS_OK
            } else {
                STATUS_SERVER_ERROR
            },
    {
        match self {
            Reply::Success(_) => STATUS_OK,
            Reply::ServerError => STATUS_SERVER_ERROR,
        }
    }
}

/// Answers `GET /orders`, given the rows that the database gave for
/// [`SELECT_ORDERS_SQL`](crate::orders::SELECT_ORDERS_SQL): the orders that
/// the rows stand for, in the order of the rows, which is the order that the
/// statement asks of the database. The server error where the rows could not
/// be had, or one of them stands for no order.
pub fn get_orders(fetched: Result<Vec<Vec<SqlValue>>, Failure>) -> (reply: Reply<Vec<Order>>)
    ensures
        match fetched {
            Ok(rows) => match orders_of_rows(rows.deep_view()) {
                Ok(orders) => reply.deep_view() == Reply::Success(orders),
                Err(_) => reply is ServerError,
            },
            Err(_) => reply is ServerError,
        },
{
    match fetched {
        Ok(rows) => match Order::fetch_orders(&rows) {
            Ok(orders) => Reply::Success(orders),
            Err(_) => Reply::ServerError,
        },
        Err(_) => Reply::ServerError,
    }
}

/// Answers `GET /product_total_sales`, given the rows that the database gave
/// for
/// [`SELECT_PRODUCT_TOTAL_SALES_SQL`](crate::products::SELECT_PRODUCT_TOTAL_SALES_SQL):
/// the total sales that the rows stand for, in the order of the rows, which
/// is the order that the statement asks of the database. The server error
/// where the rows could not be had, or one of them stands for none.
pub fn get_prod_total_sales(fetched: Result<Vec<Vec<SqlValue>>, Failure>) -> (reply: Reply<
    Vec<ProductTotalSales>,
>)
    ensures
        match fetched {
            Ok(rows) => match product_total_sales_of_rows(rows.deep_view()) {
                Ok(totals) => reply.deep_view() == Reply::Success(totals),
                Err(_) => reply is ServerError,
            },
            Err(_) => reply is ServerError,
        },
{
    match fetched {
        Ok(rows) => match ProductTotalSales::fetch_prod_total(&rows) {
            Ok(totals) => Reply::Success(totals),
            Err(_) => Reply::ServerError,
        },
        Err(_) => Reply::ServerError,
    }
}

/// Answers `GET /users`, given the users that were made of what the remote
/// source at [`USERS_URL`] sent: those users, as they came. The server error
/// where the source could not be reached, or sent something else than a list
/// of users.
pub fn get_users(fetched: Result<Vec<User>, Failure>) -> (reply: Reply<Vec<User>>)
    ensures
        match fetched {
            Ok(users) => reply == Reply::Success(users),
            Err(_) => reply is ServerError,
        },
{
    match fetched {
        Ok(users) => Reply::Success(users),
        Err(_) => Reply::ServerError,
    }
}

/// Answers `POST /orders`, given how the statement that records the fixed
/// order went, that of [`Order::insert_order`] for [`Order::fixed`]: success
/// with an empty body where the database took it, the server error where it
/// did not. Nothing of the request is read.
pub fn insert_order(executed: Result<(), Failure>) -> (reply: Reply<()>)
    ensures
        match executed {
            Ok(_) => reply == Reply::Success(()),
            Err(_) => reply is ServerError,
        },
{
    match executed {
        Ok(_) => Reply::Success(()),
        Err(_) => Reply::ServerError,
    }
}

} // verus!
