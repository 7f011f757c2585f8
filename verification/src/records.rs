//! The customer and user records, each with its mathematical view.

use vstd::prelude::*;

verus! {

/// A customer of the local database.
#[derive(Debug, Clone, PartialEq, Eq)]
pub struct Customer {
    pub customer_id: String,
    pub company_name: String,
    pub contact_name: String,
}

/// The mathematical view of a [`Customer`].
pub struct CustomerView {
    pub customer_id: Seq<char>,
    pub company_name: Seq<char>,
    pub contact_name: Seq<char>,
}

impl View for Customer {
    type V = CustomerView;

    open spec fn view(&self) -> CustomerView {
        CustomerView {
            customer_id: self.customer_id@,
            company_name: self.company_name@,
            contact_name: self.contact_name@,
        }
    }
}

impl DeepView for Customer {
    type V = CustomerView;

    open spec fn deep_view(&self) -> CustomerView {
        self@
    }
}

/// A user of the remote source.
#[derive(Debug, Clone, PartialEq, Eq)]
pub struct User {
    pub id: u32,
    pub name: String,
    pub email: String,
    pub username: String,
}

/// The mathematical view of a [`User`].
pub struct UserView {
    pub id: u32,
    pub name: Seq<char>,
    pub email: Seq<char>,
    pub username: Seq<char>,
}

impl View for User {
    type V = UserView;

    open spec fn view(&self) -> UserView {
        UserView { id: self.id, name: self.name@, email: self.email@, username: self.username@ }
    }
}

impl DeepView for User {
    type V = UserView;

    open spec fn deep_view(&self) -> UserView {
        self@
    }
}

} // verus!
