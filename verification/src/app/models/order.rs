use vstd::prelude::*;
use crate::app::utils::code::{is_sid, sid_creator};
use crate::app::utils::time::formatted_time;

verus! {

/// An order of one product by one user: where to deliver it, and when it was placed,
/// delivered and closed.
#[derive(Debug)]
pub struct Order {
    pub sid: String,
    pub product_sid: String,
    pub user_sid: String,
    pub user_address: String,
    pub postal_code: String,
    pub created_at: String,
    pub arrived_at: Option<String>,
    pub finished_at: Option<String>,
}

impl Order {
    /// A new order placed at the time `created_at`, not yet delivered, with a fresh
    /// 25-character identifier.
    pub fn new_at(
        product_sid: String,
        user_sid: String,
        user_address: String,
        postal_code: String,
        created_at: String,
    ) -> (o: Self)
        ensures
            is_sid(o.sid@, 25),
            o.product_sid == product_sid,
            o.user_sid == user_sid,
            o.user_address == user_address,
            o.postal_code == postal_code,
            o.created_at == created_at,
            o.arrived_at is None,
            o.finished_at is None,
    {
        let sid = sid_creator(25);
        Self { sid, product_sid, user_sid, user_address, postal_code, created_at, arrived_at: None, finished_at: None }
    }

    /// A new order, placed now (the clock's time, as `formatted_time` writes it), not yet
    /// delivered, with a fresh 25-character identifier.
    pub fn new(product_sid: String, user_sid: String, user_address: String, postal_code: String) -> (o: Self)
        ensures
            is_sid(o.sid@, 25),
            o.product_sid == product_sid,
            o.user_sid == user_sid,
            o.user_address == user_address,
            o.postal_code == postal_code,
            o.arrived_at is None,
            o.finished_at is None,
    {
        Self::new_at(product_sid, user_sid, user_address, postal_code, formatted_time())
    }
}

impl Order {
    /// A copy of the order.
    pub fn copy(&self) -> (c: Self)
        ensures
            c == *self,
    {
        Order {
            sid: self.sid.clone(),
            product_sid: self.product_sid.clone(),
            user_sid: self.user_sid.clone(),
            user_address: self.user_address.clone(),
            postal_code: self.postal_code.clone(),
            created_at: self.created_at.clone(),
            arrived_at: copy_text(&self.arrived_at),
            finished_at: copy_text(&self.finished_at),
        }
    }
}

/// A copy of an optional text.
pub fn copy_text(t: &Option<String>) -> (c: Option<String>)
    ensures
        c == *t,
{
    match t {
        Some(s) => Some(s.clone()),
        None => None,
    }
}

} // verus!
