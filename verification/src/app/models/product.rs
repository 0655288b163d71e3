use vstd::prelude::*;
use crate::app::utils::code::{is_sid, sid_creator};
use crate::app::utils::time::formatted_time;

verus! {

/// A product that a seller offers.
pub struct Product {
    pub sid: String,
    pub seller_sid: String,
    pub title: String,
    pub description: String,
    pub price: u32,
    pub discount: Option<u32>,
    pub product_images: Option<Vec<String>>,
    pub created_at: String,
    pub updated_at: String,
}

impl Product {
    /// A new product of the given seller, created and last updated at the time `now`, with a
    /// fresh 40-character identifier.
    pub fn new_at(
        seller_sid: String,
        title: String,
        description: String,
        price: u32,
        discount: Option<u32>,
        product_images: Option<Vec<String>>,
        now: String,
    ) -> (p: Self)
        ensures
            p.created_at == now,
            p.updated_at == now,
            is_sid(p.sid@, 40),
            p.seller_sid == seller_sid,
            p.title == title,
            p.description == description,
            p.price == price,
            p.discount == discount,
            p.product_images == product_images,
            p.created_at == p.updated_at,
    {
        let sid = sid_creator(40);
        Self {
            sid,
            seller_sid,
            title,
            description,
            price,
            discount,
            product_images,
            created_at: now.clone(),
            updated_at: now.clone(),
        }
    }

    /// A new product of the given seller, created and last updated now (the clock's time, as
    /// `formatted_time` writes it), with a fresh 40-character identifier.
    pub fn new(
        seller_sid: String,
        title: String,
        description: String,
        price: u32,
        discount: Option<u32>,
        product_images: Option<Vec<String>>,
    ) -> (p: Self)
        ensures
            is_sid(p.sid@, 40),
            p.seller_sid == seller_sid,
            p.title == title,
            p.description == description,
            p.price == price,
            p.discount == discount,
            p.product_images == product_images,
            p.created_at == p.updated_at,
    {
        Self::new_at(seller_sid, title, description, price, discount, product_images, formatted_time())
    }
}

} // verus!
