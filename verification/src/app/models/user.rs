use vstd::prelude::*;
use crate::app::models::order::Order;
use crate::app::utils::code::{is_sid, sid_creator};
use crate::app::utils::text::join;
use crate::app::utils::time::formatted_time;

verus! {

/// A buyer's account.
pub struct User {
    pub sid: String,
    pub full_name: String,
    pub phone_number: String,
    pub is_verified: bool,
    pub password: String,
    pub created_at: String,
    pub updated_at: String,
    pub restriction: Restriction,
    pub system_notifications: Vec<String>,
    pub orders: Vec<Order>,
}

/// The notice that opens a new user's notifications: "signed up at" and the time.
pub open spec fn signup_notice(now: Seq<char>) -> Seq<char> {
    "ثبت نام در "@ + now
}

/// The notice that opens a new seller's notifications: "seller signed up at" and the time.
pub open spec fn seller_signup_notice(now: Seq<char>) -> Seq<char> {
    "ثبت نام فروشنده در "@ + now
}

impl User {
    /// A new, unverified, unrestricted account created at the time `now`, with a fresh
    /// 30-character identifier, no orders, and one notification that records the sign-up time.
    pub fn new_at(full_name: String, phone_number: String, password: String, now: String) -> (u: Self)
        ensures
            is_sid(u.sid@, 30),
            u.full_name == full_name,
            u.phone_number == phone_number,
            u.password == password,
            !u.is_verified,
            u.created_at == now,
            u.updated_at == now,
            u.restriction is Unrestricted,
            u.system_notifications@.len() == 1,
            u.system_notifications@[0]@ == signup_notice(now@),
            u.orders@.len() == 0,
    {
        let sid = sid_creator(30);
        let notice = join("ثبت نام در ", now.as_str());
        let mut system_notifications = Vec::new();
        system_notifications.push(notice);
        Self {
            sid,
            full_name,
            phone_number,
            is_verified: false,
            password: password,
            created_at: now.clone(),
            updated_at: now.clone(),
            restriction: Restriction::Unrestricted,
            system_notifications,
            orders: Vec::new(),
        }
    }

    /// A new, unverified, unrestricted account created now (the clock's time, as
    /// `formatted_time` writes it), with a fresh 30-character identifier, no orders, and one
    /// notification that records the sign-up time.
    pub fn new(full_name: String, phone_number: String, password: String) -> (u: Self)
        ensures
            is_sid(u.sid@, 30),
            u.full_name == full_name,
            u.phone_number == phone_number,
            u.password == password,
            !u.is_verified,
            u.created_at == u.updated_at,
            u.restriction is Unrestricted,
            u.system_notifications@.len() == 1,
            u.system_notifications@[0]@ == signup_notice(u.created_at@),
            u.orders@.len() == 0,
    {
        Self::new_at(full_name, phone_number, password, formatted_time())
    }
}

/// A seller's account, with the orders of its products by their state.
pub struct Seller {
    pub sid: String,
    pub full_name: String,
    pub password: String,
    pub national_code: String,
    pub national_card_image_sid: String,
    pub bank_card_number: u32,
    pub phone_number: String,
    pub is_verified: bool,
    pub created_at: String,
    pub updated_at: String,
    pub channel: Option<String>,
    pub status: Status,
    pub system_notifications: Vec<String>,
    pub ongoing_orders: Vec<Order>,
    pub finished_orders: Vec<Order>,
    pub unscheduled_orders: Vec<Order>,
}

impl Seller {
    /// A new, unverified seller account in good standing, created at the time `now`, with a
    /// fresh 40-character identifier, no channel, no orders, and one notification that records
    /// the sign-up time.
    pub fn new_at(
        full_name: String,
        phone_number: String,
        password: String,
        national_code: String,
        national_card_image_sid: String,
        bank_card_number: u32,
        now: String,
    ) -> (s: Self)
        ensures
            s.created_at == now,
            s.updated_at == now,
            is_sid(s.sid@, 40),
            s.full_name == full_name,
            s.phone_number == phone_number,
            s.password == password,
            s.national_code == national_code,
            s.national_card_image_sid == national_card_image_sid,
            s.bank_card_number == bank_card_number,
            !s.is_verified,
            s.created_at == s.updated_at,
            s.channel is None,
            s.status is OnGoing,
            s.system_notifications@.len() == 1,
            s.system_notifications@[0]@ == seller_signup_notice(s.created_at@),
            s.ongoing_orders@.len() == 0,
            s.finished_orders@.len() == 0,
            s.unscheduled_orders@.len() == 0,
    {
        let sid = sid_creator(40);
        let notice = join("ثبت نام فروشنده در ", now.as_str());
        let mut system_notifications = Vec::new();
        system_notifications.push(notice);
        Self {
            sid,
            full_name,
            password,
            national_code,
            national_card_image_sid,
            bank_card_number,
            phone_number,
            is_verified: false,
            created_at: now.clone(),
            updated_at: now.clone(),
            channel: None,
            status: Status::OnGoing,
            system_notifications,
            ongoing_orders: Vec::new(),
            finished_orders: Vec::new(),
            unscheduled_orders: Vec::new(),
        }
    }

    /// A new, unverified seller account in good standing, created now (the clock's time, as
    /// `formatted_time` writes it), with a fresh 40-character identifier, no channel, no
    /// orders, and one notification that records the sign-up time.
    pub fn new(
        full_name: String,
        phone_number: String,
        password: String,
        national_code: String,
        national_card_image_sid: String,
        bank_card_number: u32,
    ) -> (s: Self)
        ensures
            is_sid(s.sid@, 40),
            s.full_name == full_name,
            s.phone_number == phone_number,
            s.password == password,
            s.national_code == national_code,
            s.national_card_image_sid == national_card_image_sid,
            s.bank_card_number == bank_card_number,
            !s.is_verified,
            s.created_at == s.updated_at,
            s.channel is None,
            s.status is OnGoing,
            s.system_notifications@.len() == 1,
            s.system_notifications@[0]@ == seller_signup_notice(s.created_at@),
            s.ongoing_orders@.len() == 0,
            s.finished_orders@.len() == 0,
            s.unscheduled_orders@.len() == 0,
    {
        Self::new_at(
            full_name,
            phone_number,
            password,
            national_code,
            national_card_image_sid,
            bank_card_number,
            formatted_time(),
        )
    }
}

/// How far a user's account is restricted.
#[derive(Default)]
pub enum Restriction {
    #[default]
    Unrestricted,
    Sus,
    Nuisance,
}

/// The kind of an account.
pub enum Role {
    User,
    Seller,
}

/// Whether a seller may trade.
pub enum Status {
    Banned,
    OnGoing,
}

/// The record kept of a closed account.
pub struct DeletedAccount {
    pub user_sid: String,
    pub phone_number: String,
    pub deleted_at: String,
    pub role: Role,
    pub reason: String,
}

} // verus!
