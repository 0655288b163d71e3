//! The vocabulary of the request handlers.
//!
//! Each handler is a state machine. It starts from what the client sent, names the outside
//! operation it needs (an `Action`: a database query or write, a cache access, a text
//! message, a piece of an upload), and for each `Outcome` of that operation decides the next
//! operation or the `Response`. The server performs the operations and feeds the outcomes
//! back; the decisions are all here.
use vstd::prelude::*;
use crate::app::models::order::Order;
use crate::app::models::product::Product;
use crate::app::models::user::{Seller, User};
use crate::app::models::Images;

verus! {

pub const OK: u16 = 200;
pub const CREATED: u16 = 201;
pub const BAD_REQUEST: u16 = 400;
pub const UNAUTHORIZED: u16 = 401;
pub const NOT_FOUND: u16 = 404;
pub const INTERNAL_SERVER_ERROR: u16 = 500;

/// The stored collections.
#[derive(PartialEq, Eq, Structural)]
pub enum Collection {
    Users,
    Sellers,
    Products,
    Images,
}

/// Which documents a query or a write selects.
pub enum Filter {
    /// `{"phone_number": ..}`
    Phone(String),
    /// `{"sid": ..}`
    Sid(String),
    /// `{"national_code": ..}`
    NationalCode(String),
    /// `{"sid": seller_sid, "unscheduled_orders.sid": order_sid}`
    SellerUnscheduledOrder { seller_sid: String, order_sid: String },
    /// `{"orders.sid": ..}`
    HoldsOrder(String),
    /// `{"sid": user_sid, "orders.sid": order_sid}`
    UserOrder { user_sid: String, order_sid: String },
    /// `{"sid": user_sid, "scheduled_orders.sid": order_sid}`
    UserScheduledOrder { user_sid: String, order_sid: String },
}

/// How an update changes the selected document.
pub enum Change {
    /// `{"is_verified": true}`
    Verified,
    /// `{"password": ..}`
    Password(String),
    /// `{"title": .., "description": .., "price": .., "discount": ..}`
    ProductFields { title: String, description: String, price: u32, discount: Option<u32> },
    /// `{"$push": {"unscheduled_orders": order}}`
    PushUnscheduledOrder(Order),
    /// `{"$push": {"orders": order}}`
    PushOrder(Order),
    /// `{"$pull": {"unscheduled_orders": {"sid": order_sid}}, "$push": {"ongoing_orders": order}}`
    ScheduleOrder { order_sid: String, order: Order },
    /// `{"$set": {"orders.$.arrived_at": ..}}`
    SetArrival(String),
    /// `{"$pull": {"scheduled_orders": {"sid": order_sid}}, "$push": {"finished_orders": order}}`
    FinishOrder { order_sid: String, order: Order },
    /// `{"$pull": {"orders": {"sid": ..}}}`
    PullOrder(String),
}

/// A stored record.
pub enum Record {
    User(User),
    Seller(Seller),
    Product(Product),
    Image(Images),
}

/// An outside operation that a handler needs done.
pub enum Action {
    /// Find one document of the collection, read as the collection's record.
    FindOne(Collection, Filter),
    /// Read the newest twenty products (by insertion), of one seller or of all.
    FindRecentProducts(Option<String>),
    /// Store the record in the collection.
    Insert(Collection, Record),
    /// Update the first document that the filter selects.
    Update(Collection, Filter, Change),
    /// Delete the first document that the filter selects.
    Delete(Collection, Filter),
    /// Read a value of the cache.
    CacheGet(String),
    /// Remove a value of the cache.
    CacheDelete(String),
    /// Store a value in the cache for the given number of seconds.
    CachePut { key: String, value: String, seconds: u64 },
    /// Send a text message to a mobile number.
    SendSms { text: String, mobile: String },
    /// Read the next field of the uploaded form.
    NextField,
    /// Read the bytes of the current field.
    ReadField,
    /// Write the bytes of the current field to the file at the path.
    WriteFile(String),
}

/// One item that a listing of products yields.
pub enum Listed {
    /// The cursor reported an error for this item.
    Unreadable,
    /// The item does not read as a product.
    Undecodable,
    Item(Product),
}

/// What came of an outside operation.
pub enum Outcome {
    /// The operation reported an error; the text is the error's.
    Failed(String),
    /// A query selected no document.
    NotFound,
    /// A query selected a document that does not read as the collection's record.
    Undecodable(String),
    /// A query selected this record.
    Found(Record),
    /// An update selected and modified these numbers of documents.
    Updated { matched: u64, modified: u64 },
    /// A delete removed this number of documents.
    Deleted(u64),
    /// A write, a cache change, a message or a file write succeeded.
    Done,
    /// A cache read gave this value.
    Text(String),
    /// A product listing gave these items.
    Listing(Vec<Listed>),
    /// The form's next field, with its name and content type.
    Field { name: String, content_type: Option<String> },
    /// The form has no more fields.
    NoField,
}

/// The body of a reply: `{"message": ..}` or `{"error": ..}`.
pub enum Body {
    Message(String),
    Error(String),
    Products(Vec<Product>),
    Product(Product),
    Sids(Vec<String>),
}

/// A reply: an HTTP status and a body.
pub struct Response {
    pub status: u16,
    pub body: Body,
}

/// What a handler does next: an operation, with the state to resume from, or its reply.
pub enum Step<S> {
    Next(S, Action),
    Reply(Response),
}

pub open spec fn is_error(r: Response, status: u16, text: Seq<char>) -> bool {
    &&& r.status == status
    &&& r.body matches Body::Error(e) && e@ == text
}

pub open spec fn is_message(r: Response, status: u16, text: Seq<char>) -> bool {
    &&& r.status == status
    &&& r.body matches Body::Message(m) && m@ == text
}

/// The step goes on at the stage `next`.
pub open spec fn leads_to<S>(s: Step<S>, next: S) -> bool {
    s matches Step::Next(t, _) && t == next
}

/// The step is the reply `{"error": text}` with the status.
pub open spec fn replies_error<S>(s: Step<S>, status: u16, text: Seq<char>) -> bool {
    s matches Step::Reply(r) && is_error(r, status, text)
}

/// The step is the reply `{"message": text}` with the status.
pub open spec fn replies_message<S>(s: Step<S>, status: u16, text: Seq<char>) -> bool {
    s matches Step::Reply(r) && is_message(r, status, text)
}

/// The step replies with the error text carried by `e`.
pub open spec fn replies_with<S>(s: Step<S>, status: u16, e: String) -> bool {
    s == Step::<S>::Reply(Response { status, body: Body::Error(e) })
}

pub fn error_reply<S>(status: u16, text: &str) -> (s: Step<S>)
    ensures
        replies_error(s, status, text@),
{
    Step::Reply(Response { status, body: Body::Error(String::from_str(text)) })
}

pub fn message_reply<S>(status: u16, text: &str) -> (s: Step<S>)
    ensures
        replies_message(s, status, text@),
{
    Step::Reply(Response { status, body: Body::Message(String::from_str(text)) })
}

pub fn reply_message_with<S>(status: u16, text: String) -> (s: Step<S>)
    ensures
        s == Step::<S>::Reply(Response { status, body: Body::Message(text) }),
{
    Step::Reply(Response { status, body: Body::Message(text) })
}

pub fn reply_with<S>(status: u16, e: String) -> (s: Step<S>)
    ensures
        replies_with(s, status, e),
{
    Step::Reply(Response { status, body: Body::Error(e) })
}

/// The outcome is a found user.
pub open spec fn found_user(o: Outcome) -> bool {
    o matches Outcome::Found(Record::User(_))
}

/// The outcome is a found seller.
pub open spec fn found_seller(o: Outcome) -> bool {
    o matches Outcome::Found(Record::Seller(_))
}

/// The outcome is a found product.
pub open spec fn found_product(o: Outcome) -> bool {
    o matches Outcome::Found(Record::Product(_))
}

/// The outcome is a found image.
pub open spec fn found_image(o: Outcome) -> bool {
    o matches Outcome::Found(Record::Image(_))
}

} // verus!
