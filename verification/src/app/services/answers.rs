//! What the handlers answer in the cases that decide an account's or an order's fate, stated
//! directly over the inputs and the step taken: reminders to unverified accounts, the
//! acceptance of a matching code, and the orders that scheduling, closing and buying write.
use vstd::prelude::*;
use crate::app::models::dto::{
    AddProductDTO, BuyProductDTO, ForgotPasswordDTO, SellerSignupDTO, SigninDTO, SignupDTO, VerifyDTO,
    VerifyKind,
};
use crate::app::models::order::Order;
use crate::app::models::product::Product;
use crate::app::models::user::{Seller, User};
use crate::app::models::dto::ChangePasswordDTO;
use crate::app::services::auth::{
    change_password_step_ok, forgot_password_step_ok, seller_signup_step_ok,
    seller_signup_with_hash_ok, signin_step_ok, signup_step_ok, signup_with_hash_ok, verify_step_ok,
    ChangePasswordStage, ForgotPasswordStage, SellerSignupStage, SigninStage, SignupStage, VerifyStage,
};
use crate::app::services::sms::{sms_step_ok, SmsStep};
use crate::app::utils::jwt::jwt_signed;
use crate::app::utils::password::bcrypt_verdict;
use crate::app::utils::text::decimal;
use crate::app::services::flow::{Action, Body, Change, Collection, Filter, Outcome, Record, Step};
use crate::app::services::product::{
    add_product_step_ok, buy_product_step_ok, delete_product_step_ok, finished_order_step_ok,
    list_products_step_ok, listed, schedule_order_step_ok, AddProductStage, BuyProductStage,
    DeleteProductStage, FinishedOrderStage, ListingStage, ScheduleOrderStage,
};
use crate::app::services::flow::Listed;
use crate::app::services::sms::{SMSKind, SmsFlow, SmsStage};
use crate::app::utils::code::is_alphanumeric;

verus! {

/// The step that starts sending a code of `kind` to `phone`: read the cache under the number,
/// resuming at `stage` with a flow at its first check.
pub open spec fn code_started<S>(r: Step<S>, stage: S, phone: String, kind: SMSKind) -> bool {
    &&& r matches Step::Next(st, Action::CacheGet(key))
    &&& key == phone
    &&& st == stage
}

/// The step is the reply with the status and `{"error": text}`.
pub open spec fn answers_error<S>(r: Step<S>, status: u16, text: Seq<char>) -> bool {
    &&& r matches Step::Reply(resp)
    &&& resp.status == status
    &&& resp.body matches Body::Error(e)
    &&& e@ == text
}

/// The step is the reply with the status and `{"message": text}`.
pub open spec fn answers_message<S>(r: Step<S>, status: u16, text: Seq<char>) -> bool {
    &&& r matches Step::Reply(resp)
    &&& resp.status == status
    &&& resp.body matches Body::Message(m)
    &&& m@ == text
}

/// A flow of `kind` to `phone` at its first check.
pub open spec fn fresh_flow(phone: String, kind: SMSKind) -> SmsFlow {
    SmsFlow { phone, kind, stage: SmsStage::Checking }
}

/// A user who signed up but never verified, and signs up again, is sent a new sign-up code;
/// a verified one is refused as existing.
pub proof fn signup_reminds_unverified_users(data: SignupDTO, u: User, r: Step<SignupStage>)
    requires
        signup_step_ok(data, SignupStage::UserLookup, Outcome::Found(Record::User(u)), r),
    ensures
        !u.is_verified ==> code_started(
            r,
            SignupStage::Reminding(fresh_flow(u.phone_number, SMSKind::Signup)),
            u.phone_number,
            SMSKind::Signup,
        ),
        u.is_verified ==> answers_error(r, 400, "user already exists"@),
{
}

/// A seller who signed up but never verified, and signs up again, is sent a new sign-up code
/// and never reaches the national-code lookup; a verified seller goes on to it; a number no
/// seller holds goes on to remove the user account with that number.
pub proof fn seller_signup_reminds_unverified_sellers(
    data: SellerSignupDTO,
    o: Outcome,
    r: Step<SellerSignupStage>,
)
    requires
        seller_signup_step_ok(data, SellerSignupStage::SellerLookup, o, r),
    ensures
        o matches Outcome::Found(Record::Seller(s)) ==> (!s.is_verified ==> code_started(
            r,
            SellerSignupStage::Reminding(fresh_flow(s.phone_number, SMSKind::Signup)),
            s.phone_number,
            SMSKind::Signup,
        )),
        o matches Outcome::Found(Record::Seller(s)) ==> (s.is_verified ==> r == Step::Next(
            SellerSignupStage::NationalCodeLookup,
            Action::FindOne(Collection::Sellers, Filter::NationalCode(data.national_code)),
        )),
        (r matches Step::Next(SellerSignupStage::NationalCodeLookup, _)) ==> (o matches Outcome::Found(
            Record::Seller(s),
        ) && s.is_verified),
        o is NotFound ==> r == Step::Next(
            SellerSignupStage::UserRemoval,
            Action::Delete(Collection::Users, Filter::Phone(data.phone_number)),
        ),
{
}

/// Sign-in sends a new sign-up code to an unverified user it finds, goes on to the sellers
/// exactly when no user has the number, and sends a seller sign-up code to an unverified
/// seller.
pub proof fn signin_reminds_unverified_accounts(
    data: SigninDTO,
    stage: SigninStage,
    o: Outcome,
    now: usize,
    r: Step<SigninStage>,
)
    requires
        signin_step_ok(data, stage, o, now, r),
    ensures
        stage is UserLookup ==> (o matches Outcome::Found(Record::User(u)) ==> (!u.is_verified ==> code_started(
            r,
            SigninStage::Reminding(fresh_flow(u.phone_number, SMSKind::Signup)),
            u.phone_number,
            SMSKind::Signup,
        ))),
        stage is UserLookup ==> ((r matches Step::Next(SigninStage::SellerLookup, _)) <==> o is NotFound),
        stage is UserLookup && o is NotFound ==> r == Step::Next(
            SigninStage::SellerLookup,
            Action::FindOne(Collection::Sellers, Filter::Phone(data.phone_number)),
        ),
        stage is SellerLookup ==> (o matches Outcome::Found(Record::Seller(s)) ==> (!s.is_verified ==> code_started(
            r,
            SigninStage::Reminding(fresh_flow(s.phone_number, SMSKind::SellerSignup)),
            s.phone_number,
            SMSKind::SellerSignup,
        ))),
{
}

/// A verification accepts exactly the stored code: where the cached code equals the code
/// sent, whatever its length, the next step removes it under the number; where it differs,
/// the answer is 400 "wrong"; where no code could be read, 404.
pub proof fn verification_accepts_the_stored_code(data: VerifyDTO, o: Outcome, r: Step<VerifyStage>)
    requires
        verify_step_ok(data, VerifyStage::CodeLookup, o, r),
    ensures
        o matches Outcome::Text(code) ==> (code@ == data.code@ ==> r == Step::Next(
            VerifyStage::CodeRemoval,
            Action::CacheDelete(data.phone_number),
        )),
        o matches Outcome::Text(code) ==> (code@ != data.code@ ==> answers_error(r, 400, "wrong"@)),
        !(o is Text) ==> answers_error(r, 404, "not found"@),
        (r matches Step::Next(_, _)) ==> (o matches Outcome::Text(code) && code@ == data.code@),
{
}

/// Once the code is removed, an account verification marks the user with the number
/// verified, and, where no user has it, the seller with the number.
pub proof fn verification_marks_the_account(data: VerifyDTO, stage: VerifyStage, o: Outcome, r: Step<VerifyStage>)
    requires
        verify_step_ok(data, stage, o, r),
        data.kind == VerifyKind::AccountVerification,
    ensures
        stage is CodeRemoval && o is Done ==> r == Step::Next(
            VerifyStage::UserUpdate,
            Action::Update(Collection::Users, Filter::Phone(data.phone_number), Change::Verified),
        ),
        stage is UserUpdate ==> (o matches Outcome::Updated { matched, .. } ==> matched == 0 ==> r == Step::Next(
            VerifyStage::SellerUpdate,
            Action::Update(Collection::Sellers, Filter::Phone(data.phone_number), Change::Verified),
        )),
{
}

/// Password recovery sends an unverified user a sign-up code (at the first lookup) or a
/// seller sign-up code (at the second), and only a verified user the password-change code.
pub proof fn recovery_sends_the_fitting_code(
    data: ForgotPasswordDTO,
    stage: ForgotPasswordStage,
    u: User,
    r: Step<ForgotPasswordStage>,
)
    requires
        forgot_password_step_ok(data, stage, Outcome::Found(Record::User(u)), r),
        stage is FirstLookup || stage is SecondLookup,
    ensures
        stage is FirstLookup && !u.is_verified ==> code_started(
            r,
            ForgotPasswordStage::Reminding(fresh_flow(u.phone_number, SMSKind::Signup)),
            u.phone_number,
            SMSKind::Signup,
        ),
        stage is SecondLookup && !u.is_verified ==> code_started(
            r,
            ForgotPasswordStage::Reminding(fresh_flow(u.phone_number, SMSKind::SellerSignup)),
            u.phone_number,
            SMSKind::SellerSignup,
        ),
        u.is_verified ==> code_started(
            r,
            ForgotPasswordStage::Sending(fresh_flow(u.phone_number, SMSKind::ForgotPassword)),
            u.phone_number,
            SMSKind::ForgotPassword,
        ),
        (r matches Step::Next(ForgotPasswordStage::Sending(_), _)) ==> u.is_verified,
{
}

/// `moved` is `stored` with only the delivery time and the closing time given new values.
pub open spec fn same_order_but_times(moved: Order, stored: Order) -> bool {
    &&& moved.sid == stored.sid
    &&& moved.product_sid == stored.product_sid
    &&& moved.user_sid == stored.user_sid
    &&& moved.user_address == stored.user_address
    &&& moved.postal_code == stored.postal_code
    &&& moved.created_at == stored.created_at
}

/// The first order of `orders` with the identifier `sid` is at `k`.
pub open spec fn first_with_sid(orders: Seq<Order>, sid: Seq<char>, k: int) -> bool {
    &&& 0 <= k < orders.len()
    &&& orders[k].sid@ == sid
    &&& forall|j: int| 0 <= j < k ==> orders[j].sid@ != sid
}

/// Scheduling moves the first unscheduled order with the identifier to the seller's ongoing
/// orders with only its delivery time changed: every other field, the closing time included,
/// is that of the stored order.
pub proof fn scheduling_changes_only_the_delivery_time(
    arrive_at: String,
    order_sid: String,
    user_sid: String,
    s: Seller,
    r: Step<ScheduleOrderStage>,
)
    requires
        schedule_order_step_ok(
            arrive_at,
            order_sid,
            user_sid,
            ScheduleOrderStage::SellerLookup,
            Outcome::Found(Record::Seller(s)),
            r,
        ),
    ensures
        exists|k: int| #[trigger] first_with_sid(s.unscheduled_orders@, order_sid@, k) && {
            let stored = s.unscheduled_orders@[k];
            &&& r matches Step::Next(
                ScheduleOrderStage::SellerUpdate,
                Action::Update(Collection::Sellers, Filter::Sid(x), Change::ScheduleOrder { order_sid: y, order }),
            )
            &&& x == user_sid
            &&& y == order_sid
            &&& same_order_but_times(order, stored)
            &&& order.arrived_at == Some(arrive_at)
            &&& order.finished_at == stored.finished_at
        },
{
    let k = choose|k: int|
        crate::app::services::product::first_order_at(s.unscheduled_orders@, order_sid@, k) && r == Step::Next(
            ScheduleOrderStage::SellerUpdate,
            Action::Update(
                Collection::Sellers,
                Filter::Sid(user_sid),
                Change::ScheduleOrder {
                    order_sid,
                    order: crate::app::services::product::scheduled(s.unscheduled_orders@[k], arrive_at),
                },
            ),
        );
    assert(first_with_sid(s.unscheduled_orders@, order_sid@, k));
}

/// Closing a delivered order moves the first of the user's orders with the identifier to the
/// finished orders of the seller `user_sid` with only its closing time set, to `now`: every
/// other field, the delivery time included, is that of the stored order.
pub proof fn closing_sets_only_the_closing_time(
    order_sid: String,
    user_sid: String,
    u: User,
    now: String,
    r: Step<FinishedOrderStage>,
)
    requires
        finished_order_step_ok(
            order_sid,
            user_sid,
            FinishedOrderStage::UserLookup,
            Outcome::Found(Record::User(u)),
            now,
            r,
        ),
    ensures
        exists|k: int| #[trigger] first_with_sid(u.orders@, order_sid@, k) && {
            let stored = u.orders@[k];
            &&& r matches Step::Next(
                FinishedOrderStage::SellerUpdate,
                Action::Update(Collection::Sellers, Filter::Sid(x), Change::FinishOrder { order_sid: y, order }),
            )
            &&& x == user_sid
            &&& y == order_sid
            &&& same_order_but_times(order, stored)
            &&& order.arrived_at == stored.arrived_at
            &&& order.finished_at == Some(now)
        },
{
    let k = choose|k: int|
        crate::app::services::product::first_order_at(u.orders@, order_sid@, k) && #[trigger] crate::app::services::product::closes_order(
            r,
            user_sid,
            order_sid,
            u.orders@[k],
            now,
        );
    assert(first_with_sid(u.orders@, order_sid@, k));
}

/// `s` is an identifier of `len` ASCII letters and digits.
pub open spec fn identifier_of_length(s: Seq<char>, len: nat) -> bool {
    &&& s.len() == len
    &&& forall|i: int| 0 <= i < s.len() ==> is_alphanumeric(#[trigger] s[i])
}

/// A purchase from an existing seller adds to the seller's unscheduled orders a new order of
/// the product by the buyer, to the address and postal code sent, not yet delivered or closed,
/// with a fresh 25-character identifier.
pub proof fn purchase_writes_the_buyers_order(
    data: BuyProductDTO,
    product_sid: String,
    user_sid: String,
    seller_sid: String,
    s: Seller,
    r: Step<BuyProductStage>,
)
    requires
        buy_product_step_ok(
            data,
            product_sid,
            user_sid,
            BuyProductStage::SellerLookup(seller_sid),
            Outcome::Found(Record::Seller(s)),
            r,
        ),
    ensures
        r matches Step::Next(
            BuyProductStage::SellerPush(kept),
            Action::Update(Collection::Sellers, Filter::Sid(x), Change::PushUnscheduledOrder(order)),
        ) && {
            &&& kept == order
            &&& x == seller_sid
            &&& identifier_of_length(order.sid@, 25)
            &&& order.product_sid == product_sid
            &&& order.user_sid == user_sid
            &&& order.user_address == data.address
            &&& order.postal_code == data.postal_code
            &&& order.arrived_at is None
            &&& order.finished_at is None
        },
{
}

/// A seller that exists gets a new product made of what was sent: its seller, title,
/// description, price, discount and pictures, with a fresh 40-character identifier.
pub proof fn added_products_are_what_was_sent(data: AddProductDTO, user_sid: String, s: Seller, r: Step<AddProductStage>)
    requires
        add_product_step_ok(data, user_sid, AddProductStage::SellerLookup, Outcome::Found(Record::Seller(s)), r),
    ensures
        r matches Step::Next(
            AddProductStage::Inserting,
            Action::Insert(Collection::Products, Record::Product(p)),
        ) && {
            &&& identifier_of_length(p.sid@, 40)
            &&& p.seller_sid == user_sid
            &&& p.title == data.title
            &&& p.description == data.description
            &&& p.price == data.price
            &&& p.discount == data.discount
            &&& match (p.product_images, data.product_images) {
                (Some(a), Some(b)) => a@ == b@,
                (None, None) => true,
                _ => false,
            }
        },
{
}

/// A sign-up goes on to the users only where no seller holds the number, and refuses a
/// number a seller holds.
pub proof fn signup_refuses_sellers_numbers(data: SignupDTO, o: Outcome, r: Step<SignupStage>)
    requires
        signup_step_ok(data, SignupStage::SellerLookup, o, r),
    ensures
        o is NotFound ==> r == Step::Next(
            SignupStage::UserLookup,
            Action::FindOne(Collection::Users, Filter::Phone(data.phone_number)),
        ),
        o matches Outcome::Found(Record::Seller(_)) ==> answers_error(r, 400, "user already exists"@),
        (r matches Step::Next(_, _)) ==> o is NotFound,
{
}

/// After the password is hashed, a sign-up makes the account of what was sent: the name as
/// first name, a space and last name, the number, the hash, unverified, with a fresh
/// 30-character identifier and no orders; and it starts sending a sign-up code to the number.
pub proof fn signup_makes_the_account_sent(data: SignupDTO, hashed: Result<String, ()>, r: Step<SignupStage>)
    requires
        signup_with_hash_ok(data, hashed, r),
    ensures
        hashed is Err ==> answers_error(r, 500, "#SU-P"@),
        hashed matches Ok(h) ==> (r matches Step::Next(SignupStage::Confirming(u, f), Action::CacheGet(key)) && {
            &&& u.full_name@ == data.first_name@ + " "@ + data.last_name@
            &&& u.phone_number == data.phone_number
            &&& u.password == h
            &&& !u.is_verified
            &&& identifier_of_length(u.sid@, 30)
            &&& u.orders@.len() == 0
            &&& f == fresh_flow(data.phone_number, SMSKind::Signup)
            &&& key == data.phone_number
        }),
{
}

/// A sign-up stores the account it made, and only once its code was sent: the step that
/// stores follows a message that went out.
pub proof fn signup_stores_after_the_code_is_sent(
    data: SignupDTO,
    u: User,
    f: SmsFlow,
    o: Outcome,
    r: Step<SignupStage>,
    a: Action,
)
    requires
        signup_step_ok(data, SignupStage::Confirming(u, f), o, r),
        r == Step::Next(SignupStage::Inserting, a),
    ensures
        a == Action::Insert(Collection::Users, Record::User(u)),
        f.stage is Sending,
        o is Done,
{
    let sr = choose|sr: SmsStep| #[trigger] sms_step_ok(f, o, sr) && match sr {
        SmsStep::Next(g, b) => r == Step::Next(SignupStage::Confirming(u, g), b),
        SmsStep::Finished(Ok(())) => r == Step::Next(
            SignupStage::Inserting,
            Action::Insert(Collection::Users, Record::User(u)),
        ),
        SmsStep::Finished(Err(e)) => crate::app::services::flow::replies_with(r, 500, e),
    };
}

/// After the password is hashed, a seller's sign-up makes the account of what was sent: the
/// name, number, national code, card picture and bank card number, the hash, unverified,
/// with a fresh 40-character identifier; and it starts sending a seller sign-up code.
pub proof fn seller_signup_makes_the_account_sent(
    data: SellerSignupDTO,
    hashed: Result<String, ()>,
    r: Step<SellerSignupStage>,
)
    requires
        seller_signup_with_hash_ok(data, hashed, r),
    ensures
        hashed is Err ==> answers_error(r, 500, "#SSU-P"@),
        hashed matches Ok(h) ==> (r matches Step::Next(SellerSignupStage::Confirming(s, f), Action::CacheGet(key)) && {
            &&& s.full_name@ == data.first_name@ + " "@ + data.last_name@
            &&& s.phone_number == data.phone_number
            &&& s.password == h
            &&& s.national_code == data.national_code
            &&& s.national_card_image_sid == data.national_card_image_sid
            &&& s.bank_card_number == data.bank_card_number
            &&& !s.is_verified
            &&& identifier_of_length(s.sid@, 40)
            &&& f == fresh_flow(data.phone_number, SMSKind::SellerSignup)
            &&& key == data.phone_number
        }),
{
}

/// A seller's sign-up stores the account it made, and only once its code was sent.
pub proof fn seller_signup_stores_after_the_code_is_sent(
    data: SellerSignupDTO,
    s: Seller,
    f: SmsFlow,
    o: Outcome,
    r: Step<SellerSignupStage>,
    a: Action,
)
    requires
        seller_signup_step_ok(data, SellerSignupStage::Confirming(s, f), o, r),
        r == Step::Next(SellerSignupStage::Inserting, a),
    ensures
        a == Action::Insert(Collection::Sellers, Record::Seller(s)),
        f.stage is Sending,
        o is Done,
{
    let sr = choose|sr: SmsStep| #[trigger] sms_step_ok(f, o, sr) && match sr {
        SmsStep::Next(g, b) => r == Step::Next(SellerSignupStage::Confirming(s, g), b),
        SmsStep::Finished(Ok(())) => r == Step::Next(
            SellerSignupStage::Inserting,
            Action::Insert(Collection::Sellers, Record::Seller(s)),
        ),
        SmsStep::Finished(Err(e)) => crate::app::services::flow::replies_with(r, 500, e),
    };
}

/// Sign-in answers a verified account and a matching password with the token for the
/// account's identifier that expires 900 s (users) or 600 s (sellers) after the clock reading,
/// and a wrong password with 400.
pub proof fn signin_answers_the_password(data: SigninDTO, stage: SigninStage, o: Outcome, now: usize, r: Step<SigninStage>)
    requires
        signin_step_ok(data, stage, o, now, r),
    ensures
        stage is UserLookup ==> (o matches Outcome::Found(Record::User(u)) ==> (u.is_verified ==> {
            &&& bcrypt_verdict(data.password@, u.password@) == Some(false) ==> answers_error(
                r,
                400,
                "password or phone number is incorrect"@,
            )
            &&& (bcrypt_verdict(data.password@, u.password@) == Some(true) && now + 900 <= usize::MAX
                && jwt_signed(u.sid@, (now + 900) as usize) is Some) ==> answers_message(
                r,
                200,
                jwt_signed(u.sid@, (now + 900) as usize)->Some_0,
            )
        })),
        stage is SellerLookup ==> (o matches Outcome::Found(Record::Seller(s)) ==> (s.is_verified ==> {
            &&& bcrypt_verdict(data.password@, s.password@) == Some(false) ==> answers_error(
                r,
                400,
                "password or phone number is incorrect"@,
            )
            &&& (bcrypt_verdict(data.password@, s.password@) == Some(true) && now + 600 <= usize::MAX
                && jwt_signed(s.sid@, (now + 600) as usize) is Some) ==> answers_message(
                r,
                200,
                jwt_signed(s.sid@, (now + 600) as usize)->Some_0,
            )
        })),
{
}

/// A verification for a password change, once the code is removed, stores a fresh
/// 55-character link under the number for 120 s, and then replies with that link.
pub proof fn verification_hands_out_a_link(data: VerifyDTO, stage: VerifyStage, o: Outcome, r: Step<VerifyStage>)
    requires
        verify_step_ok(data, stage, o, r),
        data.kind == VerifyKind::ChangePassword,
    ensures
        stage is CodeRemoval && o is Done ==> (r matches Step::Next(
            VerifyStage::LinkStorage(link),
            Action::CachePut { key, value, seconds },
        ) && key == data.phone_number && value == link && seconds == 120 && identifier_of_length(link@, 55)),
        stage matches VerifyStage::LinkStorage(link) ==> (o is Done ==> answers_message(r, 200, link@)),
{
}

/// A password change goes past the stored link only where it equals the link sent, and
/// then sets a hash that the new password checks against on the user with the number, and,
/// where no user has it, the same hash on the seller with the number.
pub proof fn password_change_sets_the_new_hash(
    data: ChangePasswordDTO,
    sid: String,
    stage: ChangePasswordStage,
    o: Outcome,
    r: Step<ChangePasswordStage>,
)
    requires
        change_password_step_ok(data, sid, stage, o, r),
    ensures
        stage is LinkLookup ==> (o matches Outcome::Text(stored) ==> (stored@ != sid@ ==> answers_error(r, 401, "unauthorized"@))),
        stage is LinkLookup ==> ((r matches Step::Next(_, _)) ==> (o matches Outcome::Text(stored) && stored@ == sid@)),
        stage is LinkLookup ==> (r matches Step::Next(ChangePasswordStage::UserUpdate(h), a) ==> (a == Action::Update(
            Collection::Users,
            Filter::Phone(data.phone_number),
            Change::Password(h),
        ) && bcrypt_verdict(data.password@, h@) == Some(true))),
        stage matches ChangePasswordStage::UserUpdate(h) ==> (o matches Outcome::Updated { matched, .. } ==> (matched == 0
            ==> r == Step::Next(
            ChangePasswordStage::SellerUpdate,
            Action::Update(Collection::Sellers, Filter::Phone(data.phone_number), Change::Password(h)),
        ))),
{
}

/// A listing whose items all read as products answers with exactly those products, in the
/// order the store gave them.
pub proof fn listings_keep_the_stores_order(items: Vec<Listed>, r: Step<ListingStage>)
    requires
        list_products_step_ok(Outcome::Listing(items), r),
        forall|i: int| 0 <= i < items@.len() ==> #[trigger] items@[i] is Item,
    ensures
        r matches Step::Reply(resp) && resp.status == 200 && (resp.body matches Body::Products(v) && v@ == Seq::new(
            items@.len(),
            |i: int| items@[i]->Item_0,
        )),
{
    lemma_listed_items(items@);
}

proof fn lemma_listed_items(items: Seq<Listed>)
    requires
        forall|i: int| 0 <= i < items.len() ==> #[trigger] items[i] is Item,
    ensures
        listed(items) == Some(Seq::new(items.len(), |i: int| items[i]->Item_0)),
    decreases items.len(),
{
    if items.len() > 0 {
        let rest = items.drop_first();
        assert forall|i: int| 0 <= i < rest.len() implies #[trigger] rest[i] is Item by {
            assert(rest[i] == items[i + 1]);
        }
        lemma_listed_items(rest);
        assert(items[0] is Item);
        assert(seq![items[0]->Item_0] + Seq::new(rest.len(), |i: int| rest[i]->Item_0) =~= Seq::new(
            items.len(),
            |i: int| items[i]->Item_0,
        ));
    }
}

/// A listing with an item that does not read as a product fails with 500 "#PGP-DOC".
pub proof fn listings_with_an_unreadable_product_fail(items: Vec<Listed>, k: int, r: Step<ListingStage>)
    requires
        list_products_step_ok(Outcome::Listing(items), r),
        0 <= k < items@.len(),
        items@[k] is Undecodable,
    ensures
        answers_error(r, 500, "#PGP-DOC"@),
{
    lemma_listed_undecodable(items@, k);
}

proof fn lemma_listed_undecodable(items: Seq<Listed>, k: int)
    requires
        0 <= k < items.len(),
        items[k] is Undecodable,
    ensures
        listed(items) is None,
    decreases items.len(),
{
    if k > 0 {
        assert(items.drop_first()[k - 1] == items[k]);
        lemma_listed_undecodable(items.drop_first(), k - 1);
    }
}

/// Deleting goes on only for an existing seller, deletes the document with the product's
/// identifier, and answers 404 where nothing was deleted, 200 otherwise.
pub proof fn deletion_answers_what_was_deleted(
    product_sid: String,
    stage: DeleteProductStage,
    o: Outcome,
    r: Step<DeleteProductStage>,
)
    requires
        delete_product_step_ok(product_sid, stage, o, r),
    ensures
        stage is SellerLookup ==> ((r matches Step::Next(_, _)) <==> o matches Outcome::Found(Record::Seller(_))),
        stage is SellerLookup ==> (o matches Outcome::Found(Record::Seller(_)) ==> r == Step::Next(
            DeleteProductStage::Deleting,
            Action::Delete(Collection::Users, Filter::Sid(product_sid)),
        )),
        stage is Deleting ==> (o matches Outcome::Deleted(n) ==> (n == 0 ==> answers_error(r, 404, "product not found"@))),
        stage is Deleting ==> (o matches Outcome::Deleted(n) ==> (n > 0 ==> answers_message(r, 200, "product successfully deleted"@))),
{
}

/// After the seller's ongoing orders changed, scheduling sets the delivery time on the
/// buyer's order; after the seller's finished orders changed, closing removes the order from
/// the user's orders.
pub proof fn orders_follow_on_the_buyers_side(
    arrive_at: String,
    order_sid: String,
    user_sid: String,
    u: User,
    r1: Step<ScheduleOrderStage>,
    now: String,
    matched: u64,
    modified: u64,
    r2: Step<FinishedOrderStage>,
)
    requires
        schedule_order_step_ok(arrive_at, order_sid, user_sid, ScheduleOrderStage::UserLookup, Outcome::Found(Record::User(u)), r1),
        finished_order_step_ok(
            order_sid,
            user_sid,
            FinishedOrderStage::SellerUpdate,
            Outcome::Updated { matched, modified },
            now,
            r2,
        ),
        modified > 0,
    ensures
        r1 == Step::Next(
            ScheduleOrderStage::UserUpdate,
            Action::Update(
                Collection::Users,
                Filter::UserOrder { user_sid: u.sid, order_sid },
                Change::SetArrival(arrive_at),
            ),
        ),
        r2 == Step::Next(
            FinishedOrderStage::UserUpdate,
            Action::Update(Collection::Users, Filter::Sid(user_sid), Change::PullOrder(order_sid)),
        ),
{
}

/// A code is drawn only where none is pending, in the range of its kind (five digits from
/// `13256..65535` for sellers, six from `132568..987984` otherwise), stored under the number
/// in decimal for 120 s, and the message then sent to the number carries that code after the
/// kind's heading.
pub proof fn codes_fit_their_kind(f: SmsFlow, o: Outcome, r: SmsStep)
    requires
        sms_step_ok(f, o, r),
    ensures
        f.stage is Checking && !(o matches Outcome::Text(c) && c@ != "n115"@) ==> (r matches SmsStep::Next(
            g,
            Action::CachePut { key, value, seconds },
        ) && {
            &&& g.stage matches SmsStage::Storing(code) && value@ == decimal(code as nat) && (
            if f.kind == SMSKind::SellerSignup {
                13256 <= code < 65535
            } else {
                132568 <= code < 987984
            })
            &&& key == f.phone
            &&& seconds == 120
        }),
        f.stage is Checking && (o matches Outcome::Text(c) && c@ != "n115"@) ==> r == SmsStep::Finished(
            Err(r->Finished_0->Err_0),
        ) && r->Finished_0->Err_0@ == "کد به تازگی ارسال شده است"@,
        f.stage matches SmsStage::Storing(code) ==> (o is Done ==> (r matches SmsStep::Next(
            g,
            Action::SendSms { text, mobile },
        ) && mobile == f.phone && g.stage is Sending && text@ == (match f.kind {
            SMSKind::Signup => "ثبت نام"@,
            SMSKind::SellerSignup => " ثبت نام فروشنده"@,
            SMSKind::ForgotPassword => "تغییر رمز"@,
            SMSKind::Signin => "ورورد به حساب"@,
        }) + " \n کد تایید: "@ + decimal(code as nat))),
{
}

} // verus!
