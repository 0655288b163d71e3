//! The account handlers: sign-up of users and sellers, sign-in, code verification, password
//! recovery and change, and the upload of identity pictures.
use vstd::prelude::*;
use vstd::string::StringExecFns;
use crate::app::models::dto::{
    ChangePasswordDTO, ForgotPasswordDTO, SellerSignupDTO, SigninDTO, SignupDTO, VerifyDTO, VerifyKind,
};
use crate::app::models::Images;
use crate::app::models::user::{Seller, User};
use crate::app::pkg::{is_valid_iranian_national_code, valid_national_code};
use crate::app::services::flow::{
    error_reply, message_reply, replies_error, replies_message, replies_with, reply_message_with,
    reply_with, Action, Body, Response, UNAUTHORIZED,
    Change, Collection, Filter, Outcome, Record, Step, BAD_REQUEST, CREATED, INTERNAL_SERVER_ERROR, NOT_FOUND,
    OK,
};
use crate::app::services::sms::{
    reminds, sms_step_ok, starts_sending, SMSAuthentication, SMSKind, SmsFlow, SmsStep,
};
use crate::app::utils::code::{is_sid, sid_creator};
use crate::app::utils::jwt::{jwt_signed, JWT};
use crate::app::utils::text::join;
use crate::app::utils::time::formatted_time;
use crate::app::utils::password::{bcrypt_verdict, check_password, hash_password};

verus! {

/// The full name of an account: first name, a space, last name.
pub open spec fn full_name(first: String, last: String) -> Seq<char> {
    first@ + " "@ + last@
}

fn full_name_of(first: &String, last: &String) -> (s: String)
    ensures
        s@ == full_name(*first, *last),
{
    let mut s = first.clone();
    s.append(" ");
    s.append(last.as_str());
    s
}

/// `hashed` is what hashing `password` gave: a hash that the password checks against, or
/// the failure.
pub open spec fn hash_of(password: Seq<char>, hashed: Result<String, ()>) -> bool {
    hashed matches Ok(h) ==> bcrypt_verdict(password, h@) == Some(true)
}

/// `u` is the new account made for a sign-up with the stored hash `h`: its name and number,
/// unverified, with a fresh identifier and no orders.
pub open spec fn built_user(data: SignupDTO, h: String, u: User) -> bool {
    &&& u.full_name@ == full_name(data.first_name, data.last_name)
    &&& u.phone_number == data.phone_number
    &&& u.password == h
    &&& !u.is_verified
    &&& is_sid(u.sid@, 30)
    &&& u.orders@.len() == 0
}

/// `u` is the new account made for a sign-up: its name, number and a hash that the password
/// checks against, unverified, with a fresh identifier and no orders.
pub open spec fn fresh_user(data: SignupDTO, u: User) -> bool {
    &&& built_user(data, u.password, u)
    &&& bcrypt_verdict(data.password@, u.password@) == Some(true)
}

/// What a sign-up does once the password was hashed: the hashing error, or the new account
/// with that hash, whose code it starts sending.
pub open spec fn signup_with_hash_ok(data: SignupDTO, hashed: Result<String, ()>, r: Step<SignupStage>) -> bool {
    match hashed {
        Err(_) => replies_error(r, 500, "#SU-P"@),
        Ok(h) => exists|u: User|
            #[trigger] built_user(data, h, u) && starts_sending(
                r,
                |f: SmsFlow| SignupStage::Confirming(u, f),
                u.phone_number,
                SMSKind::Signup,
            ),
    }
}

/// The sign-up step after hashing the password: reply the hashing error, or make the account
/// with the hash and start sending its code.
pub fn signup_with_hash(data: &SignupDTO, hashed: Result<String, ()>) -> (r: Step<SignupStage>)
    ensures
        signup_with_hash_ok(*data, hashed, r),
{
    let password = match hashed {
        Ok(p) => p,
        Err(_) => return error_reply(INTERNAL_SERVER_ERROR, "#SU-P"),
    };
    let user = User::new(full_name_of(&data.first_name, &data.last_name), data.phone_number.clone(), password);
    let (f, a) = SMSAuthentication::verify_sms(&user.phone_number, SMSKind::Signup);
    let ghost u = user;
    let r = Step::Next(SignupStage::Confirming(user, f), a);
    assert(built_user(*data, u.password, u) && starts_sending(
        r,
        |f: SmsFlow| SignupStage::Confirming(u, f),
        u.phone_number,
        SMSKind::Signup,
    ));
    r
}

/// Where a user's sign-up stands.
pub enum SignupStage {
    /// Looking for a seller with the number.
    SellerLookup,
    /// Looking for a user with the number.
    UserLookup,
    /// Sending a new code to an existing, unverified user.
    Reminding(SmsFlow),
    /// Sending the code of the new account.
    Confirming(User, SmsFlow),
    /// Storing the new account.
    Inserting,
}

/// One step of a user's sign-up.
pub open spec fn signup_step_ok(data: SignupDTO, stage: SignupStage, o: Outcome, r: Step<SignupStage>) -> bool {
    match stage {
        SignupStage::SellerLookup => match o {
            Outcome::NotFound => r == Step::Next(
                SignupStage::UserLookup,
                Action::FindOne(Collection::Users, Filter::Phone(data.phone_number)),
            ),
            Outcome::Found(Record::Seller(_)) => replies_error(r, 400, "user already exists"@),
            _ => replies_error(r, 500, "#SU-CH1"@),
        },
        SignupStage::UserLookup => match o {
            Outcome::NotFound => exists|hashed: Result<String, ()>|
                hash_of(data.password@, hashed) && #[trigger] signup_with_hash_ok(data, hashed, r),
            Outcome::Found(Record::User(u)) => if !u.is_verified {
                starts_sending(r, |f: SmsFlow| SignupStage::Reminding(f), u.phone_number, SMSKind::Signup)
            } else {
                replies_error(r, 400, "user already exists"@)
            },
            Outcome::Undecodable(_) => replies_error(r, 500, "#SU-DOC1"@),
            _ => replies_error(r, 500, "#SU-CH"@),
        },
        SignupStage::Reminding(f) => exists|sr: SmsStep|
            #[trigger] sms_step_ok(f, o, sr) && reminds(
                sr,
                r,
                |g: SmsFlow| SignupStage::Reminding(g),
                "verify your account"@,
            ),
        SignupStage::Confirming(u, f) => exists|sr: SmsStep|
            #[trigger] sms_step_ok(f, o, sr) && match sr {
                SmsStep::Next(g, a) => r == Step::Next(SignupStage::Confirming(u, g), a),
                SmsStep::Finished(Ok(())) => r == Step::Next(
                    SignupStage::Inserting,
                    Action::Insert(Collection::Users, Record::User(u)),
                ),
                SmsStep::Finished(Err(e)) => replies_with(r, 500, e),
            },
        SignupStage::Inserting => if o is Done {
            replies_message(r, 201, "account created, now verify it"@)
        } else {
            replies_error(r, 500, "#SU-D"@)
        },
    }
}

/// Starts a user's sign-up: first, look for a seller with the number.
pub fn signup(data: &SignupDTO) -> (r: (SignupStage, Action))
    ensures
        r == (SignupStage::SellerLookup, Action::FindOne(Collection::Sellers, Filter::Phone(data.phone_number))),
{
    (SignupStage::SellerLookup, Action::FindOne(Collection::Sellers, Filter::Phone(data.phone_number.clone())))
}

/// One step of a user's sign-up, given what came of the last operation.
pub fn signup_step(data: &SignupDTO, stage: SignupStage, outcome: Outcome) -> (r: Step<SignupStage>)
    ensures
        signup_step_ok(*data, stage, outcome, r),
{
    let ghost o = outcome;
    match stage {
        SignupStage::SellerLookup => match outcome {
            Outcome::NotFound => Step::Next(
                SignupStage::UserLookup,
                Action::FindOne(Collection::Users, Filter::Phone(data.phone_number.clone())),
            ),
            Outcome::Found(Record::Seller(_)) => error_reply(BAD_REQUEST, "user already exists"),
            _ => error_reply(INTERNAL_SERVER_ERROR, "#SU-CH1"),
        },
        SignupStage::UserLookup => match outcome {
            Outcome::NotFound => {
                let hashed = hash_password(&data.password);
                signup_with_hash(data, hashed)
            },
            Outcome::Found(Record::User(u)) => {
                if !u.is_verified {
                    let (f, a) = SMSAuthentication::verify_sms(&u.phone_number, SMSKind::Signup);
                    Step::Next(SignupStage::Reminding(f), a)
                } else {
                    error_reply(BAD_REQUEST, "user already exists")
                }
            },
            Outcome::Undecodable(_) => error_reply(INTERNAL_SERVER_ERROR, "#SU-DOC1"),
            _ => error_reply(INTERNAL_SERVER_ERROR, "#SU-CH"),
        },
        SignupStage::Reminding(f) => {
            let ghost f0 = f;
            let sr = f.step(outcome);
            let ghost sr0 = sr;
            let r = match sr {
                SmsStep::Next(g, a) => Step::Next(SignupStage::Reminding(g), a),
                SmsStep::Finished(Ok(())) => message_reply(OK, "verify your account"),
                SmsStep::Finished(Err(e)) => reply_with(BAD_REQUEST, e),
            };
            assert(sms_step_ok(f0, o, sr0));
            r
        },
        SignupStage::Confirming(u, f) => {
            let ghost f0 = f;
            let sr = f.step(outcome);
            let ghost sr0 = sr;
            let r = match sr {
                SmsStep::Next(g, a) => Step::Next(SignupStage::Confirming(u, g), a),
                SmsStep::Finished(Ok(())) => Step::Next(
                    SignupStage::Inserting,
                    Action::Insert(Collection::Users, Record::User(u)),
                ),
                SmsStep::Finished(Err(e)) => reply_with(INTERNAL_SERVER_ERROR, e),
            };
            assert(sms_step_ok(f0, o, sr0));
            r
        },
        SignupStage::Inserting => {
            if matches!(outcome, Outcome::Done) {
                message_reply(CREATED, "account created, now verify it")
            } else {
                error_reply(INTERNAL_SERVER_ERROR, "#SU-D")
            }
        },
    }
}

/// `s` is the new account made for a seller's sign-up with the stored hash `h`: the details
/// sent, unverified, with a fresh identifier.
pub open spec fn built_seller(data: SellerSignupDTO, h: String, s: Seller) -> bool {
    &&& s.full_name@ == full_name(data.first_name, data.last_name)
    &&& s.phone_number == data.phone_number
    &&& s.password == h
    &&& s.national_code == data.national_code
    &&& s.national_card_image_sid == data.national_card_image_sid
    &&& s.bank_card_number == data.bank_card_number
    &&& !s.is_verified
    &&& is_sid(s.sid@, 40)
}

/// `s` is the new account made for a seller's sign-up: the details sent, a hash that the
/// password checks against, unverified, with a fresh identifier.
pub open spec fn fresh_seller(data: SellerSignupDTO, s: Seller) -> bool {
    &&& built_seller(data, s.password, s)
    &&& bcrypt_verdict(data.password@, s.password@) == Some(true)
}

/// What a seller's sign-up does once the password was hashed: the hashing error, or the new
/// account with that hash, whose code it starts sending.
pub open spec fn seller_signup_with_hash_ok(data: SellerSignupDTO, hashed: Result<String, ()>, r: Step<SellerSignupStage>) -> bool {
    match hashed {
        Err(_) => replies_error(r, 500, "#SSU-P"@),
        Ok(h) => exists|s: Seller|
            #[trigger] built_seller(data, h, s) && starts_sending(
                r,
                |f: SmsFlow| SellerSignupStage::Confirming(s, f),
                s.phone_number,
                SMSKind::SellerSignup,
            ),
    }
}

/// The seller sign-up step after hashing the password: reply the hashing error, or make the
/// account with the hash and start sending its code.
pub fn seller_signup_with_hash(data: &SellerSignupDTO, hashed: Result<String, ()>) -> (r: Step<SellerSignupStage>)
    ensures
        seller_signup_with_hash_ok(*data, hashed, r),
{
    let password = match hashed {
        Ok(p) => p,
        Err(_) => return error_reply(INTERNAL_SERVER_ERROR, "#SSU-P"),
    };
    let seller = Seller::new(
        full_name_of(&data.first_name, &data.last_name),
        data.phone_number.clone(),
        password,
        data.national_code.clone(),
        data.national_card_image_sid.clone(),
        data.bank_card_number,
    );
    let (f, a) = SMSAuthentication::verify_sms(&seller.phone_number, SMSKind::SellerSignup);
    let ghost s = seller;
    let r = Step::Next(SellerSignupStage::Confirming(seller, f), a);
    assert(built_seller(*data, s.password, s) && starts_sending(
        r,
        |f: SmsFlow| SellerSignupStage::Confirming(s, f),
        s.phone_number,
        SMSKind::SellerSignup,
    ));
    r
}

/// Where a seller's sign-up stands.
pub enum SellerSignupStage {
    /// Looking for a seller with the number.
    SellerLookup,
    /// Sending a new code to an existing, unverified seller.
    Reminding(SmsFlow),
    /// Looking for a seller with the national code.
    NationalCodeLookup,
    /// Removing a user account with the number.
    UserRemoval,
    /// Looking for the uploaded picture of the national card.
    ImageLookup,
    /// Sending the code of the new account.
    Confirming(Seller, SmsFlow),
    /// Storing the new account.
    Inserting,
}

/// One step of a seller's sign-up.
pub open spec fn seller_signup_step_ok(
    data: SellerSignupDTO,
    stage: SellerSignupStage,
    o: Outcome,
    r: Step<SellerSignupStage>,
) -> bool {
    match stage {
        SellerSignupStage::SellerLookup => match o {
            Outcome::NotFound => r == Step::Next(
                SellerSignupStage::UserRemoval,
                Action::Delete(Collection::Users, Filter::Phone(data.phone_number)),
            ),
            Outcome::Found(Record::Seller(s)) => if !s.is_verified {
                starts_sending(r, |f: SmsFlow| SellerSignupStage::Reminding(f), s.phone_number, SMSKind::Signup)
            } else {
                r == Step::Next(
                    SellerSignupStage::NationalCodeLookup,
                    Action::FindOne(Collection::Sellers, Filter::NationalCode(data.national_code)),
                )
            },
            Outcome::Undecodable(_) => replies_error(r, 500, "#SSU-DOC1"@),
            _ => replies_error(r, 500, "#SSU-CH"@),
        },
        SellerSignupStage::Reminding(f) => exists|sr: SmsStep|
            #[trigger] sms_step_ok(f, o, sr) && reminds(
                sr,
                r,
                |g: SmsFlow| SellerSignupStage::Reminding(g),
                "verify your account"@,
            ),
        SellerSignupStage::NationalCodeLookup => match o {
            Outcome::Failed(e) => replies_with(r, 500, e),
            Outcome::Undecodable(e) => replies_with(r, 500, e),
            _ => replies_error(r, 400, "user already exists"@),
        },
        SellerSignupStage::UserRemoval => match o {
            Outcome::Failed(e) => replies_with(r, 500, e),
            Outcome::Undecodable(e) => replies_with(r, 500, e),
            _ => r == Step::Next(
                SellerSignupStage::ImageLookup,
                Action::FindOne(Collection::Images, Filter::Sid(data.national_card_image_sid)),
            ),
        },
        SellerSignupStage::ImageLookup => match o {
            Outcome::Failed(e) => replies_with(r, 500, e),
            Outcome::Undecodable(e) => replies_with(r, 500, e),
            Outcome::NotFound => replies_error(r, 404, "image not found"@),
            _ => if !valid_national_code(data.national_code@) {
                replies_error(r, 400, "make sure you send the correct information"@)
            } else {
                exists|hashed: Result<String, ()>|
                    hash_of(data.password@, hashed) && #[trigger] seller_signup_with_hash_ok(data, hashed, r)
            },
        },
        SellerSignupStage::Confirming(s, f) => exists|sr: SmsStep|
            #[trigger] sms_step_ok(f, o, sr) && match sr {
                SmsStep::Next(g, a) => r == Step::Next(SellerSignupStage::Confirming(s, g), a),
                SmsStep::Finished(Ok(())) => r == Step::Next(
                    SellerSignupStage::Inserting,
                    Action::Insert(Collection::Sellers, Record::Seller(s)),
                ),
                SmsStep::Finished(Err(e)) => replies_with(r, 500, e),
            },
        SellerSignupStage::Inserting => if o is Done {
            replies_message(r, 201, "seller account created, now verify it"@)
        } else {
            replies_error(r, 500, "#SSU-D"@)
        },
    }
}

/// Starts a seller's sign-up: first, look for a seller with the number.
pub fn seller_signup(data: &SellerSignupDTO) -> (r: (SellerSignupStage, Action))
    ensures
        r == (SellerSignupStage::SellerLookup, Action::FindOne(Collection::Sellers, Filter::Phone(data.phone_number))),
{
    (SellerSignupStage::SellerLookup, Action::FindOne(Collection::Sellers, Filter::Phone(data.phone_number.clone())))
}

/// One step of a seller's sign-up, given what came of the last operation.
pub fn seller_signup_step(data: &SellerSignupDTO, stage: SellerSignupStage, outcome: Outcome) -> (r: Step<SellerSignupStage>)
    ensures
        seller_signup_step_ok(*data, stage, outcome, r),
{
    let ghost o = outcome;
    match stage {
        SellerSignupStage::SellerLookup => match outcome {
            Outcome::NotFound => Step::Next(
                SellerSignupStage::UserRemoval,
                Action::Delete(Collection::Users, Filter::Phone(data.phone_number.clone())),
            ),
            Outcome::Found(Record::Seller(s)) => {
                if !s.is_verified {
                    let (f, a) = SMSAuthentication::verify_sms(&s.phone_number, SMSKind::Signup);
                    Step::Next(SellerSignupStage::Reminding(f), a)
                } else {
                    Step::Next(
                        SellerSignupStage::NationalCodeLookup,
                        Action::FindOne(Collection::Sellers, Filter::NationalCode(data.national_code.clone())),
                    )
                }
            },
            Outcome::Undecodable(_) => error_reply(INTERNAL_SERVER_ERROR, "#SSU-DOC1"),
            _ => error_reply(INTERNAL_SERVER_ERROR, "#SSU-CH"),
        },
        SellerSignupStage::Reminding(f) => {
            let ghost f0 = f;
            let sr = f.step(outcome);
            let ghost sr0 = sr;
            let r = match sr {
                SmsStep::Next(g, a) => Step::Next(SellerSignupStage::Reminding(g), a),
                SmsStep::Finished(Ok(())) => message_reply(OK, "verify your account"),
                SmsStep::Finished(Err(e)) => reply_with(BAD_REQUEST, e),
            };
            assert(sms_step_ok(f0, o, sr0));
            r
        },
        SellerSignupStage::NationalCodeLookup => match outcome {
            Outcome::Failed(e) => reply_with(INTERNAL_SERVER_ERROR, e),
            Outcome::Undecodable(e) => reply_with(INTERNAL_SERVER_ERROR, e),
            _ => error_reply(BAD_REQUEST, "user already exists"),
        },
        SellerSignupStage::UserRemoval => match outcome {
            Outcome::Failed(e) => reply_with(INTERNAL_SERVER_ERROR, e),
            Outcome::Undecodable(e) => reply_with(INTERNAL_SERVER_ERROR, e),
            _ => Step::Next(
                SellerSignupStage::ImageLookup,
                Action::FindOne(Collection::Images, Filter::Sid(data.national_card_image_sid.clone())),
            ),
        },
        SellerSignupStage::ImageLookup => match outcome {
            Outcome::Failed(e) => reply_with(INTERNAL_SERVER_ERROR, e),
            Outcome::Undecodable(e) => reply_with(INTERNAL_SERVER_ERROR, e),
            Outcome::NotFound => error_reply(NOT_FOUND, "image not found"),
            _ => {
                if !is_valid_iranian_national_code(&data.national_code) {
                    return error_reply(BAD_REQUEST, "make sure you send the correct information");
                }
                let hashed = hash_password(&data.password);
                seller_signup_with_hash(data, hashed)
            },
        },
        SellerSignupStage::Confirming(s, f) => {
            let ghost f0 = f;
            let sr = f.step(outcome);
            let ghost sr0 = sr;
            let r = match sr {
                SmsStep::Next(g, a) => Step::Next(SellerSignupStage::Confirming(s, g), a),
                SmsStep::Finished(Ok(())) => Step::Next(
                    SellerSignupStage::Inserting,
                    Action::Insert(Collection::Sellers, Record::Seller(s)),
                ),
                SmsStep::Finished(Err(e)) => reply_with(INTERNAL_SERVER_ERROR, e),
            };
            assert(sms_step_ok(f0, o, sr0));
            r
        },
        SellerSignupStage::Inserting => {
            if matches!(outcome, Outcome::Done) {
                message_reply(CREATED, "seller account created, now verify it")
            } else {
                error_reply(INTERNAL_SERVER_ERROR, "#SSU-D")
            }
        },
    }
}

/// `r` answers a correct password with a session token for the account `sid` that expires
/// `lifetime` seconds after the clock's reading `now`: `{"message": token}` with status 200,
/// or the error `fail` with status 500 where the token cannot be made.
pub open spec fn token_reply<S>(r: Step<S>, sid: String, now: usize, lifetime: usize, fail: Seq<char>) -> bool {
    if now + lifetime > usize::MAX {
        replies_error(r, 500, fail)
    } else {
        match jwt_signed(sid@, (now + lifetime) as usize) {
            Some(token) => replies_message(r, 200, token),
            None => replies_error(r, 500, fail),
        }
    }
}

/// The answer to a password check on an account with the stored hash, with the clock
/// reading `now`: an error where the check fails, a refusal where the password is wrong, else
/// a session token for the account's identifier that expires `lifetime` seconds after `now`.
pub open spec fn password_answer<S>(
    r: Step<S>,
    password: String,
    hash: String,
    sid: String,
    now: usize,
    lifetime: usize,
    check_failed: Seq<char>,
    token_failed: Seq<char>,
) -> bool {
    match bcrypt_verdict(password@, hash@) {
        None => replies_error(r, 500, check_failed),
        Some(false) => replies_error(r, 400, "password or phone number is incorrect"@),
        Some(true) => token_reply(r, sid, now, lifetime, token_failed),
    }
}

/// The reply that hands out a session token for the account `sid`, expiring `lifetime`
/// seconds after the clock reading `now`: `{"message": token}` with status 200, or the error
/// `fail` with status 500 where the expiry overflows or the token cannot be made.
pub fn session_reply<S>(sid: String, now: usize, lifetime: usize, fail: &str) -> (r: Step<S>)
    ensures
        token_reply(r, sid, now, lifetime, fail@),
{
    match now.checked_add(lifetime) {
        Some(exp) => match JWT::new(sid, exp).create_token() {
            Ok(token) => reply_message_with(OK, token),
            Err(_) => error_reply(INTERNAL_SERVER_ERROR, fail),
        },
        None => error_reply(INTERNAL_SERVER_ERROR, fail),
    }
}

/// Checks the password against the stored hash and, where it matches, issues a session token
/// from the clock reading `now`.
fn answer_password<S>(
    password: &String,
    hash: &String,
    sid: String,
    now: usize,
    lifetime: usize,
    check_failed: &str,
    token_failed: &str,
) -> (r: Step<S>)
    ensures
        password_answer(r, *password, *hash, sid, now, lifetime, check_failed@, token_failed@),
{
    match check_password(password, hash) {
        Ok(true) => session_reply(sid, now, lifetime, token_failed),
        Ok(false) => error_reply(BAD_REQUEST, "password or phone number is incorrect"),
        Err(_) => error_reply(INTERNAL_SERVER_ERROR, check_failed),
    }
}

/// Where a sign-in stands.
pub enum SigninStage {
    /// Looking for a user with the number.
    UserLookup,
    /// Looking for a seller with the number.
    SellerLookup,
    /// Sending a new code to an unverified account.
    Reminding(SmsFlow),
}

/// One step of a sign-in, with the clock reading `now`. Users' tokens expire 900 s after
/// `now`, sellers' 600 s.
pub open spec fn signin_step_ok(data: SigninDTO, stage: SigninStage, o: Outcome, now: usize, r: Step<SigninStage>) -> bool {
    match stage {
        SigninStage::UserLookup => match o {
            Outcome::NotFound => r == Step::Next(
                SigninStage::SellerLookup,
                Action::FindOne(Collection::Sellers, Filter::Phone(data.phone_number)),
            ),
            Outcome::Found(Record::User(u)) => if !u.is_verified {
                starts_sending(r, |f: SmsFlow| SigninStage::Reminding(f), u.phone_number, SMSKind::Signup)
            } else {
                password_answer(r, data.password, u.password, u.sid, now, 900, "#SI-P"@, "#SI-T"@)
            },
            Outcome::Undecodable(_) => replies_error(r, 500, "#SI-DOC"@),
            _ => replies_error(r, 500, "#SI-F1"@),
        },
        SigninStage::SellerLookup => match o {
            Outcome::NotFound => replies_error(r, 404, "user not found"@),
            Outcome::Found(Record::Seller(s)) => if !s.is_verified {
                starts_sending(r, |f: SmsFlow| SigninStage::Reminding(f), s.phone_number, SMSKind::SellerSignup)
            } else {
                password_answer(r, data.password, s.password, s.sid, now, 600, "#SSI-SEC1P"@, "#SSI-SEC1T"@)
            },
            Outcome::Undecodable(_) => replies_error(r, 500, "#SSI-SEC1DOC"@),
            _ => replies_error(r, 500, "#SSI-SEC1F1"@),
        },
        SigninStage::Reminding(f) => exists|sr: SmsStep|
            #[trigger] sms_step_ok(f, o, sr) && reminds(
                sr,
                r,
                |g: SmsFlow| SigninStage::Reminding(g),
                "verify your account"@,
            ),
    }
}

/// Starts a sign-in: first, look for a user with the number.
pub fn signin(data: &SigninDTO) -> (r: (SigninStage, Action))
    ensures
        r == (SigninStage::UserLookup, Action::FindOne(Collection::Users, Filter::Phone(data.phone_number))),
{
    (SigninStage::UserLookup, Action::FindOne(Collection::Users, Filter::Phone(data.phone_number.clone())))
}

/// One step of a sign-in, given what came of the last operation and the clock reading `now`
/// (Unix seconds, as `timestamp` gives it), from which a token's expiry counts.
pub fn signin_step(data: &SigninDTO, stage: SigninStage, outcome: Outcome, now: usize) -> (r: Step<SigninStage>)
    ensures
        signin_step_ok(*data, stage, outcome, now, r),
{
    let ghost o = outcome;
    match stage {
        SigninStage::UserLookup => match outcome {
            Outcome::NotFound => Step::Next(
                SigninStage::SellerLookup,
                Action::FindOne(Collection::Sellers, Filter::Phone(data.phone_number.clone())),
            ),
            Outcome::Found(Record::User(u)) => {
                if !u.is_verified {
                    let (f, a) = SMSAuthentication::verify_sms(&u.phone_number, SMSKind::Signup);
                    Step::Next(SigninStage::Reminding(f), a)
                } else {
                    answer_password(&data.password, &u.password, u.sid, now, 900, "#SI-P", "#SI-T")
                }
            },
            Outcome::Undecodable(_) => error_reply(INTERNAL_SERVER_ERROR, "#SI-DOC"),
            _ => error_reply(INTERNAL_SERVER_ERROR, "#SI-F1"),
        },
        SigninStage::SellerLookup => match outcome {
            Outcome::NotFound => error_reply(NOT_FOUND, "user not found"),
            Outcome::Found(Record::Seller(s)) => {
                if !s.is_verified {
                    let (f, a) = SMSAuthentication::verify_sms(&s.phone_number, SMSKind::SellerSignup);
                    Step::Next(SigninStage::Reminding(f), a)
                } else {
                    answer_password(&data.password, &s.password, s.sid, now, 600, "#SSI-SEC1P", "#SSI-SEC1T")
                }
            },
            Outcome::Undecodable(_) => error_reply(INTERNAL_SERVER_ERROR, "#SSI-SEC1DOC"),
            _ => error_reply(INTERNAL_SERVER_ERROR, "#SSI-SEC1F1"),
        },
        SigninStage::Reminding(f) => {
            let ghost f0 = f;
            let sr = f.step(outcome);
            let ghost sr0 = sr;
            let r = match sr {
                SmsStep::Next(g, a) => Step::Next(SigninStage::Reminding(g), a),
                SmsStep::Finished(Ok(())) => message_reply(OK, "verify your account"),
                SmsStep::Finished(Err(e)) => reply_with(BAD_REQUEST, e),
            };
            assert(sms_step_ok(f0, o, sr0));
            r
        },
    }
}

/// Where the verification of a code stands.
pub enum VerifyStage {
    /// Reading the code stored for the number.
    CodeLookup,
    /// Removing the stored code.
    CodeRemoval,
    /// Marking a user with the number verified.
    UserUpdate,
    /// Marking a seller with the number verified.
    SellerUpdate,
    /// Storing the password-change link for the number.
    LinkStorage(String),
}

/// The answer to an update that marks an account: none modified is an error, else `done`.
pub open spec fn update_answer<S>(r: Step<S>, modified: u64, unmodified: Seq<char>, done: Seq<char>) -> bool {
    if modified == 0 {
        replies_error(r, 500, unmodified)
    } else {
        replies_message(r, 200, done)
    }
}

/// One step of the verification of a code. A matching code is used up: it is removed before
/// anything else is done. For an account, the user (else the seller) with the number is
/// marked verified; for a password change, a fresh 55-character link is stored under the
/// number for two minutes and given back.
pub open spec fn verify_step_ok(data: VerifyDTO, stage: VerifyStage, o: Outcome, r: Step<VerifyStage>) -> bool {
    match stage {
        VerifyStage::CodeLookup => match o {
            Outcome::Text(code) => if code@ != data.code@ {
                replies_error(r, 400, "wrong"@)
            } else {
                r == Step::Next(VerifyStage::CodeRemoval, Action::CacheDelete(data.phone_number))
            },
            _ => replies_error(r, 404, "not found"@),
        },
        VerifyStage::CodeRemoval => if !(o is Done) {
            replies_error(r, 500, "#VF-RDD"@)
        } else if data.kind == VerifyKind::AccountVerification {
            r == Step::Next(
                VerifyStage::UserUpdate,
                Action::Update(Collection::Users, Filter::Phone(data.phone_number), Change::Verified),
            )
        } else {
            exists|link: String|
                #[trigger] is_sid(link@, 55) && r == Step::Next(
                    VerifyStage::LinkStorage(link),
                    Action::CachePut { key: data.phone_number, value: link, seconds: 120 },
                )
        },
        VerifyStage::UserUpdate => match o {
            Outcome::Updated { matched, modified } => if matched == 0 {
                r == Step::Next(
                    VerifyStage::SellerUpdate,
                    Action::Update(Collection::Sellers, Filter::Phone(data.phone_number), Change::Verified),
                )
            } else {
                update_answer(r, modified, "#VF-MC"@, "your account successfully verified"@)
            },
            _ => replies_error(r, 500, "#VF-UP"@),
        },
        VerifyStage::SellerUpdate => match o {
            Outcome::Updated { matched, modified } => if matched == 0 {
                replies_error(r, 404, "user not found"@)
            } else {
                update_answer(r, modified, "#VF-MC"@, "your account successfully verified"@)
            },
            _ => replies_error(r, 500, "#VF-UP"@),
        },
        VerifyStage::LinkStorage(link) => if o is Done {
            r == Step::<VerifyStage>::Reply(Response { status: 200, body: Body::Message(link) })
        } else {
            replies_error(r, 500, "#VF-RDS"@)
        },
    }
}

/// Starts the verification of a code: first, read the code stored for the number.
pub fn verify(data: &VerifyDTO) -> (r: (VerifyStage, Action))
    ensures
        r == (VerifyStage::CodeLookup, Action::CacheGet(data.phone_number)),
{
    (VerifyStage::CodeLookup, Action::CacheGet(data.phone_number.clone()))
}

/// One step of the verification of a code, given what came of the last operation.
pub fn verify_step(data: &VerifyDTO, stage: VerifyStage, outcome: Outcome) -> (r: Step<VerifyStage>)
    ensures
        verify_step_ok(*data, stage, outcome, r),
{
    match stage {
        VerifyStage::CodeLookup => match outcome {
            Outcome::Text(code) => {
                if !code.eq(&data.code) {
                    error_reply(BAD_REQUEST, "wrong")
                } else {
                    Step::Next(VerifyStage::CodeRemoval, Action::CacheDelete(data.phone_number.clone()))
                }
            },
            _ => error_reply(NOT_FOUND, "not found"),
        },
        VerifyStage::CodeRemoval => {
            if !matches!(outcome, Outcome::Done) {
                error_reply(INTERNAL_SERVER_ERROR, "#VF-RDD")
            } else if data.kind == VerifyKind::AccountVerification {
                Step::Next(
                    VerifyStage::UserUpdate,
                    Action::Update(Collection::Users, Filter::Phone(data.phone_number.clone()), Change::Verified),
                )
            } else {
                let link = sid_creator(55);
                let value = link.clone();
                let r = Step::Next(
                    VerifyStage::LinkStorage(link),
                    Action::CachePut { key: data.phone_number.clone(), value, seconds: 120 },
                );
                r
            }
        },
        VerifyStage::UserUpdate => match outcome {
            Outcome::Updated { matched, modified } => {
                if matched == 0 {
                    Step::Next(
                        VerifyStage::SellerUpdate,
                        Action::Update(Collection::Sellers, Filter::Phone(data.phone_number.clone()), Change::Verified),
                    )
                } else if modified == 0 {
                    error_reply(INTERNAL_SERVER_ERROR, "#VF-MC")
                } else {
                    message_reply(OK, "your account successfully verified")
                }
            },
            _ => error_reply(INTERNAL_SERVER_ERROR, "#VF-UP"),
        },
        VerifyStage::SellerUpdate => match outcome {
            Outcome::Updated { matched, modified } => {
                if matched == 0 {
                    error_reply(NOT_FOUND, "user not found")
                } else if modified == 0 {
                    error_reply(INTERNAL_SERVER_ERROR, "#VF-MC")
                } else {
                    message_reply(OK, "your account successfully verified")
                }
            },
            _ => error_reply(INTERNAL_SERVER_ERROR, "#VF-UP"),
        },
        VerifyStage::LinkStorage(link) => {
            if matches!(outcome, Outcome::Done) {
                reply_message_with(OK, link)
            } else {
                error_reply(INTERNAL_SERVER_ERROR, "#VF-RDS")
            }
        },
    }
}

/// Where a password recovery stands.
pub enum ForgotPasswordStage {
    /// Looking for a user with the number.
    FirstLookup,
    /// Looking again for a user with the number.
    SecondLookup,
    /// Sending a new sign-up code to an unverified account.
    Reminding(SmsFlow),
    /// Sending the password-change code.
    Sending(SmsFlow),
}

/// What a found account is sent: a new sign-up code of `unverified_kind` while unverified,
/// else the password-change code.
pub open spec fn recovery_answer(r: Step<ForgotPasswordStage>, u: User, unverified_kind: SMSKind) -> bool {
    if !u.is_verified {
        starts_sending(r, |f: SmsFlow| ForgotPasswordStage::Reminding(f), u.phone_number, unverified_kind)
    } else {
        starts_sending(r, |f: SmsFlow| ForgotPasswordStage::Sending(f), u.phone_number, SMSKind::ForgotPassword)
    }
}

/// One step of a password recovery. The account is looked for among the users, twice.
pub open spec fn forgot_password_step_ok(
    data: ForgotPasswordDTO,
    stage: ForgotPasswordStage,
    o: Outcome,
    r: Step<ForgotPasswordStage>,
) -> bool {
    match stage {
        ForgotPasswordStage::FirstLookup => match o {
            Outcome::NotFound => r == Step::Next(
                ForgotPasswordStage::SecondLookup,
                Action::FindOne(Collection::Users, Filter::Phone(data.phone_number)),
            ),
            Outcome::Found(Record::User(u)) => recovery_answer(r, u, SMSKind::Signup),
            Outcome::Undecodable(_) => replies_error(r, 500, "#SI-DOC"@),
            _ => replies_error(r, 500, "#FP-F"@),
        },
        ForgotPasswordStage::SecondLookup => match o {
            Outcome::NotFound => replies_error(r, 404, "user not found"@),
            Outcome::Found(Record::User(u)) => recovery_answer(r, u, SMSKind::SellerSignup),
            Outcome::Undecodable(_) => replies_error(r, 500, "#SI-DOC"@),
            _ => replies_error(r, 500, "#FP-FT"@),
        },
        ForgotPasswordStage::Reminding(f) => exists|sr: SmsStep|
            #[trigger] sms_step_ok(f, o, sr) && reminds(
                sr,
                r,
                |g: SmsFlow| ForgotPasswordStage::Reminding(g),
                "verify your account"@,
            ),
        ForgotPasswordStage::Sending(f) => exists|sr: SmsStep|
            #[trigger] sms_step_ok(f, o, sr) && reminds(
                sr,
                r,
                |g: SmsFlow| ForgotPasswordStage::Sending(g),
                "code is sent, verify it"@,
            ),
    }
}

/// Starts a password recovery: first, look for a user with the number.
pub fn forgot_password(data: &ForgotPasswordDTO) -> (r: (ForgotPasswordStage, Action))
    ensures
        r == (ForgotPasswordStage::FirstLookup, Action::FindOne(Collection::Users, Filter::Phone(data.phone_number))),
{
    (ForgotPasswordStage::FirstLookup, Action::FindOne(Collection::Users, Filter::Phone(data.phone_number.clone())))
}

fn recover(u: User, unverified_kind: SMSKind) -> (r: Step<ForgotPasswordStage>)
    ensures
        recovery_answer(r, u, unverified_kind),
{
    if !u.is_verified {
        let (f, a) = SMSAuthentication::verify_sms(&u.phone_number, unverified_kind);
        Step::Next(ForgotPasswordStage::Reminding(f), a)
    } else {
        let (f, a) = SMSAuthentication::verify_sms(&u.phone_number, SMSKind::ForgotPassword);
        Step::Next(ForgotPasswordStage::Sending(f), a)
    }
}

/// One step of a password recovery, given what came of the last operation.
pub fn forgot_password_step(data: &ForgotPasswordDTO, stage: ForgotPasswordStage, outcome: Outcome) -> (r: Step<ForgotPasswordStage>)
    ensures
        forgot_password_step_ok(*data, stage, outcome, r),
{
    let ghost o = outcome;
    match stage {
        ForgotPasswordStage::FirstLookup => match outcome {
            Outcome::NotFound => Step::Next(
                ForgotPasswordStage::SecondLookup,
                Action::FindOne(Collection::Users, Filter::Phone(data.phone_number.clone())),
            ),
            Outcome::Found(Record::User(u)) => recover(u, SMSKind::Signup),
            Outcome::Undecodable(_) => error_reply(INTERNAL_SERVER_ERROR, "#SI-DOC"),
            _ => error_reply(INTERNAL_SERVER_ERROR, "#FP-F"),
        },
        ForgotPasswordStage::SecondLookup => match outcome {
            Outcome::NotFound => error_reply(NOT_FOUND, "user not found"),
            Outcome::Found(Record::User(u)) => recover(u, SMSKind::SellerSignup),
            Outcome::Undecodable(_) => error_reply(INTERNAL_SERVER_ERROR, "#SI-DOC"),
            _ => error_reply(INTERNAL_SERVER_ERROR, "#FP-FT"),
        },
        ForgotPasswordStage::Reminding(f) => {
            let ghost f0 = f;
            let sr = f.step(outcome);
            let ghost sr0 = sr;
            let r = match sr {
                SmsStep::Next(g, a) => Step::Next(ForgotPasswordStage::Reminding(g), a),
                SmsStep::Finished(Ok(())) => message_reply(OK, "verify your account"),
                SmsStep::Finished(Err(e)) => reply_with(BAD_REQUEST, e),
            };
            assert(sms_step_ok(f0, o, sr0));
            r
        },
        ForgotPasswordStage::Sending(f) => {
            let ghost f0 = f;
            let sr = f.step(outcome);
            let ghost sr0 = sr;
            let r = match sr {
                SmsStep::Next(g, a) => Step::Next(ForgotPasswordStage::Sending(g), a),
                SmsStep::Finished(Ok(())) => message_reply(OK, "code is sent, verify it"),
                SmsStep::Finished(Err(e)) => reply_with(BAD_REQUEST, e),
            };
            assert(sms_step_ok(f0, o, sr0));
            r
        },
    }
}

/// Where a password change stands.
pub enum ChangePasswordStage {
    /// Reading the link stored for the number.
    LinkLookup,
    /// Setting the new hash on a user with the number.
    UserUpdate(String),
    /// Setting the new hash on a seller with the number.
    SellerUpdate,
}

/// The start of a password change with the link `sid`: refused at once when the link is
/// empty, else read the link stored for the number.
pub open spec fn change_password_start_ok(data: ChangePasswordDTO, sid: String, r: Step<ChangePasswordStage>) -> bool {
    if sid@.len() == 0 {
        replies_error(r, 401, "UNAUTHORIZED"@)
    } else {
        r == Step::Next(ChangePasswordStage::LinkLookup, Action::CacheGet(data.phone_number))
    }
}

/// One step of a password change: only a link equal to the one stored for the number lets
/// the new password's hash be set, on the user (else the seller) with the number.
pub open spec fn change_password_step_ok(
    data: ChangePasswordDTO,
    sid: String,
    stage: ChangePasswordStage,
    o: Outcome,
    r: Step<ChangePasswordStage>,
) -> bool {
    match stage {
        ChangePasswordStage::LinkLookup => match o {
            Outcome::Text(stored) => if stored@ != sid@ {
                replies_error(r, 401, "unauthorized"@)
            } else {
                exists|hashed: Result<String, ()>|
                    hash_of(data.password@, hashed) && #[trigger] change_password_with_hash_ok(data, hashed, r)
            },
            _ => replies_error(r, 404, "unkown sid"@),
        },
        ChangePasswordStage::UserUpdate(h) => match o {
            Outcome::Updated { matched, modified } => if matched == 0 {
                r == Step::Next(
                    ChangePasswordStage::SellerUpdate,
                    Action::Update(Collection::Sellers, Filter::Phone(data.phone_number), Change::Password(h)),
                )
            } else {
                update_answer(r, modified, "CP-MC"@, "your password successfully changed"@)
            },
            _ => replies_error(r, 500, "#CP-UP"@),
        },
        ChangePasswordStage::SellerUpdate => match o {
            Outcome::Updated { matched, modified } => if matched == 0 {
                replies_error(r, 404, "user not found #E1"@)
            } else {
                update_answer(r, modified, "CP-MC"@, "your password successfully changed"@)
            },
            _ => replies_error(r, 500, "#CP-UP"@),
        },
    }
}

/// What a password change does once the new password was hashed: the hashing error, or the
/// update that sets the hash on the user with the number.
pub open spec fn change_password_with_hash_ok(data: ChangePasswordDTO, hashed: Result<String, ()>, r: Step<ChangePasswordStage>) -> bool {
    match hashed {
        Err(_) => replies_error(r, 500, "#CP-P"@),
        Ok(h) => r == Step::Next(
            ChangePasswordStage::UserUpdate(h),
            Action::Update(Collection::Users, Filter::Phone(data.phone_number), Change::Password(h)),
        ),
    }
}

/// The password change step after hashing the new password: reply the hashing error, or set
/// the hash on the user with the number (and keep it for a seller with the number).
pub fn change_password_with_hash(data: &ChangePasswordDTO, hashed: Result<String, ()>) -> (r: Step<ChangePasswordStage>)
    ensures
        change_password_with_hash_ok(*data, hashed, r),
{
    match hashed {
        Ok(h) => {
            let h2 = h.clone();
            Step::Next(
                ChangePasswordStage::UserUpdate(h),
                Action::Update(Collection::Users, Filter::Phone(data.phone_number.clone()), Change::Password(h2)),
            )
        },
        Err(_) => error_reply(INTERNAL_SERVER_ERROR, "#CP-P"),
    }
}

/// Starts a password change with the link `sid` that `verify` gave.
pub fn change_password(data: &ChangePasswordDTO, sid: &String) -> (r: Step<ChangePasswordStage>)
    ensures
        change_password_start_ok(*data, *sid, r),
{
    if sid.as_str().is_empty() {
        return error_reply(UNAUTHORIZED, "UNAUTHORIZED");
    }
    Step::Next(ChangePasswordStage::LinkLookup, Action::CacheGet(data.phone_number.clone()))
}

/// One step of a password change, given what came of the last operation.
pub fn change_password_step(
    data: &ChangePasswordDTO,
    sid: &String,
    stage: ChangePasswordStage,
    outcome: Outcome,
) -> (r: Step<ChangePasswordStage>)
    ensures
        change_password_step_ok(*data, *sid, stage, outcome, r),
{
    match stage {
        ChangePasswordStage::LinkLookup => match outcome {
            Outcome::Text(stored) => {
                if !stored.eq(sid) {
                    return error_reply(UNAUTHORIZED, "unauthorized");
                }
                let hashed = hash_password(&data.password);
                change_password_with_hash(data, hashed)
            },
            _ => error_reply(NOT_FOUND, "unkown sid"),
        },
        ChangePasswordStage::UserUpdate(h) => match outcome {
            Outcome::Updated { matched, modified } => {
                if matched == 0 {
                    Step::Next(
                        ChangePasswordStage::SellerUpdate,
                        Action::Update(Collection::Sellers, Filter::Phone(data.phone_number.clone()), Change::Password(h)),
                    )
                } else if modified == 0 {
                    error_reply(INTERNAL_SERVER_ERROR, "CP-MC")
                } else {
                    message_reply(OK, "your password successfully changed")
                }
            },
            _ => error_reply(INTERNAL_SERVER_ERROR, "#CP-UP"),
        },
        ChangePasswordStage::SellerUpdate => match outcome {
            Outcome::Updated { matched, modified } => {
                if matched == 0 {
                    error_reply(NOT_FOUND, "user not found #E1")
                } else if modified == 0 {
                    error_reply(INTERNAL_SERVER_ERROR, "CP-MC")
                } else {
                    message_reply(OK, "your password successfully changed")
                }
            },
            _ => error_reply(INTERNAL_SERVER_ERROR, "#CP-UP"),
        },
    }
}

/// Where the upload of an identity picture stands.
pub enum PictureStage {
    /// Reading the form's next field.
    Reading,
    /// Reading the bytes of the picture.
    Loading,
    /// Recording the picture under its identifier and path.
    Storing { sid: String, path: String },
    /// Writing the picture's bytes to its path.
    Writing { sid: String },
}

/// What is done with a field of an uploaded form.
pub enum FieldChoice {
    /// Keep it: read its bytes.
    Keep,
    /// Pass over it.
    Skip,
    /// Refuse the upload.
    Refuse,
}

/// A field named `wanted` is kept when its content type is `image/jpeg` and refuses the
/// upload when it has none; other fields are passed over.
pub open spec fn field_choice(name: String, content_type: Option<String>, wanted: Seq<char>) -> FieldChoice {
    if name@ == wanted {
        match content_type {
            None => FieldChoice::Refuse,
            Some(ct) => if ct@ == "image/jpeg"@ {
                FieldChoice::Keep
            } else {
                FieldChoice::Skip
            },
        }
    } else {
        FieldChoice::Skip
    }
}

/// The step on a field of the choice: read its bytes and resume at `loading`, read the next
/// field and resume at `reading`, or refuse the upload.
pub open spec fn follows_choice<S>(c: FieldChoice, r: Step<S>, reading: S, loading: S) -> bool {
    match c {
        FieldChoice::Keep => r == Step::Next(loading, Action::ReadField),
        FieldChoice::Skip => r == Step::Next(reading, Action::NextField),
        FieldChoice::Refuse => replies_error(r, 400, "unkown content type"@),
    }
}

/// The path where a picture of the given folder and identifier is written.
pub open spec fn picture_path(folder: Seq<char>, sid: Seq<char>) -> Seq<char> {
    folder + sid + ".jpg"@
}

/// `r` goes on by recording the picture `sid` stored at `path`, to resume at `storing(..)`.
pub open spec fn stores_picture<S>(r: Step<S>, sid: String, path: String, storing: spec_fn(String, String) -> S) -> bool {
    &&& r matches Step::Next(st, a)
    &&& st == storing(sid, path)
    &&& a matches Action::Insert(Collection::Images, Record::Image(img))
    &&& img.sid == sid
    &&& img.path == path
}

/// `r` records a fresh picture: an identifier of `len` characters, its path in the folder,
/// and the time, before the bytes are written.
pub open spec fn records_picture<S>(r: Step<S>, folder: Seq<char>, len: nat, storing: spec_fn(String, String) -> S) -> bool {
    exists|sid: String, path: String|
        is_sid(sid@, len) && path@ == picture_path(folder, sid@) && #[trigger] stores_picture(r, sid, path, storing)
}

/// One step of the upload of an identity picture: the first field named `file` that holds a
/// JPEG picture is recorded and written under a fresh 45-character identifier, which is the
/// reply.
pub open spec fn upload_picture_step_ok(stage: PictureStage, o: Outcome, r: Step<PictureStage>) -> bool {
    match stage {
        PictureStage::Reading => match o {
            Outcome::Field { name, content_type } => follows_choice(
                field_choice(name, content_type, "file"@),
                r,
                PictureStage::Reading,
                PictureStage::Loading,
            ),
            Outcome::NoField => replies_error(r, 400, "#UP-NONE"@),
            _ => replies_error(r, 500, "#AUP-WH"@),
        },
        PictureStage::Loading => records_picture(
            r,
            "uploads/auth/"@,
            45,
            |sid: String, path: String| PictureStage::Storing { sid, path },
        ),
        PictureStage::Storing { sid, path } => if o is Done {
            r == Step::Next(PictureStage::Writing { sid }, Action::WriteFile(path))
        } else {
            replies_error(r, 500, "#AUP-I"@)
        },
        PictureStage::Writing { sid } => r == Step::<PictureStage>::Reply(
            Response { status: 200, body: Body::Message(sid) },
        ),
    }
}

/// Starts the upload of an identity picture: read the form's first field.
pub fn upload_picture() -> (r: (PictureStage, Action))
    ensures
        r == (PictureStage::Reading, Action::NextField),
{
    (PictureStage::Reading, Action::NextField)
}

/// What is done with a field of the given name and content type, when the wanted pictures'
/// fields are named `wanted`.
pub fn choose_field(name: &String, content_type: &Option<String>, wanted: &str) -> (c: FieldChoice)
    ensures
        c == field_choice(*name, *content_type, wanted@),
{
    if name.eq(&String::from_str(wanted)) {
        match content_type {
            None => FieldChoice::Refuse,
            Some(ct) => {
                if ct.eq(&String::from_str("image/jpeg")) {
                    FieldChoice::Keep
                } else {
                    FieldChoice::Skip
                }
            },
        }
    } else {
        FieldChoice::Skip
    }
}

/// A fresh picture record: a new identifier of `len` characters, its path in the folder, and
/// the current time.
pub fn new_picture(folder: &str, len: u8) -> (r: (String, String, Images))
    ensures
        is_sid(r.0@, len as nat),
        r.1@ == picture_path(folder@, r.0@),
        r.2.sid == r.0,
        r.2.path == r.1,
{
    let sid = sid_creator(len);
    let mut path = join(folder, sid.as_str());
    path.append(".jpg");
    let image = Images { sid: sid.clone(), path: path.clone(), created_at: formatted_time() };
    (sid, path, image)
}

/// One step of the upload of an identity picture, given what came of the last operation.
pub fn upload_picture_step(stage: PictureStage, outcome: Outcome) -> (r: Step<PictureStage>)
    ensures
        upload_picture_step_ok(stage, outcome, r),
{
    match stage {
        PictureStage::Reading => match outcome {
            Outcome::Field { name, content_type } => match choose_field(&name, &content_type, "file") {
                FieldChoice::Keep => Step::Next(PictureStage::Loading, Action::ReadField),
                FieldChoice::Skip => Step::Next(PictureStage::Reading, Action::NextField),
                FieldChoice::Refuse => error_reply(BAD_REQUEST, "unkown content type"),
            },
            Outcome::NoField => error_reply(BAD_REQUEST, "#UP-NONE"),
            _ => error_reply(INTERNAL_SERVER_ERROR, "#AUP-WH"),
        },
        PictureStage::Loading => {
            let (sid, path, image) = new_picture("uploads/auth/", 45);
            let ghost (s0, p0) = (sid, path);
            let r = Step::Next(
                PictureStage::Storing { sid, path },
                Action::Insert(Collection::Images, Record::Image(image)),
            );
            assert(stores_picture(r, s0, p0, |sid: String, path: String| PictureStage::Storing { sid, path }));
            r
        },
        PictureStage::Storing { sid, path } => {
            if matches!(outcome, Outcome::Done) {
                Step::Next(PictureStage::Writing { sid }, Action::WriteFile(path))
            } else {
                error_reply(INTERNAL_SERVER_ERROR, "#AUP-I")
            }
        },
        PictureStage::Writing { sid } => reply_message_with(OK, sid),
    }
}

} // verus!
