//! Laws of the handlers: what holds across their steps.
use vstd::prelude::*;
use crate::app::models::dto::{
    BuyProductDTO, SellerSignupDTO, ChangePasswordDTO, SigninDTO, SignupDTO, VerifyDTO, VerifyKind,
};
use crate::app::models::order::Order;
use crate::app::models::user::{Seller, User};
use crate::app::services::auth::{
    built_seller, built_user, change_password_start_ok, change_password_step_ok,
    change_password_with_hash_ok, fresh_seller, fresh_user, hash_of, seller_signup_with_hash_ok,
    signup_with_hash_ok,
    seller_signup_step_ok, SellerSignupStage, password_answer,
    signin_step_ok, signup_step_ok, token_reply, verify_step_ok, ChangePasswordStage,
    SigninStage, SignupStage, VerifyStage,
};
use crate::app::services::flow::{
    leads_to, replies_with, Action, Body, Change, Collection, Filter, Outcome, Record, Response,
    Step,
};
use crate::app::services::product::{buy_product_step_ok, fresh_order, BuyProductStage};
use crate::app::services::sms::{
    code_in_range, code_message, code_pending, code_recently_sent, finished_with, message_not_sent,
    no_code_marker, reminds, sms_step_ok, starts_sending, stores_code, SMSKind, SmsFlow, SmsStage,
    SmsStep,
};
use crate::app::utils::text::{decimal, digit_char};
use crate::app::pkg::valid_national_code;
use crate::app::utils::jwt::{
    answers_token, claims_verdict, gives_verdict, jwt_key_verifies, jwt_signed, read_back, JwtClaims,
};
use crate::app::middleware::{bearer_of, first_space_at, guard_answer, guards, MiddlewareData};
use crate::app::utils::password::bcrypt_verdict;

verus! {

/// A run of a user's sign-up: it starts at the seller lookup; step `i` answers outcome `i`
/// at stage `i`, and each step but the last goes on to the next stage.
pub open spec fn signup_run(
    data: SignupDTO,
    stages: Seq<SignupStage>,
    outcomes: Seq<Outcome>,
    steps: Seq<Step<SignupStage>>,
) -> bool {
    &&& stages.len() == outcomes.len()
    &&& steps.len() == outcomes.len()
    &&& stages.len() > 0 ==> stages[0] is SellerLookup
    &&& forall|i: int| 0 <= i < stages.len() ==> #[trigger] signup_step_ok(data, stages[i], outcomes[i], steps[i])
    &&& forall|i: int| 0 <= i < stages.len() - 1 ==> leads_to(#[trigger] steps[i], stages[i + 1])
}

/// What a sign-up run has established when it reaches stage `i`.
spec fn signup_progress(data: SignupDTO, stages: Seq<SignupStage>, outcomes: Seq<Outcome>, i: int) -> bool {
    match stages[i] {
        SignupStage::SellerLookup => i == 0,
        SignupStage::UserLookup => i == 1 && outcomes[0] is NotFound,
        SignupStage::Reminding(_) => i >= 2,
        SignupStage::Confirming(u, _) => {
            &&& i >= 2
            &&& outcomes[0] is NotFound
            &&& outcomes[1] is NotFound
            &&& fresh_user(data, u)
        },
        SignupStage::Inserting => i >= 2 && outcomes[0] is NotFound && outcomes[1] is NotFound,
    }
}

proof fn lemma_signup_progress(
    data: SignupDTO,
    stages: Seq<SignupStage>,
    outcomes: Seq<Outcome>,
    steps: Seq<Step<SignupStage>>,
    i: int,
)
    requires
        signup_run(data, stages, outcomes, steps),
        0 <= i < stages.len(),
    ensures
        signup_progress(data, stages, outcomes, i),
    decreases i,
{
    if i > 0 {
        lemma_signup_progress(data, stages, outcomes, steps, i - 1);
        let j = i - 1;
        assert(signup_step_ok(data, stages[j], outcomes[j], steps[j]));
        assert(leads_to(steps[j], stages[j + 1]));
        match stages[j] {
            SignupStage::SellerLookup => {},
            SignupStage::UserLookup => {
                match outcomes[j] {
                    Outcome::NotFound => {
                        if !(steps[j] matches Step::Reply(_)) {
                            let u = signup_account_of(data, steps[j]);
                            assert(stages[i] matches SignupStage::Confirming(v, _) && v == u);
                        }
                    },
                    _ => {},
                }
            },
            SignupStage::Reminding(f) => {
                let sr = choose|sr: SmsStep| #[trigger] sms_step_ok(f, outcomes[j], sr) && reminds(
                    sr,
                    steps[j],
                    |g: SmsFlow| SignupStage::Reminding(g),
                    "verify your account"@,
                );
            },
            SignupStage::Confirming(u, f) => {
                let sr = choose|sr: SmsStep| #[trigger] sms_step_ok(f, outcomes[j], sr) && match sr {
                    SmsStep::Next(g, a) => steps[j] == Step::Next(SignupStage::Confirming(u, g), a),
                    SmsStep::Finished(Ok(())) => steps[j] == Step::Next(
                        SignupStage::Inserting,
                        Action::Insert(Collection::Users, Record::User(u)),
                    ),
                    SmsStep::Finished(Err(e)) => replies_with(steps[j], 500, e),
                };
            },
            SignupStage::Inserting => {},
        }
    }
}

/// The account that a sign-up step makes after hashing the password, where it goes on.
proof fn signup_account_of(data: SignupDTO, r: Step<SignupStage>) -> (u: User)
    requires
        exists|hashed: Result<String, ()>| hash_of(data.password@, hashed) && #[trigger] signup_with_hash_ok(data, hashed, r),
        !(r matches Step::Reply(_)),
    ensures
        fresh_user(data, u),
        starts_sending(r, |f: SmsFlow| SignupStage::Confirming(u, f), u.phone_number, SMSKind::Signup),
{
    let hashed = choose|hashed: Result<String, ()>| hash_of(data.password@, hashed) && #[trigger] signup_with_hash_ok(data, hashed, r);
    let h = hashed->Ok_0;
    choose|u: User|
        #[trigger] built_user(data, h, u) && starts_sending(
            r,
            |f: SmsFlow| SignupStage::Confirming(u, f),
            u.phone_number,
            SMSKind::Signup,
        )
}

/// The account that a seller's sign-up step makes after hashing the password, where it goes
/// on.
proof fn seller_account_of(data: SellerSignupDTO, r: Step<SellerSignupStage>) -> (s: Seller)
    requires
        exists|hashed: Result<String, ()>| hash_of(data.password@, hashed) && #[trigger] seller_signup_with_hash_ok(data, hashed, r),
        !(r matches Step::Reply(_)),
    ensures
        fresh_seller(data, s),
        starts_sending(r, |f: SmsFlow| SellerSignupStage::Confirming(s, f), s.phone_number, SMSKind::SellerSignup),
{
    let hashed = choose|hashed: Result<String, ()>| hash_of(data.password@, hashed) && #[trigger] seller_signup_with_hash_ok(data, hashed, r);
    let h = hashed->Ok_0;
    choose|s: Seller|
        #[trigger] built_seller(data, h, s) && starts_sending(
            r,
            |f: SmsFlow| SellerSignupStage::Confirming(s, f),
            s.phone_number,
            SMSKind::SellerSignup,
        )
}

/// A sign-up stores an account only for a number that no seller and no user held (both
/// lookups found nothing), and what it stores is the account made of what was sent, with a
/// hash that the password checks against.
pub proof fn signup_stores_only_new_numbers(
    data: SignupDTO,
    stages: Seq<SignupStage>,
    outcomes: Seq<Outcome>,
    steps: Seq<Step<SignupStage>>,
    k: int,
    stage: SignupStage,
    u: User,
)
    requires
        signup_run(data, stages, outcomes, steps),
        0 <= k < steps.len(),
        steps[k] == Step::Next(stage, Action::Insert(Collection::Users, Record::User(u))),
    ensures
        outcomes[0] is NotFound,
        outcomes[1] is NotFound,
        fresh_user(data, u),
{
    lemma_signup_progress(data, stages, outcomes, steps, k);
    assert(signup_step_ok(data, stages[k], outcomes[k], steps[k]));
    match stages[k] {
        SignupStage::Reminding(f) => {
            let sr = choose|sr: SmsStep| #[trigger] sms_step_ok(f, outcomes[k], sr) && reminds(
                sr,
                steps[k],
                |g: SmsFlow| SignupStage::Reminding(g),
                "verify your account"@,
            );
        },
        SignupStage::Confirming(v, f) => {
            let sr = choose|sr: SmsStep| #[trigger] sms_step_ok(f, outcomes[k], sr) && match sr {
                SmsStep::Next(g, a) => steps[k] == Step::Next(SignupStage::Confirming(v, g), a),
                SmsStep::Finished(Ok(())) => steps[k] == Step::Next(
                    SignupStage::Inserting,
                    Action::Insert(Collection::Users, Record::User(v)),
                ),
                SmsStep::Finished(Err(e)) => replies_with(steps[k], 500, e),
            };
            match sr {
                SmsStep::Next(g, a) => {
                    assert(a matches Action::Insert(..) ==> false) by {
                        // the code-sending steps only read the cache, store a code, or send it
                        assert(sms_step_ok(f, outcomes[k], sr));
                    }
                },
                _ => {},
            }
        },
        SignupStage::UserLookup => {
            if outcomes[k] is NotFound && !(steps[k] matches Step::Reply(_)) {
                let w = signup_account_of(data, steps[k]);
            }
        },
        _ => {},
    }
}

/// The password given at sign-up signs in: the account that a sign-up makes holds a hash
/// that the same password checks against, so a sign-in with that password on the (verified)
/// stored account answers with a session token, never with "incorrect".
pub proof fn signup_password_signs_in(
    data: SignupDTO,
    o: Outcome,
    u: User,
    f: SmsFlow,
    a: Action,
    login: SigninDTO,
    stored: User,
    now: usize,
    r: Step<SigninStage>,
)
    requires
        signup_step_ok(data, SignupStage::UserLookup, o, Step::Next(SignupStage::Confirming(u, f), a)),
        login.password@ == data.password@,
        stored.password == u.password,
        stored.is_verified,
        signin_step_ok(login, SigninStage::UserLookup, Outcome::Found(Record::User(stored)), now, r),
    ensures
        bcrypt_verdict(login.password@, stored.password@) == Some(true),
        token_reply(r, stored.sid, now, 900, "#SI-T"@),
{
    match o {
        Outcome::NotFound => {
            let w = signup_account_of(data, Step::Next(SignupStage::Confirming(u, f), a));
            assert(w == u);
        },
        _ => {},
    }
}

/// Sign-in answers 200 with a lookup's result only with a session token, and only for a
/// verified account whose stored hash the password checks against: users' tokens expire 900
/// seconds after the clock reading, sellers' 600.
pub proof fn signin_grants_only_verified_matches(data: SigninDTO, stage: SigninStage, o: Outcome, now: usize, resp: Response)
    requires
        signin_step_ok(data, stage, o, now, Step::Reply(resp)),
        resp.status == 200,
        !(stage is Reminding),
    ensures
        stage is UserLookup ==> token_for_account(data, o, resp, now, 900, "#SI-T"@),
        stage is SellerLookup ==> token_for_account(data, o, resp, now, 600, "#SSI-SEC1T"@),
{
}

/// The reply `resp` is a session token, expiring `lifetime` seconds after `now`, for the
/// account that the outcome found, which is verified and whose stored hash the password
/// checks against.
pub open spec fn token_for_account(data: SigninDTO, o: Outcome, resp: Response, now: usize, lifetime: usize, fail: Seq<char>) -> bool {
    match o {
        Outcome::Found(Record::User(u)) => {
            &&& u.is_verified
            &&& bcrypt_verdict(data.password@, u.password@) == Some(true)
            &&& token_reply(Step::<SigninStage>::Reply(resp), u.sid, now, lifetime, fail)
        },
        Outcome::Found(Record::Seller(s)) => {
            &&& s.is_verified
            &&& bcrypt_verdict(data.password@, s.password@) == Some(true)
            &&& token_reply(Step::<SigninStage>::Reply(resp), s.sid, now, lifetime, fail)
        },
        _ => false,
    }
}

/// The code that a message carries is the code stored for the number, and a code is stored
/// and sent only where none was pending: the first step of sending reads no pending code and
/// stores a code of the kind's range under the number for 120 s; the step after it sends
/// exactly that code, to that number.
pub proof fn sent_code_is_stored_code(
    f: SmsFlow,
    o0: Outcome,
    g: SmsFlow,
    put: Action,
    o1: Outcome,
    h: SmsFlow,
    text: String,
    mobile: String,
)
    requires
        f.stage is Checking,
        sms_step_ok(f, o0, SmsStep::Next(g, put)),
        sms_step_ok(g, o1, SmsStep::Next(h, Action::SendSms { text, mobile })),
    ensures
        !code_pending(o0),
        mobile == f.phone,
        exists|code: u32|
            code_in_range(f.kind, code) && #[trigger] stores_code(f, SmsStep::Next(g, put), code)
                && text@ == code_message(f.kind, code),
{
    let code = choose|code: u32| code_in_range(f.kind, code) && #[trigger] stores_code(f, SmsStep::Next(g, put), code);
    assert(g.stage == SmsStage::Storing(code));
}

/// A decimal numeral starts with a digit.
proof fn lemma_decimal_starts_with_digit(n: nat)
    ensures
        decimal(n).len() >= 1,
        '0' <= decimal(n)[0] <= '9',
    decreases n,
{
    if n >= 10 {
        lemma_decimal_starts_with_digit(n / 10);
    } else {
        assert(n == 0 || n == 1 || n == 2 || n == 3 || n == 4 || n == 5 || n == 6 || n == 7 || n == 8 || n == 9);
        assert(decimal(n)[0] == digit_char(n));
    }
}

/// A code whose message failed stays pending: once the code is stored under the number (for
/// 120 s), the sending goes on only to the message, never to a removal of the code; a failed
/// message ends the sending with "error sending the text message"; and a new request for the
/// number that reads the stored code back answers "a code was sent recently".
pub proof fn a_code_whose_message_failed_stays_pending(
    f0: SmsFlow,
    r0: SmsStep,
    code: u32,
    r1: SmsStep,
    o2: Outcome,
    r2: SmsStep,
    g: SmsFlow,
    stored: String,
    r3: SmsStep,
)
    requires
        stores_code(f0, r0, code),
        sms_step_ok(r0->Next_0, Outcome::Done, r1),
        sms_step_ok(r1->Next_0, o2, r2),
        !(o2 is Done),
        g.stage is Checking,
        g.phone == f0.phone,
        r0->Next_1 matches Action::CachePut { value, .. } && stored == value,
        sms_step_ok(g, Outcome::Text(stored), r3),
    ensures
        r1 matches SmsStep::Next(_, a) && a is SendSms,
        finished_with(r2, message_not_sent()),
        finished_with(r3, code_recently_sent()),
{
    lemma_decimal_starts_with_digit(code as nat);
    reveal_strlit("n115");
    assert(stored@[0] != no_code_marker()[0]);
    assert(stored@ != no_code_marker());
}

/// A code is used up before it acts: the verification goes on past the lookup only where
/// the stored code equals the code sent, and its next step removes that code; only once the
/// removal is done does it mark the account verified (for account verification) or store a
/// password-change link (otherwise).
pub proof fn verification_uses_up_matching_code(
    data: VerifyDTO,
    o0: Outcome,
    r0: Step<VerifyStage>,
    stage: VerifyStage,
    o1: Outcome,
    next: VerifyStage,
    a1: Action,
)
    requires
        verify_step_ok(data, VerifyStage::CodeLookup, o0, r0),
        leads_to(r0, stage),
        verify_step_ok(data, stage, o1, Step::Next(next, a1)),
    ensures
        o0 matches Outcome::Text(c) && c@ == data.code@,
        r0 == Step::Next(VerifyStage::CodeRemoval, Action::CacheDelete(data.phone_number)),
        o1 is Done,
        data.kind == VerifyKind::AccountVerification ==> a1 == Action::Update(
            Collection::Users,
            Filter::Phone(data.phone_number),
            Change::Verified,
        ),
        data.kind != VerifyKind::AccountVerification ==> (a1 matches Action::CachePut { key, seconds, .. }
            && key == data.phone_number && seconds == 120),
{
}

/// A password is changed only with the link stored for the number: a change that gets past
/// the start has a non-empty link, and its next step sets a hash (one that the new password
/// checks against) on the user with the number only where the stored link equals it.
pub proof fn password_changes_only_with_stored_link(
    data: ChangePasswordDTO,
    sid: String,
    r0: Step<ChangePasswordStage>,
    o: Outcome,
    stage: ChangePasswordStage,
    a: Action,
)
    requires
        change_password_start_ok(data, sid, r0),
        leads_to(r0, ChangePasswordStage::LinkLookup),
        change_password_step_ok(data, sid, ChangePasswordStage::LinkLookup, o, Step::Next(stage, a)),
    ensures
        sid@.len() > 0,
        o matches Outcome::Text(stored) && stored@ == sid@,
        a matches Action::Update(Collection::Users, Filter::Phone(p), Change::Password(h))
            && p == data.phone_number && bcrypt_verdict(data.password@, h@) == Some(true),
{
}

/// A purchase records one and the same new order with the seller and with the buyer.
pub proof fn purchase_records_one_order(
    data: BuyProductDTO,
    product_sid: String,
    user_sid: String,
    seller_sid: String,
    o1: Outcome,
    order: Order,
    a1: Action,
    o2: Outcome,
    a2: Action,
)
    requires
        buy_product_step_ok(
            data,
            product_sid,
            user_sid,
            BuyProductStage::SellerLookup(seller_sid),
            o1,
            Step::Next(BuyProductStage::SellerPush(order), a1),
        ),
        buy_product_step_ok(
            data,
            product_sid,
            user_sid,
            BuyProductStage::SellerPush(order),
            o2,
            Step::Next(BuyProductStage::UserPush, a2),
        ),
    ensures
        fresh_order(data, product_sid, user_sid, order),
        a1 == Action::Update(Collection::Sellers, Filter::Sid(seller_sid), Change::PushUnscheduledOrder(order)),
        a2 == Action::Update(Collection::Users, Filter::Sid(user_sid), Change::PushOrder(order)),
{
}

/// A session token's claims are accepted exactly until they expire, and then give back the
/// account identifier they carry.
pub proof fn tokens_last_until_expiry(sid: Seq<char>, exp: usize, now: usize)
    ensures
        claims_verdict(Some(JwtClaims { exp, sid }), now) == if exp > now {
            Ok::<Seq<char>, Seq<char>>(sid)
        } else {
            Err::<Seq<char>, Seq<char>>("token expired"@)
        },
        claims_verdict(None, now) == Err::<Seq<char>, Seq<char>>("error on decoding token"@),
{
}

/// A token is accepted only as the account it was made for: where `create_token` made
/// `token` for the claims `(sid, exp)`, an answer of `verify_token` to it that lets it in gives
/// back `sid`, and one that does not says that the token expired or could not be decoded.
pub proof fn tokens_carry_their_account(sid: Seq<char>, exp: usize, token: Seq<char>, r: Result<String, String>)
    requires
        jwt_signed(sid, exp) == Some(token),
        answers_token(token, r),
    ensures
        r matches Ok(s) ==> s@ == sid,
        r matches Err(e) ==> e@ == "token expired"@ || e@ == "error on decoding token"@,
{
    let (decoded, now) = choose|decoded: Option<JwtClaims>, now: usize|
        (decoded matches Some(c) ==> read_back(token, c)) && #[trigger] gives_verdict(r, claims_verdict(decoded, now));
    if let Some(c) = decoded {
        assert(jwt_signed(sid, exp) == Some(token));
        assert(c == (JwtClaims { exp, sid }));
    }
}

/// Only a token whose signature checks under the library's key is accepted: an altered
/// token, one signed with another key or another algorithm, or a text that is no token, is
/// refused.
pub proof fn accepted_tokens_are_signed_with_the_key(token: Seq<char>, r: Result<String, String>)
    requires
        answers_token(token, r),
        r is Ok,
    ensures
        jwt_key_verifies(token),
{
    let (decoded, now) = choose|decoded: Option<JwtClaims>, now: usize|
        {
            &&& (decoded matches Some(c) ==> read_back(token, c))
            &&& (decoded is Some ==> jwt_key_verifies(token))
            &&& (!token.contains('.') ==> decoded is None)
            &&& #[trigger] gives_verdict(r, claims_verdict(decoded, now))
        };
}

/// The guard lets a request in only with a token, after the first space of the
/// `Authorization` value, whose signature checks under the library's key.
pub proof fn guard_passes_only_key_signed_tokens(header: String, r: Result<MiddlewareData, u16>)
    requires
        guards(Some(header), r),
        r is Ok,
    ensures
        exists|t: Seq<char>| #[trigger] bearer_of(header@, t) && jwt_key_verifies(t),
{
    let (t, verdict) = choose|t: Seq<char>, verdict: Result<String, String>|
        #[trigger] bearer_of(header@, t) && answers_token(t, verdict) && #[trigger] guard_answer(verdict, r);
    accepted_tokens_are_signed_with_the_key(t, verdict);
}

/// The guard lets a request in only as the account whose token it carries: where the
/// `Authorization` value holds, after its first space, a token made for `sid`, a request that
/// passes carries `sid`.
pub proof fn guard_passes_only_the_token_owner(
    header: String,
    token: Seq<char>,
    sid: Seq<char>,
    exp: usize,
    r: Result<MiddlewareData, u16>,
)
    requires
        bearer_of(header@, token),
        jwt_signed(sid, exp) == Some(token),
        guards(Some(header), r),
    ensures
        r matches Ok(d) ==> d.sid@ == sid,
        r matches Err(status) ==> status == 401,
{
    let (t, verdict) = choose|t: Seq<char>, verdict: Result<String, String>|
        #[trigger] bearer_of(header@, t) && answers_token(t, verdict) && #[trigger] guard_answer(verdict, r);
    let k1 = choose|k: int| #[trigger] first_space_at(header@, k) && token == header@.subrange(k + 1, header@.len() as int);
    let k2 = choose|k: int| #[trigger] first_space_at(header@, k) && t == header@.subrange(k + 1, header@.len() as int);
    if k1 < k2 {
        assert(header@[k1] != ' ');
    } else if k2 < k1 {
        assert(header@[k2] != ' ');
    }
    assert(t == token);
    tokens_carry_their_account(sid, exp, token, verdict);
}

/// The identifier of the account that a sign-in's outcome found.
pub open spec fn found_account_sid(o: Outcome) -> Option<Seq<char>> {
    match o {
        Outcome::Found(Record::User(u)) => Some(u.sid@),
        Outcome::Found(Record::Seller(s)) => Some(s.sid@),
        _ => None,
    }
}

/// A session token that sign-in hands out, sent back as `Authorization: <scheme> <token>`,
/// lets requests in only as the account that signed in.
pub proof fn signin_tokens_pass_the_guard_as_their_account(
    data: SigninDTO,
    stage: SigninStage,
    o: Outcome,
    now: usize,
    resp: Response,
    header: String,
    r: Result<MiddlewareData, u16>,
)
    requires
        signin_step_ok(data, stage, o, now, Step::Reply(resp)),
        resp.status == 200,
        !(stage is Reminding),
        resp.body matches Body::Message(token) && bearer_of(header@, token@),
        guards(Some(header), r),
    ensures
        r matches Ok(d) ==> found_account_sid(o) == Some(d.sid@),
{
    signin_grants_only_verified_matches(data, stage, o, now, resp);
    let token = resp.body->Message_0;
    let lifetime: usize = if stage is UserLookup { 900 } else { 600 };
    let sid = match o {
        Outcome::Found(Record::User(u)) => u.sid,
        Outcome::Found(Record::Seller(s)) => s.sid,
        _ => token,
    };
    let exp = (now + lifetime) as usize;
    assert(jwt_signed(sid@, exp) == Some(token@));
    guard_passes_only_the_token_owner(header, token@, sid@, exp, r);
}

/// Only an account that is verified and whose stored hash the password checks against gets,
/// from sign-in, a reply that verifies as a session token, and the token gives back that
/// account's identifier: the reminder sent to an unverified account is no token.
pub proof fn signin_tokens_that_verify_belong_to_checked_accounts(
    data: SigninDTO,
    stage: SigninStage,
    o: Outcome,
    now: usize,
    resp: Response,
    sid: String,
)
    requires
        signin_step_ok(data, stage, o, now, Step::Reply(resp)),
        resp.status == 200,
        resp.body matches Body::Message(m) && answers_token(m@, Ok::<String, String>(sid)),
    ensures
        !(stage is Reminding),
        stage is UserLookup ==> token_for_account(data, o, resp, now, 900, "#SI-T"@),
        stage is SellerLookup ==> token_for_account(data, o, resp, now, 600, "#SSI-SEC1T"@),
        found_account_sid(o) == Some(sid@),
{
    let m = resp.body->Message_0;
    if let SigninStage::Reminding(f) = stage {
        let sr = choose|sr: SmsStep| #[trigger] sms_step_ok(f, o, sr) && reminds(
            sr,
            Step::<SigninStage>::Reply(resp),
            |g: SmsFlow| SigninStage::Reminding(g),
            "verify your account"@,
        );
        assert(m@ == "verify your account"@);
        reveal_strlit("verify your account");
        assert(!m@.contains('.')) by {
            assert forall|i: int| 0 <= i < m@.len() implies m@[i] != '.' by {}
        }
        let (decoded, t) = choose|decoded: Option<JwtClaims>, t: usize|
            (decoded matches Some(c) ==> read_back(m@, c))
            && (!m@.contains('.') ==> decoded is None)
            && #[trigger] gives_verdict(Ok::<String, String>(sid), claims_verdict(decoded, t));
        assert(false);
    } else {
        signin_grants_only_verified_matches(data, stage, o, now, resp);
        let lifetime: usize = if stage is UserLookup { 900 } else { 600 };
        let account = match o {
            Outcome::Found(Record::User(u)) => u.sid,
            Outcome::Found(Record::Seller(s)) => s.sid,
            _ => m,
        };
        let exp = (now + lifetime) as usize;
        assert(jwt_signed(account@, exp) == Some(m@));
        tokens_carry_their_account(account@, exp, m@, Ok::<String, String>(sid));
    }
}

/// A run of a seller's sign-up, as `signup_run` is of a user's.
pub open spec fn seller_signup_run(
    data: SellerSignupDTO,
    stages: Seq<SellerSignupStage>,
    outcomes: Seq<Outcome>,
    steps: Seq<Step<SellerSignupStage>>,
) -> bool {
    &&& stages.len() == outcomes.len()
    &&& steps.len() == outcomes.len()
    &&& stages.len() > 0 ==> stages[0] is SellerLookup
    &&& forall|i: int| 0 <= i < stages.len() ==> #[trigger] seller_signup_step_ok(data, stages[i], outcomes[i], steps[i])
    &&& forall|i: int| 0 <= i < stages.len() - 1 ==> leads_to(#[trigger] steps[i], stages[i + 1])
}

/// An outcome that reports no error of the operation.
pub open spec fn succeeded(o: Outcome) -> bool {
    !(o is Failed) && !(o is Undecodable)
}

/// What a seller's sign-up has checked before it makes an account: no seller holds the
/// number, the user account with the number was removed, the card's picture exists, and the
/// national code is valid.
pub open spec fn seller_checks_passed(data: SellerSignupDTO, outcomes: Seq<Outcome>, steps: Seq<Step<SellerSignupStage>>) -> bool {
    &&& outcomes[0] is NotFound
    &&& steps[0] == Step::Next(
        SellerSignupStage::UserRemoval,
        Action::Delete(Collection::Users, Filter::Phone(data.phone_number)),
    )
    &&& succeeded(outcomes[1])
    &&& succeeded(outcomes[2])
    &&& !(outcomes[2] is NotFound)
    &&& valid_national_code(data.national_code@)
}

spec fn seller_signup_progress(
    data: SellerSignupDTO,
    stages: Seq<SellerSignupStage>,
    outcomes: Seq<Outcome>,
    steps: Seq<Step<SellerSignupStage>>,
    i: int,
) -> bool {
    match stages[i] {
        SellerSignupStage::SellerLookup => i == 0,
        SellerSignupStage::Reminding(_) => i >= 1,
        SellerSignupStage::NationalCodeLookup => i >= 1,
        SellerSignupStage::UserRemoval => i == 1 && outcomes[0] is NotFound && steps[0] == Step::Next(
            SellerSignupStage::UserRemoval,
            Action::Delete(Collection::Users, Filter::Phone(data.phone_number)),
        ),
        SellerSignupStage::ImageLookup => {
            &&& i == 2
            &&& outcomes[0] is NotFound
            &&& steps[0] == Step::Next(
                SellerSignupStage::UserRemoval,
                Action::Delete(Collection::Users, Filter::Phone(data.phone_number)),
            )
            &&& succeeded(outcomes[1])
        },
        SellerSignupStage::Confirming(s, _) => i >= 3 && seller_checks_passed(data, outcomes, steps) && fresh_seller(data, s),
        SellerSignupStage::Inserting => i >= 3 && seller_checks_passed(data, outcomes, steps),
    }
}

proof fn lemma_seller_signup_progress(
    data: SellerSignupDTO,
    stages: Seq<SellerSignupStage>,
    outcomes: Seq<Outcome>,
    steps: Seq<Step<SellerSignupStage>>,
    i: int,
)
    requires
        seller_signup_run(data, stages, outcomes, steps),
        0 <= i < stages.len(),
    ensures
        seller_signup_progress(data, stages, outcomes, steps, i),
    decreases i,
{
    if i > 0 {
        lemma_seller_signup_progress(data, stages, outcomes, steps, i - 1);
        let j = i - 1;
        assert(seller_signup_step_ok(data, stages[j], outcomes[j], steps[j]));
        assert(leads_to(steps[j], stages[j + 1]));
        match stages[j] {
            SellerSignupStage::ImageLookup => {
                if succeeded(outcomes[j]) && !(outcomes[j] is NotFound) && valid_national_code(data.national_code@)
                    && !(steps[j] matches Step::Reply(_)) {
                    let w = seller_account_of(data, steps[j]);
                    assert(stages[i] matches SellerSignupStage::Confirming(v, _) && v == w);
                }
            },
            SellerSignupStage::Reminding(f) => {
                let sr = choose|sr: SmsStep| #[trigger] sms_step_ok(f, outcomes[j], sr) && reminds(
                    sr,
                    steps[j],
                    |g: SmsFlow| SellerSignupStage::Reminding(g),
                    "verify your account"@,
                );
            },
            SellerSignupStage::Confirming(v, f) => {
                let sr = choose|sr: SmsStep| #[trigger] sms_step_ok(f, outcomes[j], sr) && match sr {
                    SmsStep::Next(g, a) => steps[j] == Step::Next(SellerSignupStage::Confirming(v, g), a),
                    SmsStep::Finished(Ok(())) => steps[j] == Step::Next(
                        SellerSignupStage::Inserting,
                        Action::Insert(Collection::Sellers, Record::Seller(v)),
                    ),
                    SmsStep::Finished(Err(e)) => replies_with(steps[j], 500, e),
                };
            },
            _ => {},
        }
    }
}

/// A seller's sign-up stores an account only after checking that no seller holds the
/// number, removing the user account with the number, finding the national card's picture
/// and finding the national code valid; what it stores is the account made of what was
/// sent, with a hash that the password checks against.
pub proof fn seller_signup_stores_only_checked_accounts(
    data: SellerSignupDTO,
    stages: Seq<SellerSignupStage>,
    outcomes: Seq<Outcome>,
    steps: Seq<Step<SellerSignupStage>>,
    k: int,
    stage: SellerSignupStage,
    s: Seller,
)
    requires
        seller_signup_run(data, stages, outcomes, steps),
        0 <= k < steps.len(),
        steps[k] == Step::Next(stage, Action::Insert(Collection::Sellers, Record::Seller(s))),
    ensures
        seller_checks_passed(data, outcomes, steps),
        fresh_seller(data, s),
{
    lemma_seller_signup_progress(data, stages, outcomes, steps, k);
    assert(seller_signup_step_ok(data, stages[k], outcomes[k], steps[k]));
    match stages[k] {
        SellerSignupStage::Reminding(f) => {
            let sr = choose|sr: SmsStep| #[trigger] sms_step_ok(f, outcomes[k], sr) && reminds(
                sr,
                steps[k],
                |g: SmsFlow| SellerSignupStage::Reminding(g),
                "verify your account"@,
            );
        },
        SellerSignupStage::Confirming(v, f) => {
            let sr = choose|sr: SmsStep| #[trigger] sms_step_ok(f, outcomes[k], sr) && match sr {
                SmsStep::Next(g, a) => steps[k] == Step::Next(SellerSignupStage::Confirming(v, g), a),
                SmsStep::Finished(Ok(())) => steps[k] == Step::Next(
                    SellerSignupStage::Inserting,
                    Action::Insert(Collection::Sellers, Record::Seller(v)),
                ),
                SmsStep::Finished(Err(e)) => replies_with(steps[k], 500, e),
            };
        },
        SellerSignupStage::ImageLookup => {
            if succeeded(outcomes[k]) && !(outcomes[k] is NotFound) && valid_national_code(data.national_code@)
                && !(steps[k] matches Step::Reply(_)) {
                let w = seller_account_of(data, steps[k]);
            }
        },
        _ => {},
    }
}

} // verus!
