//! Verification codes sent by text message.
//!
//! Sending a code is a short state machine of its own, run inside the handlers that need it:
//! look in the cache for a code already sent to the number (and refuse while one is
//! pending), store a fresh code there for two minutes, then send it.
use vstd::prelude::*;
use vstd::string::StringExecFns;
use crate::app::services::flow::{Action, Outcome};
use crate::app::utils::code::{seller_verify_creator, verify_creator};
use crate::app::utils::text::{decimal, decimal_string};

verus! {

/// What a code is sent for; it decides the message's heading and the range of the code.
#[derive(PartialEq, Eq, Structural)]
pub enum SMSKind {
    Signup,
    ForgotPassword,
    SellerSignup,
    Signin,
}

/// The heading of a message of this kind.
pub open spec fn kind_label(k: SMSKind) -> Seq<char> {
    match k {
        SMSKind::Signup => "ثبت نام"@,
        SMSKind::SellerSignup => " ثبت نام فروشنده"@,
        SMSKind::ForgotPassword => "تغییر رمز"@,
        SMSKind::Signin => "ورورد به حساب"@,
    }
}

impl SMSKind {
    /// The heading of a message of this kind.
    pub fn to_string(&self) -> (s: String)
        ensures
            s@ == kind_label(*self),
    {
        match self {
            SMSKind::Signup => String::from_str("ثبت نام"),
            SMSKind::SellerSignup => String::from_str(" ثبت نام فروشنده"),
            SMSKind::ForgotPassword => String::from_str("تغییر رمز"),
            SMSKind::Signin => String::from_str("ورورد به حساب"),
        }
    }
}

/// The cache value that reads as "no code pending".
pub open spec fn no_code_marker() -> Seq<char> {
    "n115"@
}

/// The answer while a code sent earlier is still pending: "a code was sent recently".
pub open spec fn code_recently_sent() -> Seq<char> {
    "کد به تازگی ارسال شده است"@
}

/// The answer when the code cannot be stored: "try again in a few minutes".
pub open spec fn try_again_later() -> Seq<char> {
    "چند دقیقه دیگر مجدد امتحان کنید"@
}

/// The answer when the message cannot be sent: "error sending the text message".
pub open spec fn message_not_sent() -> Seq<char> {
    "خطا در ارسال پیامک"@
}

/// Codes for sellers are five digits from `13256..65535`; all others six digits from
/// `132568..987984`.
pub open spec fn code_in_range(k: SMSKind, code: u32) -> bool {
    if k == SMSKind::SellerSignup {
        13256 <= code < 65535
    } else {
        132568 <= code < 987984
    }
}

/// The text of the message that carries `code`: the heading, then "verification code:" and
/// the code.
pub open spec fn code_message(k: SMSKind, code: u32) -> Seq<char> {
    kind_label(k) + " \n کد تایید: "@ + decimal(code as nat)
}

/// A cache read that shows a code pending: a value other than the marker. A failed read (no
/// value) counts as none pending.
pub open spec fn code_pending(o: Outcome) -> bool {
    o matches Outcome::Text(c) && c@ != no_code_marker()
}

/// Sends a verification code; the struct only names the procedure.
pub struct SMSAuthentication;

/// Where the sending of a code stands.
pub enum SmsStage {
    /// Reading the cache for a pending code.
    Checking,
    /// Storing the code in the cache.
    Storing(u32),
    /// Sending the message.
    Sending,
}

/// The sending of a code of some kind to a phone number.
pub struct SmsFlow {
    pub phone: String,
    pub kind: SMSKind,
    pub stage: SmsStage,
}

/// What the sending of a code does next: an operation, or its end.
pub enum SmsStep {
    Next(SmsFlow, Action),
    Finished(Result<(), String>),
}

pub open spec fn finished_with(r: SmsStep, text: Seq<char>) -> bool {
    r matches SmsStep::Finished(Err(e)) && e@ == text
}

/// `r` goes on with the same number and kind at the stage, doing the action.
pub open spec fn continues(f: SmsFlow, r: SmsStep, stage: SmsStage, a: Action) -> bool {
    r == SmsStep::Next(SmsFlow { phone: f.phone, kind: f.kind, stage }, a)
}

/// The flow stores `code` for the number: `CachePut(phone, code in decimal, 120 s)`.
pub open spec fn stores_code(f: SmsFlow, r: SmsStep, code: u32) -> bool {
    &&& r matches SmsStep::Next(g, a)
    &&& g == SmsFlow { phone: f.phone, kind: f.kind, stage: SmsStage::Storing(code) }
    &&& a matches Action::CachePut { key, value, seconds }
    &&& key == f.phone
    &&& value@ == decimal(code as nat)
    &&& seconds == 120
}

/// One step of sending a code: what the flow `f` does on the outcome `o`.
pub open spec fn sms_step_ok(f: SmsFlow, o: Outcome, r: SmsStep) -> bool {
    match f.stage {
        SmsStage::Checking => if code_pending(o) {
            finished_with(r, code_recently_sent())
        } else {
            exists|code: u32| code_in_range(f.kind, code) && #[trigger] stores_code(f, r, code)
        },
        SmsStage::Storing(code) => if o is Done {
            &&& r matches SmsStep::Next(g, a)
            &&& g == SmsFlow { phone: f.phone, kind: f.kind, stage: SmsStage::Sending }
            &&& a matches Action::SendSms { text, mobile }
            &&& text@ == code_message(f.kind, code)
            &&& mobile == f.phone
        } else {
            finished_with(r, try_again_later())
        },
        SmsStage::Sending => if o is Done {
            r == SmsStep::Finished(Ok(()))
        } else {
            finished_with(r, message_not_sent())
        },
    }
}

impl SMSAuthentication {
    /// Starts sending a code of the kind to the phone number: first, read the cache under
    /// the number.
    pub fn verify_sms(phone: &String, message: SMSKind) -> (r: (SmsFlow, Action))
        ensures
            r.0 == (SmsFlow { phone: *phone, kind: message, stage: SmsStage::Checking }),
            r.1 == Action::CacheGet(*phone),
    {
        (SmsFlow { phone: phone.clone(), kind: message, stage: SmsStage::Checking }, Action::CacheGet(phone.clone()))
    }
}

impl SmsFlow {
    /// Stores the freshly drawn `code` under the number for two minutes.
    pub fn store_code(self, code: u32) -> (r: SmsStep)
        ensures
            stores_code(self, r, code),
    {
        let key = self.phone.clone();
        let value = decimal_string(code as u64);
        SmsStep::Next(
            SmsFlow { phone: self.phone, kind: self.kind, stage: SmsStage::Storing(code) },
            Action::CachePut { key, value, seconds: 120 },
        )
    }

    /// One step: the next operation or the end, given what came of the last operation.
    pub fn step(self, outcome: Outcome) -> (r: SmsStep)
        ensures
            sms_step_ok(self, outcome, r),
    {
        let ghost f = self;
        match self.stage {
            SmsStage::Checking => {
                let pending = match &outcome {
                    Outcome::Text(c) => !c.eq(&String::from_str("n115")),
                    _ => false,
                };
                if pending {
                    SmsStep::Finished(Err(String::from_str("کد به تازگی ارسال شده است")))
                } else {
                    let code: u32 = if self.kind == SMSKind::SellerSignup {
                        seller_verify_creator() as u32
                    } else {
                        verify_creator()
                    };
                    let r = self.store_code(code);
                    assert(code_in_range(f.kind, code) && stores_code(f, r, code));
                    r
                }
            },
            SmsStage::Storing(code) => {
                if matches!(outcome, Outcome::Done) {
                    let mut text = self.kind.to_string();
                    text.append(" \n کد تایید: ");
                    text.append(decimal_string(code as u64).as_str());
                    let mobile = self.phone.clone();
                    SmsStep::Next(
                        SmsFlow { phone: self.phone, kind: self.kind, stage: SmsStage::Sending },
                        Action::SendSms { text, mobile },
                    )
                } else {
                    SmsStep::Finished(Err(String::from_str("چند دقیقه دیگر مجدد امتحان کنید")))
                }
            },
            SmsStage::Sending => {
                if matches!(outcome, Outcome::Done) {
                    SmsStep::Finished(Ok(()))
                } else {
                    SmsStep::Finished(Err(String::from_str("خطا در ارسال پیامک")))
                }
            },
        }
    }
}

} // verus!

verus! {

use crate::app::services::flow::{Step, replies_message, replies_with};

/// The step `r` of a handler that starts sending a code of the kind to the phone, to resume
/// at `resume(flow)`.
pub open spec fn starts_sending<S>(r: Step<S>, resume: spec_fn(SmsFlow) -> S, phone: String, kind: SMSKind) -> bool {
    r == Step::Next(resume(SmsFlow { phone, kind, stage: SmsStage::Checking }), Action::CacheGet(phone))
}

/// The step `r` of a handler whose reply is the sending of a code: while sending goes on
/// (`sr` continues), the handler goes on at `resume(..)`; once the code is sent it replies
/// `{"message": sent_text}` with status 200, and when sending fails it replies with the
/// failure's text and status 400.
pub open spec fn reminds<S>(sr: SmsStep, r: Step<S>, resume: spec_fn(SmsFlow) -> S, sent_text: Seq<char>) -> bool {
    match sr {
        SmsStep::Next(g, a) => r == Step::Next(resume(g), a),
        SmsStep::Finished(Ok(())) => replies_message(r, 200, sent_text),
        SmsStep::Finished(Err(e)) => replies_with(r, 400, e),
    }
}

} // verus!
