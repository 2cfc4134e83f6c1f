//! SMS alert configuration: whether an SOS alert is really sent, and where.
use vstd::prelude::*;

verus! {

/// Abstraction over SMS providers.
///
/// In dev mode (or when provider credentials are absent) all sends are
/// logged rather than dispatched to avoid accidental real alerts.
#[derive(Debug, Clone)]
pub struct NotificationService {
    pub twilio_sid: Option<String>,
    pub twilio_token: Option<String>,
    pub twilio_from: Option<String>,
    pub dev_mode: bool,
}

/// Where and how a real SMS is sent: the provider endpoint for the account,
/// the basic-auth credentials and the sending number.
#[derive(Debug, Clone)]
pub struct SmsDispatch {
    pub url: String,
    pub account_sid: String,
    pub auth_token: String,
    pub from: String,
}

/// The provider's message endpoint for an account.
pub open spec fn spec_twilio_url(sid: Seq<char>) -> Seq<char> {
    "https://api.twilio.com/2010-04-01/Accounts/"@ + sid + "/Messages.json"@
}

/// Whether the provider credentials are all present: account id, auth
/// token and sending number.
pub open spec fn has_credentials(n: NotificationService) -> bool {
    n.twilio_sid is Some && n.twilio_token is Some && n.twilio_from is Some
}

impl NotificationService {
    pub fn new(
        twilio_sid: Option<String>,
        twilio_token: Option<String>,
        twilio_from: Option<String>,
        dev_mode: bool,
    ) -> (s: Self)
        ensures
            s.twilio_sid == twilio_sid,
            s.twilio_token == twilio_token,
            s.twilio_from == twilio_from,
            s.dev_mode == dev_mode,
    {
        NotificationService { twilio_sid, twilio_token, twilio_from, dev_mode }
    }

    /// How an SOS SMS is sent: `None` in dev mode or when any provider
    /// credential (account id, auth token, sending number) is absent, so
    /// that the alert is only logged; otherwise the request to make.
    pub fn sms_dispatch(&self) -> (d: Option<SmsDispatch>)
        ensures
            d is None <==> (self.dev_mode || !has_credentials(*self)),
            d matches Some(r) ==> {
                &&& r.account_sid@ == self.twilio_sid->0@
                &&& r.url@ == spec_twilio_url(self.twilio_sid->0@)
                &&& r.auth_token@ == self.twilio_token->0@
                &&& r.from@ == self.twilio_from->0@
            },
    {
        if self.dev_mode {
            return None;
        }
        match (&self.twilio_sid, &self.twilio_token, &self.twilio_from) {
            (Some(sid), Some(token), Some(from)) => {
                let mut url = String::from_str("https://api.twilio.com/2010-04-01/Accounts/");
                url.append(sid.as_str());
                url.append("/Messages.json");
                Some(SmsDispatch { url, account_sid: sid.clone(), auth_token: token.clone(), from: from.clone() })
            },
            _ => None,
        }
    }
}

} // verus!
