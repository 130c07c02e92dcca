//! The greeting mail, and the SMTP server it is sent through.
use vstd::prelude::*;

use crate::employ::Employ;

verus! {

/// The SMTP server, as `host:port`, that greetings are sent through.
pub struct SmtpService {
    address: String,
}

impl View for SmtpService {
    type V = Seq<char>;

    closed spec fn view(&self) -> Seq<char> {
        self.address@
    }
}

impl SmtpService {
    pub fn new(address: &str) -> (r: SmtpService)
        ensures
            r@ == address@,
    {
        SmtpService { address: String::from_str(address) }
    }

    pub fn address(&self) -> (r: &String)
        ensures
            r@ == self@,
    {
        &self.address
    }
}

/// A composed greeting mail.
#[derive(Debug, Clone, PartialEq, Eq)]
pub struct Greeting {
    /// The recipient's address.
    pub to: String,
    /// The recipient's display name.
    pub to_name: String,
    pub from: String,
    pub subject: String,
    pub body: String,
}

/// The sender of every greeting.
pub open spec fn greeting_sender() -> Seq<char> {
    "user@example.com"@
}

pub open spec fn greeting_subject() -> Seq<char> {
    "Hi, Hello world"@
}

/// `Hi <name>!`, then `Happy birthday!`, each on its own line, then twelve spaces.
pub open spec fn greeting_body(name: Seq<char>) -> Seq<char> {
    "Hi "@ + name + "!\nHappy birthday!\n            "@
}

/// The birthday greeting for `employ`, addressed to their email under their full name.
pub fn birthday_greeting(employ: &Employ) -> (r: Greeting)
    ensures
        r.to@ == employ.email@,
        r.to_name@ == employ.name@ + " "@ + employ.surname@,
        r.from@ == greeting_sender(),
        r.subject@ == greeting_subject(),
        r.body@ == greeting_body(employ.name@),
{
    let mut to_name = employ.name.clone();
    to_name.append(" ");
    to_name.append(employ.surname.as_str());
    let mut body = String::from_str("Hi ");
    body.append(employ.name.as_str());
    body.append("!\nHappy birthday!\n            ");
    Greeting {
        to: employ.email.clone(),
        to_name,
        from: String::from_str("user@example.com"),
        subject: String::from_str("Hi, Hello world"),
        body,
    }
}

} // verus!
