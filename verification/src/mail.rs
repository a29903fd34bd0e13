//! Outbound notification payloads.
//!
//! The engine only composes what a notification must carry; rendering a
//! template and delivering the message belong to the mail collaborator
//! at the boundary, and a delivery failure there must fail the whole
//! request, since a single-use code is useless if never delivered.

use vstd::prelude::*;

verus! {

/// A rendered message ready for the mail collaborator.
pub struct MailData {
    pub to: String,
    pub subject: String,
    pub body: String,
}

/// The payload of a password-recovery notification.
pub struct RecoveryMail {
    pub username: String,
    pub code: String,
}

impl RecoveryMail {
    pub fn new(username: String, code: String) -> (r: Self)
        ensures
            r.username == username,
            r.code == code,
    {
        RecoveryMail { username, code }
    }
}

/// The payload of a registration-confirmation notification.
pub struct RegisterMail {
    pub username: String,
    pub url: String,
}

impl RegisterMail {
    pub fn new(username: String, url: String) -> (r: Self)
        ensures
            r.username == username,
            r.url == url,
    {
        RegisterMail { username, url }
    }
}

} // verus!
