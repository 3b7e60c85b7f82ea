//! The emails that the service sends: who receives them, their subject and their
//! HTML body.
use vstd::prelude::*;

use crate::text::joined;

verus! {

/// A message ready to send: recipient, subject and HTML body.
#[derive(Clone, Debug)]
pub struct Email {
    pub to_email: String,
    pub to_name: String,
    pub subject: String,
    pub html_body: String,
}

/// The subject of the message that carries an email verification code.
pub const VERIFICATION_SUBJECT: &'static str = "Verify Your Email Address";

/// The subject of the message that carries a password reset link.
pub const RESET_SUBJECT: &'static str = "Reset Your Password";

/// A piece of the fixed HTML around the values of a message.
pub const VERIFICATION_BODY_OPEN: &'static str = "\n            <html>\n                <body style=\"font-family: Arial, sans-serif; line-height: 1.6; color: #333;\">\n                    <div style=\"max-width: 600px; margin: 0 auto; padding: 20px;\">\n                        <h2 style=\"color: #4A5568;\">Email Verification</h2>\n                        <p>Hi ";

/// A piece of the fixed HTML around the values of a message.
pub const VERIFICATION_BODY_MIDDLE: &'static str = ",</p>\n                        <p>Thank you for registering! Please use the following code to verify your email address:</p>\n                        <div style=\"background-color: #F7FAFC; border: 2px solid #E2E8F0; border-radius: 8px; padding: 20px; text-align: center; margin: 20px 0;\">\n                            <h1 style=\"color: #2D3748; font-size: 32px; letter-spacing: 8px; margin: 0;\">";

/// A piece of the fixed HTML around the values of a message.
pub const VERIFICATION_BODY_CLOSE: &'static str = "</h1>\n                        </div>\n                        <p>This code will expire in 10 minutes.</p>\n                        <p>If you didn't request this verification, please ignore this email.</p>\n                        <hr style=\"border: none; border-top: 1px solid #E2E8F0; margin: 30px 0;\">\n                        <p style=\"color: #718096; font-size: 14px;\">This is an automated message, please do not reply.</p>\n                    </div>\n                </body>\n            </html>\n            ";

/// A piece of the fixed HTML around the values of a message.
pub const RESET_BODY_OPEN: &'static str = "\n            <html>\n                <body style=\"font-family: Arial, sans-serif; line-height: 1.6; color: #333;\">\n                    <div style=\"max-width: 600px; margin: 0 auto; padding: 20px;\">\n                        <h2 style=\"color: #4A5568;\">Password Reset Request</h2>\n                        <p>Hi ";

/// A piece of the fixed HTML around the values of a message.
pub const RESET_BODY_LINK: &'static str = ",</p>\n                        <p>We received a request to reset your password. Click the button below to create a new password:</p>\n                        <div style=\"text-align: center; margin: 30px 0;\">\n                            <a href=\"";

/// A piece of the fixed HTML around the values of a message.
pub const RESET_BODY_AGAIN: &'static str = "\" style=\"background-color: #4299E1; color: white; padding: 12px 30px; text-decoration: none; border-radius: 6px; display: inline-block; font-weight: bold;\">Reset Password</a>\n                        </div>\n                        <p>Or copy and paste this link into your browser:</p>\n                        <p style=\"background-color: #F7FAFC; border: 1px solid #E2E8F0; border-radius: 4px; padding: 10px; word-break: break-all; font-size: 14px;\">";

/// A piece of the fixed HTML around the values of a message.
pub const RESET_BODY_CLOSE: &'static str = "</p>\n                        <p style=\"color: #E53E3E; font-weight: bold;\">This link will expire in 1 hour.</p>\n                        <p>If you didn't request a password reset, please ignore this email or contact support if you have concerns.</p>\n                        <hr style=\"border: none; border-top: 1px solid #E2E8F0; margin: 30px 0;\">\n                        <p style=\"color: #718096; font-size: 14px;\">This is an automated message, please do not reply.</p>\n                    </div>\n                </body>\n            </html>\n            ";

/// The body of the verification message: a greeting by name and the code.
pub open spec fn verification_body(name: Seq<char>, code: Seq<char>) -> Seq<char> {
    VERIFICATION_BODY_OPEN@ + name + VERIFICATION_BODY_MIDDLE@ + code + VERIFICATION_BODY_CLOSE@
}

/// The page that resets a password with a token.
pub open spec fn reset_link_of(base_url: Seq<char>, token: Seq<char>) -> Seq<char> {
    base_url + "/reset-password?token="@ + token
}

/// The body of the reset message: a greeting by name, and the link as a button and
/// as text.
pub open spec fn reset_body(name: Seq<char>, link: Seq<char>) -> Seq<char> {
    RESET_BODY_OPEN@ + name + RESET_BODY_LINK@ + link + RESET_BODY_AGAIN@ + link
        + RESET_BODY_CLOSE@
}

/// An address with its display name, as a mail header writes it.
pub open spec fn mailbox_of(name: Seq<char>, address: Seq<char>) -> Seq<char> {
    name + " <"@ + address + ">"@
}

/// The address of the page that resets a password with `token`.
pub fn reset_link(base_url: &str, token: &str) -> (r: String)
    ensures
        r@ == reset_link_of(base_url@, token@),
{
    let a = joined(base_url, "/reset-password?token=");
    joined(a.as_str(), token)
}

/// `name <address>`, the form in which a mail header names a mailbox.
pub fn mailbox(name: &str, address: &str) -> (r: String)
    ensures
        r@ == mailbox_of(name@, address@),
{
    let a = joined(name, " <");
    let b = joined(a.as_str(), address);
    joined(b.as_str(), ">")
}

/// The message that asks a new user to confirm their address with `otp_code`.
pub fn verification_email(to_email: &str, to_name: &str, otp_code: &str) -> (m: Email)
    ensures
        m.to_email@ == to_email@,
        m.to_name@ == to_name@,
        m.subject@ == VERIFICATION_SUBJECT@,
        m.html_body@ == verification_body(to_name@, otp_code@),
{
    let a = joined(VERIFICATION_BODY_OPEN, to_name);
    let b = joined(a.as_str(), VERIFICATION_BODY_MIDDLE);
    let c = joined(b.as_str(), otp_code);
    let body = joined(c.as_str(), VERIFICATION_BODY_CLOSE);
    Email {
        to_email: String::from_str(to_email),
        to_name: String::from_str(to_name),
        subject: String::from_str(VERIFICATION_SUBJECT),
        html_body: body,
    }
}

/// The message that sends a user the link that resets their password.
pub fn password_reset_email(to_email: &str, to_name: &str, reset_token: &str, base_url: &str) -> (m:
    Email)
    ensures
        m.to_email@ == to_email@,
        m.to_name@ == to_name@,
        m.subject@ == RESET_SUBJECT@,
        m.html_body@ == reset_body(to_name@, reset_link_of(base_url@, reset_token@)),
{
    let link = reset_link(base_url, reset_token);
    let a = joined(RESET_BODY_OPEN, to_name);
    let b = joined(a.as_str(), RESET_BODY_LINK);
    let c = joined(b.as_str(), link.as_str());
    let d = joined(c.as_str(), RESET_BODY_AGAIN);
    let e = joined(d.as_str(), link.as_str());
    let body = joined(e.as_str(), RESET_BODY_CLOSE);
    Email {
        to_email: String::from_str(to_email),
        to_name: String::from_str(to_name),
        subject: String::from_str(RESET_SUBJECT),
        html_body: body,
    }
}

} // verus!
