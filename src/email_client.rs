//! Requests to the transactional-email provider. The library builds each
//! request; sending it is left to the caller.
use vstd::prelude::*;

use crate::configuration::{secret_text, SecretText};
use crate::domain::subscriber_email::SubscriberEmail;

verus! {

/// The body of a send request, one field per part of the message.
#[derive(Debug)]
pub struct SendEmailRequest {
    pub from: String,
    pub to: String,
    pub subject: String,
    pub html_body: String,
    pub text_body: String,
}

/// A request ready to go out: a POST of `body` as JSON to `url`, with the
/// server token in the header that `token_header` names.
pub struct EmailRequest {
    pub url: String,
    pub token_header: String,
    pub token: String,
    pub body: SendEmailRequest,
}

/// Sends the notifications of the service from one sender address.
#[derive(Debug)]
pub struct EmailClient {
    sender: SubscriberEmail,
    base_url: String,
    authorization_token: SecretText,
}

/// Where send requests go on a provider reached at `base_url`.
pub open spec fn email_endpoint(base_url: Seq<char>) -> Seq<char> {
    base_url + "/email"@
}

impl EmailClient {
    pub closed spec fn sender_spec(&self) -> Seq<char> {
        self.sender@
    }

    pub closed spec fn base_url_spec(&self) -> Seq<char> {
        self.base_url@
    }

    pub closed spec fn token_spec(&self) -> Seq<char> {
        secret_text(self.authorization_token)
    }

    pub fn new(base_url: String, sender: SubscriberEmail, authorization_token: SecretText) -> (r:
        EmailClient)
        ensures
            r.sender_spec() == sender@,
            r.base_url_spec() == base_url@,
            r.token_spec() == secret_text(authorization_token),
    {
        EmailClient { sender, base_url, authorization_token }
    }

    /// The request that sends a message to `recipient`, from this client's
    /// sender.
    pub fn build_request(
        &self,
        recipient: &SubscriberEmail,
        subject: &str,
        html_content: &str,
        text_content: &str,
    ) -> (r: EmailRequest)
        ensures
            r.url@ == email_endpoint(self.base_url_spec()),
            r.token_header@ == "X-Postmark-Server-Token"@,
            r.token@ == self.token_spec(),
            r.body.from@ == self.sender_spec(),
            r.body.to@ == recipient@,
            r.body.subject@ == subject@,
            r.body.html_body@ == html_content@,
            r.body.text_body@ == text_content@,
    {
        let mut url = self.base_url.clone();
        url.append("/email");
        let body = SendEmailRequest {
            from: String::from_str(self.sender.inner_ref()),
            to: String::from_str(recipient.inner_ref()),
            subject: String::from_str(subject),
            html_body: String::from_str(html_content),
            text_body: String::from_str(text_content),
        };
        EmailRequest {
            url,
            token_header: String::from_str("X-Postmark-Server-Token"),
            token: self.authorization_token.expose_secret().clone(),
            body,
        }
    }
}

} // verus!
