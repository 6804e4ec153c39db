use crate::domain::SubscriberEmail;
use crate::secret::Secret;
use vstd::prelude::*;

verus! {

/// Everything one delivery sends: the POST goes to `url` with the
/// authorization token in the `X-Postmark-Server-Token` header, and the
/// JSON body holds the five message fields.
pub struct SendEmailRequest {
    pub url: String,
    pub from: String,
    pub to: String,
    pub subject: String,
    pub html_body: String,
    pub text_body: String,
}

/// The endpoint under the provider's base address that takes a message.
pub open spec fn email_url(base_url: Seq<char>) -> Seq<char> {
    base_url + "/email"@
}

/// The sender's identity and credential for the email provider.
pub struct EmailClient {
    base_url: String,
    sender: SubscriberEmail,
    authorization_token: Secret,
}

impl EmailClient {
    pub closed spec fn base_url_view(&self) -> Seq<char> {
        self.base_url@
    }

    pub closed spec fn sender_view(&self) -> Seq<char> {
        self.sender@
    }

    pub closed spec fn token_view(&self) -> Seq<char> {
        self.authorization_token@
    }

    pub fn new(base_url: String, sender: SubscriberEmail, authorization_token: Secret) -> (r:
        EmailClient)
        ensures
            r.base_url_view() == base_url@,
            r.sender_view() == sender@,
            r.token_view() == authorization_token@,
    {
        EmailClient { base_url, sender, authorization_token }
    }

    pub fn base_url(&self) -> (r: &str)
        ensures
            r@ == self.base_url_view(),
    {
        self.base_url.as_str()
    }

    pub fn sender(&self) -> (r: &SubscriberEmail)
        ensures
            r@ == self.sender_view(),
    {
        &self.sender
    }

    /// The token that goes in the `X-Postmark-Server-Token` header.
    pub fn authorization_token(&self) -> (r: &Secret)
        ensures
            r@ == self.token_view(),
    {
        &self.authorization_token
    }

    /// The request that sends `subject`, `html_content` and `text_content`
    /// from this client's sender to `recipient`.
    pub fn email_request(
        &self,
        recipient: &SubscriberEmail,
        subject: &str,
        html_content: &str,
        text_content: &str,
    ) -> (r: SendEmailRequest)
        ensures
            r.url@ == email_url(self.base_url_view()),
            r.from@ == self.sender_view(),
            r.to@ == recipient@,
            r.subject@ == subject@,
            r.html_body@ == html_content@,
            r.text_body@ == text_content@,
    {
        SendEmailRequest {
            url: self.base_url.clone().concat("/email"),
            from: String::from_str(self.sender.as_str()),
            to: String::from_str(recipient.as_str()),
            subject: String::from_str(subject),
            html_body: String::from_str(html_content),
            text_body: String::from_str(text_content),
        }
    }
}

} // verus!
