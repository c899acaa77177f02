use vstd::prelude::*;

use crate::render::{render_html, render_spec};

verus! {

/// The delivery service's request body: sender, recipients, subject and
/// the rendered payload.
pub struct ResendEmail {
    pub from: String,
    pub to: Vec<String>,
    pub subject: String,
    pub html: String,
}

/// The delivery stage's configuration: the service credential and the
/// fixed sender address. The network round trip itself lives outside this
/// library; everything it sends and everything decided about its response
/// is specified here.
pub struct ResendClient {
    pub api_key: String,
    pub from_email: String,
}

impl ResendClient {
    pub fn new(api_key: String, from_email: String) -> (c: Self)
        ensures
            c.api_key == api_key,
            c.from_email == from_email,
    {
        ResendClient { api_key, from_email }
    }

    /// Renders the digest's markup for the delivery channel.
    pub fn markdown_to_html(&self, markdown: &str) -> (r: String)
        ensures
            r@ == render_spec(markdown@),
    {
        render_html(markdown)
    }

    /// Packages one digest for delivery: the content rendered to the
    /// presentation format, addressed from the configured sender to the one
    /// recipient.
    pub fn build_email(&self, to: &str, subject: &str, content: &str) -> (e: ResendEmail)
        ensures
            e.from@ == self.from_email@,
            e.to@.len() == 1,
            e.to@[0]@ == to@,
            e.subject@ == subject@,
            e.html@ == render_spec(content@),
    {
        let html = self.markdown_to_html(content);
        let mut recipients: Vec<String> = Vec::new();
        recipients.push(String::from_str(to));
        ResendEmail {
            from: self.from_email.clone(),
            to: recipients,
            subject: String::from_str(subject),
            html,
        }
    }
}

/// What the delivery service's response settles: acceptance yields the
/// reported identifier, or the fixed placeholder when the service omits
/// one; any non-success status is a definitive failure that surfaces the
/// response body's detail verbatim.
pub fn delivery_outcome(status_success: bool, id: Option<String>, error_body: String) -> (r:
    Result<String, String>)
    ensures
        status_success <==> r is Ok,
        match r {
            Ok(id_text) => match id {
                Some(s) => id_text@ == s@,
                None => id_text@ == "sent"@,
            },
            Err(e) => e@ == "Failed to send email: "@ + error_body@,
        },
{
    if status_success {
        match id {
            Some(s) => Ok(s),
            None => Ok(String::from_str("sent")),
        }
    } else {
        let mut e = String::from_str("Failed to send email: ");
        e.append(error_body.as_str());
        Err(e)
    }
}

} // verus!
