//! What the bot knows of the delivery of a reply: where replies are sent
//! to, and whether the platform took one.

use vstd::prelude::*;

verus! {

/// The platform's answer to a reply that was sent.
#[derive(Debug, Clone, Copy, PartialEq, Eq)]
pub struct BotResponse {
    pub ok: bool,
}

/// Whether a reply counts as delivered: the platform answered, and its
/// answer says so.
pub fn delivered(response: Option<BotResponse>) -> (ok: bool)
    ensures
        ok == (response matches Some(answer) && answer.ok),
{
    match response {
        Some(answer) => answer.ok,
        None => false,
    }
}

/// The address that the bot with the access token `token` sends its
/// replies to.
pub open spec fn send_message_address(token: Seq<char>) -> Seq<char> {
    "https://api.telegram.org"@ + "/"@ + token + "/"@ + "sendMessage"@
}

/// The sender of replies, as far as it is made of plain values: the
/// access token, from which the address follows.
#[derive(Debug, Clone, PartialEq, Eq)]
pub struct Sender {
    token: String,
}

impl View for Sender {
    type V = Seq<char>;

    closed spec fn view(&self) -> Seq<char> {
        self.token@
    }
}

impl Sender {
    /// The sender that uses `token`.
    pub fn new(token: String) -> (sender: Sender)
        ensures
            sender@ == token@,
    {
        Sender { token }
    }

    /// The address that replies go to.
    pub fn send_message_url(&self) -> (url: String)
        ensures
            url@ == send_message_address(self@),
    {
        let mut url = "https://api.telegram.org".to_owned();
        url.append("/");
        url.append(self.token.as_str());
        url.append("/");
        url.append("sendMessage");
        assert(url@ =~= send_message_address(self@));
        url
    }
}

} // verus!
