use boteg::{delivered, BotResponse, Sender};

#[test]
fn address_holds_the_token() {
    let sender = Sender::new("bot123:abc".to_string());
    assert_eq!(sender.send_message_url(), "https://api.telegram.org/bot123:abc/sendMessage");
    assert_eq!(Sender::new(String::new()).send_message_url(), "https://api.telegram.org//sendMessage");
}

#[test]
fn reply_is_delivered_when_the_platform_says_so() {
    assert!(delivered(Some(BotResponse { ok: true })));
    assert!(!delivered(Some(BotResponse { ok: false })));
    assert!(!delivered(None));
}
