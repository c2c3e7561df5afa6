use nostr::key::Keys;
use rovr::codec::encrypt_dm;
use rovr::dispatch::invalid_reference_notice;
use rovr::intake::{handle_inbound, InboundAction};
use rovr::reconcile::{FilterSpec, DM_KIND};

struct Setup {
    bot_sk: String,
    bot_pk: String,
    sender_sk: String,
    sender_pk: String,
    filter: FilterSpec,
}

fn setup() -> Setup {
    let bot = Keys::generate();
    let sender = Keys::generate();
    let bot_pk = bot.public_key().to_hex();
    let sender_pk = sender.public_key().to_hex();
    let filter = FilterSpec {
        recipient: bot_pk.clone(),
        authors: vec![sender_pk.clone()],
        since: 100,
    };
    Setup {
        bot_sk: bot.secret_key().to_secret_hex(),
        bot_pk,
        sender_sk: sender.secret_key().to_secret_hex(),
        sender_pk,
        filter,
    }
}

fn encrypted(s: &Setup, text: &str) -> String {
    encrypt_dm(&s.sender_sk, &s.bot_pk, text).unwrap()
}

#[test]
fn recognized_reference_dispatches() {
    let s = setup();
    let ct = encrypted(&s, "grab https://youtu.be/dQw4w9WgXcQ for me");
    let action = handle_inbound(&s.filter, &s.bot_sk, DM_KIND, &s.bot_pk, &s.sender_pk, 200, &ct);
    assert_eq!(action, InboundAction::Dispatch("dQw4w9WgXcQ".to_string()));
}

#[test]
fn unrecognized_content_gets_the_notice_path() {
    let s = setup();
    let ct = encrypted(&s, "hello bot, how are you?");
    let action = handle_inbound(&s.filter, &s.bot_sk, DM_KIND, &s.bot_pk, &s.sender_pk, 200, &ct);
    assert_eq!(action, InboundAction::ReplyInvalid(invalid_reference_notice()));
}

#[test]
fn unauthorized_sender_is_dropped() {
    let s = setup();
    let stranger = Keys::generate();
    let stranger_pk = stranger.public_key().to_hex();
    let ct = encrypt_dm(
        &stranger.secret_key().to_secret_hex(),
        &s.bot_pk,
        "youtu.be/dQw4w9WgXcQ",
    )
    .unwrap();
    let action = handle_inbound(&s.filter, &s.bot_sk, DM_KIND, &s.bot_pk, &stranger_pk, 200, &ct);
    assert_eq!(action, InboundAction::Drop);
}

#[test]
fn wrong_kind_is_dropped() {
    let s = setup();
    let ct = encrypted(&s, "youtu.be/dQw4w9WgXcQ");
    let action = handle_inbound(&s.filter, &s.bot_sk, 1, &s.bot_pk, &s.sender_pk, 200, &ct);
    assert_eq!(action, InboundAction::Drop);
}

#[test]
fn event_older_than_the_filter_is_dropped() {
    let s = setup();
    let ct = encrypted(&s, "youtu.be/dQw4w9WgXcQ");
    let action = handle_inbound(&s.filter, &s.bot_sk, DM_KIND, &s.bot_pk, &s.sender_pk, 99, &ct);
    assert_eq!(action, InboundAction::Drop);
}

#[test]
fn undecryptable_payload_is_dropped() {
    let s = setup();
    let action = handle_inbound(
        &s.filter,
        &s.bot_sk,
        DM_KIND,
        &s.bot_pk,
        &s.sender_pk,
        200,
        "definitely not a ciphertext",
    );
    assert_eq!(action, InboundAction::Drop);
}

#[test]
fn two_back_to_back_messages_each_get_a_decision() {
    let s = setup();
    let ct1 = encrypted(&s, "first: youtu.be/AAAAAAAAAAA");
    let ct2 = encrypted(&s, "second: youtu.be/BBBBBBBBBBB");
    let a1 = handle_inbound(&s.filter, &s.bot_sk, DM_KIND, &s.bot_pk, &s.sender_pk, 200, &ct1);
    let a2 = handle_inbound(&s.filter, &s.bot_sk, DM_KIND, &s.bot_pk, &s.sender_pk, 201, &ct2);
    assert_eq!(a1, InboundAction::Dispatch("AAAAAAAAAAA".to_string()));
    assert_eq!(a2, InboundAction::Dispatch("BBBBBBBBBBB".to_string()));
}
