use messenger::clock::{elapsed_seconds, expired, expiry_after, OTP_TTL};
use messenger::friends::{list_friends, swap_objectid};
use messenger::models::{
    parse_object_id, Conversation, ConversationType, Friend, FriendPreview, Message, Participant,
    PopulatedFriendShip,
};
use messenger::messaging::update_conversation_after_create_message;
use messenger::secrets::{
    generate_otp, generate_reset_token, hash_password, verify_password, OtpCode, ResetToken,
    SecretError,
};
use messenger::validation::{
    is_non_blank, validation_email, validation_fullname, validation_otp, validation_password,
};

#[test]
fn email_needs_at_and_dot() {
    assert!(validation_email("a@b.c"));
    assert!(!validation_email("ab.c"));
    assert!(!validation_email("a@bc"));
    assert!(!validation_email(""));
}

#[test]
fn password_needs_six_characters() {
    assert!(validation_password("123456"));
    assert!(!validation_password("12345"));
    assert!(validation_password("mật khẩ"));
    assert!(!validation_password("ậậậậậ"));
}

#[test]
fn fullname_must_not_be_blank() {
    assert!(validation_fullname(" Ann "));
    assert!(!validation_fullname("   \t\n"));
    assert!(!validation_fullname(""));
    assert!(!validation_fullname("\u{3000}\u{a0}"));
    assert!(is_non_blank(" hi\n"));
    assert!(!is_non_blank(" \u{2028} "));
}

#[test]
fn otp_is_six_digits() {
    assert!(validation_otp("012345"));
    assert!(!validation_otp("01234"));
    assert!(!validation_otp("0123456"));
    assert!(!validation_otp("01234a"));
    assert!(!validation_otp("٠١٢٣٤٥"));
}

#[test]
fn generated_codes_are_valid() {
    for _ in 0..50 {
        let code = generate_otp();
        assert_eq!(code.len(), 6);
        assert!(validation_otp(&code));
    }
}

#[test]
fn generated_reset_tokens_are_alphanumeric() {
    for _ in 0..20 {
        let t = generate_reset_token();
        assert_eq!(t.chars().count(), 32);
        assert!(t.chars().all(|c| c.is_ascii_alphanumeric()));
    }
}

#[test]
fn hashing_round_trip() {
    let h = hash_password("secret1").unwrap();
    assert_ne!(h, "secret1");
    assert_eq!(h.chars().count(), 60);
    assert!(h.starts_with('$'));
    assert_eq!(verify_password(&h, "secret1"), Ok(true));
    assert_eq!(verify_password(&h, "secret2"), Ok(false));
    assert!(verify_password("not a hash", "secret1").is_err());
}

#[test]
fn otp_code_expires_after_ten_minutes() {
    let c = OtpCode::issue("123456".to_string(), "h".to_string(), 1_000).unwrap();
    assert_eq!(c.expires_at, 1_000 + OTP_TTL * 1000);
    assert_eq!(c.expires_at, 601_000);
    assert_eq!(
        OtpCode::issue("123456".to_string(), "h".to_string(), i64::MAX - 599_999).err(),
        Some(SecretError::Clock)
    );
    assert!(OtpCode::issue("123456".to_string(), "h".to_string(), i64::MAX - 600_000).is_ok());
    let fresh = OtpCode::new().unwrap();
    assert!(validation_otp(&fresh.plain_otp));
    assert_ne!(fresh.hashed_otp, fresh.plain_otp);
    assert_eq!(verify_password(&fresh.hashed_otp, &fresh.plain_otp), Ok(true));
}

#[test]
fn reset_token_expires_after_thirty_minutes() {
    let t = ResetToken::issue("h".to_string(), 5_000).unwrap();
    assert_eq!(t.expires_at, 5_000 + 30 * 60 * 1000);
    assert_eq!(ResetToken::issue("h".to_string(), i64::MAX).err(), Some(SecretError::Clock));
    let fresh = ResetToken::new().unwrap();
    assert!(fresh.hashed_token.starts_with("$2"));
    assert_eq!(verify_password(&fresh.hashed_token, "wrong token"), Ok(false));
}

#[test]
fn elapsed_seconds_round_toward_zero() {
    assert_eq!(elapsed_seconds(10_500, 0), 10);
    assert_eq!(elapsed_seconds(0, 10_500), -10);
    assert_eq!(elapsed_seconds(-1, 0), 0);
    assert_eq!(elapsed_seconds(29_999, 0), 29);
    assert_eq!(elapsed_seconds(i64::MIN, 0), -9_223_372_036_854_775);
    assert_eq!(elapsed_seconds(i64::MAX, i64::MIN), 18_446_744_073_709_551);
    assert_eq!(elapsed_seconds(i64::MIN, i64::MAX), -18_446_744_073_709_551);
}

#[test]
fn expiry_and_expired() {
    assert_eq!(expiry_after(1_000, 60), 61_000);
    assert!(expired(99, 100));
    assert!(!expired(100, 100));
}

#[test]
fn ids_are_put_in_canonical_order() {
    assert_eq!(swap_objectid(5, 3), (3, 5));
    assert_eq!(swap_objectid(3, 5), (3, 5));
    let f = Friend::new(9, 2);
    assert_eq!((f.user_a_id, f.user_b_id), (2, 9));
    let g = Friend::new(2, 9);
    assert_eq!((g.user_a_id, g.user_b_id), (2, 9));
    assert!(f.id.is_none());
}

#[test]
fn object_ids_parse_from_hex() {
    assert_eq!(parse_object_id("000000000000000000000001"), Some(1));
    assert_eq!(parse_object_id("00000000000000000000000A"), Some(10));
    assert_eq!(
        parse_object_id("ffffffffffffffffffffffff"),
        Some((1u128 << 96) - 1)
    );
    assert_eq!(parse_object_id("65a1b2c3d4e5f60718293a4b"), Some(0x65a1b2c3d4e5f60718293a4bu128));
    assert_eq!(parse_object_id("65a1b2c3d4e5f60718293a4"), None);
    assert_eq!(parse_object_id("65a1b2c3d4e5f60718293a4g"), None);
}

fn preview(id: u128, name: &str) -> FriendPreview {
    FriendPreview { id, fullname: Some(name.to_string()) }
}

#[test]
fn friends_are_the_other_sides() {
    let fs = vec![
        PopulatedFriendShip { id: 100, user_a: preview(1, "me"), user_b: preview(2, "bo"), created_at: 0 },
        PopulatedFriendShip { id: 101, user_a: preview(0, "al"), user_b: preview(1, "me"), created_at: 0 },
    ];
    let out = list_friends(1, fs);
    assert_eq!(out.len(), 2);
    assert_eq!(out[0].id, 2);
    assert_eq!(out[1].id, 0);
    assert_eq!(out[1].fullname.as_deref(), Some("al"));
    assert!(list_friends(1, vec![]).is_empty());
}

#[test]
fn new_conversations_start_empty() {
    let c = Conversation::new(ConversationType::Direct, 7, 8);
    assert!(c.id.is_some());
    let ids: Vec<u128> = c.participant_ids.iter().map(|p| p.user_id).collect();
    assert_eq!(ids, vec![7, 8]);
    assert!(c.unread_counts.is_empty());
    assert!(c.last_message.is_none());
    let g = Conversation::new_group(1, Some("team".to_string()), &vec![2, 3]);
    let ids: Vec<u128> = g.participant_ids.iter().map(|p| p.user_id).collect();
    assert_eq!(ids, vec![1, 2, 3]);
    assert_eq!(g._type, ConversationType::Group);
    assert_eq!(g.group.unwrap().name.as_deref(), Some("team"));
}

#[test]
fn message_updates_conversation_counters() {
    let mut c = Conversation::new(ConversationType::Group, 1, 2);
    c.participant_ids.push(Participant { user_id: 3, joined_at: None });
    c.unread_counts.insert(1, 4);
    c.unread_counts.insert(3, 2);
    c.unread_counts.insert(9, 7);
    c.seen_by.push(2);
    let m = Message::new(c.id.unwrap(), 1, Some("hi".to_string()));
    update_conversation_after_create_message(&mut c, &m, 1);
    assert_eq!(c.unread_counts.get(&1), Some(&0));
    assert_eq!(c.unread_counts.get(&2), Some(&1));
    assert_eq!(c.unread_counts.get(&3), Some(&3));
    assert_eq!(c.unread_counts.get(&9), Some(&7));
    assert!(c.seen_by.is_empty());
    let last = c.last_message.as_ref().unwrap();
    assert_eq!(last._id, m.id.unwrap());
    assert_eq!(last.content.as_deref(), Some("hi"));
    assert_eq!(last.sender_id, Some(1));
    assert_eq!(c.last_message_at, m.created_at);
}

#[test]
fn a_member_listed_twice_is_counted_once() {
    let mut c = Conversation::new_group(1, Some("team".to_string()), &vec![2, 2, 1]);
    c.unread_counts.insert(2, 5);
    let m = Message::new(c.id.unwrap(), 1, Some("hi".to_string()));
    update_conversation_after_create_message(&mut c, &m, 1);
    assert_eq!(c.unread_counts.get(&2), Some(&6));
    assert_eq!(c.unread_counts.get(&1), Some(&0));
    assert_eq!(c.unread_counts.len(), 2);
    let m2 = Message::new(c.id.unwrap(), 2, Some("yo".to_string()));
    update_conversation_after_create_message(&mut c, &m2, 2);
    assert_eq!(c.unread_counts.get(&2), Some(&0));
    assert_eq!(c.unread_counts.get(&1), Some(&1));
}
