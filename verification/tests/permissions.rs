use autoroom::gateway::Request;
use autoroom::permissions::{
    grant_guest_privileges, grant_owner_privileges, guest_allow, owner_allow, GUEST_ALLOW,
    OWNER_ALLOW,
};

#[test]
fn owner_mask_is_the_five_platform_flags() {
    let expected = serenity::model::Permissions::VIEW_CHANNEL
        | serenity::model::Permissions::SEND_MESSAGES
        | serenity::model::Permissions::MANAGE_CHANNELS
        | serenity::model::Permissions::MUTE_MEMBERS
        | serenity::model::Permissions::DEAFEN_MEMBERS;
    assert_eq!(owner_allow(), expected.bits());
    assert_eq!(owner_allow(), OWNER_ALLOW);
    assert_eq!(owner_allow(), 12586000);
}

#[test]
fn guest_mask_is_view_and_send() {
    let expected =
        serenity::model::Permissions::VIEW_CHANNEL | serenity::model::Permissions::SEND_MESSAGES;
    assert_eq!(guest_allow(), expected.bits());
    assert_eq!(guest_allow(), GUEST_ALLOW);
    assert_eq!(guest_allow(), 3072);
}

#[test]
fn owner_grant_request() {
    match grant_owner_privileges(5, 7) {
        Request::SetAccess { channel_id, user_id, allow, deny } => {
            assert_eq!((channel_id, user_id, allow, deny), (5, 7, 0xC0_0C10, 0));
        }
        other => panic!("unexpected request {:?}", other),
    }
}

#[test]
fn guest_grant_request() {
    match grant_guest_privileges(5, 9) {
        Request::SetAccess { channel_id, user_id, allow, deny } => {
            assert_eq!((channel_id, user_id, allow, deny), (5, 9, 0xC00, 0));
        }
        other => panic!("unexpected request {:?}", other),
    }
}
