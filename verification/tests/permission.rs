use whatsapp_linux::permission::{
    media_description, permission_response, prompt_text, PermissionKind, PermissionResponse,
};

#[test]
fn untrusted_pages_are_always_refused() {
    for kind in [
        PermissionKind::Notification,
        PermissionKind::UserMedia { audio: true, video: true },
        PermissionKind::DeviceInfo,
        PermissionKind::Other,
    ] {
        assert_eq!(permission_response(false, kind), PermissionResponse::Deny);
    }
}

#[test]
fn trusted_pages_get_notifications_and_prompts() {
    assert_eq!(permission_response(true, PermissionKind::Notification), PermissionResponse::Allow);
    assert_eq!(
        permission_response(true, PermissionKind::UserMedia { audio: true, video: false }),
        PermissionResponse::Prompt("use your microphone")
    );
    assert_eq!(
        permission_response(true, PermissionKind::DeviceInfo),
        PermissionResponse::Prompt("list camera and microphone devices")
    );
    assert_eq!(permission_response(true, PermissionKind::Other), PermissionResponse::Deny);
}

#[test]
fn media_descriptions() {
    assert_eq!(media_description(true, true), "use your camera and microphone");
    assert_eq!(media_description(true, false), "use your microphone");
    assert_eq!(media_description(false, true), "use your camera");
    assert_eq!(media_description(false, false), "access media devices");
}

#[test]
fn prompt_asks_a_question() {
    assert_eq!(prompt_text("use your camera"), "Allow WhatsApp Web to use your camera?");
}
