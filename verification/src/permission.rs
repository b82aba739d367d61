use vstd::prelude::*;

verus! {

/// The kind of a permission request that a page makes of the web view.
#[derive(Debug, Clone, Copy, PartialEq, Eq, Structural)]
pub enum PermissionKind {
    /// Showing desktop notifications.
    Notification,
    /// Capturing from a microphone (`audio`), a camera (`video`), or both.
    UserMedia { audio: bool, video: bool },
    /// Listing the camera and microphone devices.
    DeviceInfo,
    /// Anything else.
    Other,
}

/// How a permission request is answered.
#[derive(Debug, Clone, Copy, PartialEq, Eq)]
pub enum PermissionResponse {
    /// Granted at once.
    Allow,
    /// Refused at once.
    Deny,
    /// Put to the user in a native dialog that asks to allow WhatsApp Web to do what the
    /// text describes.
    Prompt(&'static str),
}

/// How a permission request is answered, with the prompt's text as a sequence.
pub enum PermissionVerdict {
    Allow,
    Deny,
    Prompt(Seq<char>),
}

/// The model of a `PermissionResponse`.
pub open spec fn response_view(r: PermissionResponse) -> PermissionVerdict {
    match r {
        PermissionResponse::Allow => PermissionVerdict::Allow,
        PermissionResponse::Deny => PermissionVerdict::Deny,
        PermissionResponse::Prompt(d) => PermissionVerdict::Prompt(d@),
    }
}

/// What a request for the microphone (`audio`) and camera (`video`) asks to do.
pub open spec fn media_description_spec(audio: bool, video: bool) -> Seq<char> {
    if audio && video {
        "use your camera and microphone"@
    } else if audio {
        "use your microphone"@
    } else if video {
        "use your camera"@
    } else {
        "access media devices"@
    }
}

/// How a request of kind `kind` is answered, where `trusted` tells whether the page that
/// makes it is on the primary WhatsApp Web origin: every request of another page is refused;
/// notifications are granted; camera, microphone and device listing go to the user; anything
/// else is refused.
pub open spec fn permission_spec(trusted: bool, kind: PermissionKind) -> PermissionVerdict {
    if !trusted {
        PermissionVerdict::Deny
    } else {
        match kind {
            PermissionKind::Notification => PermissionVerdict::Allow,
            PermissionKind::UserMedia { audio, video } => PermissionVerdict::Prompt(
                media_description_spec(audio, video),
            ),
            PermissionKind::DeviceInfo => PermissionVerdict::Prompt(
                "list camera and microphone devices"@,
            ),
            PermissionKind::Other => PermissionVerdict::Deny,
        }
    }
}

/// What a request for the microphone (`audio`) and camera (`video`) asks to do, as the
/// prompt shows it.
pub fn media_description(audio: bool, video: bool) -> (res: &'static str)
    ensures
        res@ == media_description_spec(audio, video),
{
    if audio && video {
        "use your camera and microphone"
    } else if audio {
        "use your microphone"
    } else if video {
        "use your camera"
    } else {
        "access media devices"
    }
}

/// How a permission request of kind `kind` is answered; `trusted` tells whether the page
/// that makes it is on the primary WhatsApp Web origin.
pub fn permission_response(trusted: bool, kind: PermissionKind) -> (res: PermissionResponse)
    ensures
        response_view(res) == permission_spec(trusted, kind),
{
    if !trusted {
        return PermissionResponse::Deny;
    }
    match kind {
        PermissionKind::Notification => PermissionResponse::Allow,
        PermissionKind::UserMedia { audio, video } => PermissionResponse::Prompt(
            media_description(audio, video),
        ),
        PermissionKind::DeviceInfo => PermissionResponse::Prompt(
            "list camera and microphone devices",
        ),
        PermissionKind::Other => PermissionResponse::Deny,
    }
}

/// The question that the permission dialog asks for the request described by `description`.
pub fn prompt_text(description: &str) -> (res: String)
    ensures
        res@ == "Allow WhatsApp Web to "@ + description@ + "?"@,
{
    let mut text = String::from_str("Allow WhatsApp Web to ");
    text.append(description);
    text.append("?");
    text
}

/// A page off the primary origin never gets a permission; the only permission granted
/// outright is notifications; camera, microphone and device access are never granted without
/// asking the user; unrelated permission kinds are refused.
pub proof fn law_sensitive_permissions_need_trust_and_consent(trusted: bool, kind: PermissionKind)
    ensures
        !trusted ==> permission_spec(trusted, kind) == PermissionVerdict::Deny,
        permission_spec(trusted, kind) == PermissionVerdict::Allow <==> (trusted
            && kind is Notification),
        (kind is UserMedia || kind is DeviceInfo) ==> permission_spec(trusted, kind)
            != PermissionVerdict::Allow,
        kind is Other ==> permission_spec(trusted, kind) == PermissionVerdict::Deny,
{
}

/// On the trusted page every camera or microphone request, whatever devices it names, is put
/// to the user, and the prompt says exactly which devices: camera and microphone, microphone,
/// camera, or media devices in general; device listing is put to the user as well.
pub proof fn law_trusted_media_requests_are_prompted(audio: bool, video: bool)
    ensures
        permission_spec(true, PermissionKind::UserMedia { audio, video }) == PermissionVerdict::Prompt(
            if audio && video {
                "use your camera and microphone"@
            } else if audio {
                "use your microphone"@
            } else if video {
                "use your camera"@
            } else {
                "access media devices"@
            },
        ),
        permission_spec(true, PermissionKind::DeviceInfo) == PermissionVerdict::Prompt(
            "list camera and microphone devices"@,
        ),
        permission_spec(true, PermissionKind::UserMedia { audio, video }) != PermissionVerdict::Deny,
{
}

} // verus!
