use vstd::prelude::*;

verus! {

/// How the embedded webview is set up so that the frontend can use the camera,
/// the microphone and the real-time media APIs.
pub struct MediaPolicy {
    pub enable_media_stream: bool,
    pub enable_media_capabilities: bool,
    pub enable_mediasource: bool,
    pub enable_webaudio: bool,
    pub enable_webrtc: bool,
    pub media_playback_requires_user_gesture: bool,
    pub media_playback_allows_inline: bool,
    /// Every permission request of the page (camera, microphone) is granted.
    pub grant_permission_requests: bool,
}

impl MediaPolicy {
    /// Every media feature is on, playback starts without a user gesture and
    /// inline, and permission requests are granted.
    pub open spec fn grants_realtime_media(&self) -> bool {
        &&& self.enable_media_stream
        &&& self.enable_media_capabilities
        &&& self.enable_mediasource
        &&& self.enable_webaudio
        &&& self.enable_webrtc
        &&& !self.media_playback_requires_user_gesture
        &&& self.media_playback_allows_inline
        &&& self.grant_permission_requests
    }
}

/// The policy applied to the main window's webview.
pub fn media_policy() -> (r: MediaPolicy)
    ensures
        r.grants_realtime_media(),
{
    MediaPolicy {
        enable_media_stream: true,
        enable_media_capabilities: true,
        enable_mediasource: true,
        enable_webaudio: true,
        enable_webrtc: true,
        media_playback_requires_user_gesture: false,
        media_playback_allows_inline: true,
        grant_permission_requests: true,
    }
}

} // verus!
