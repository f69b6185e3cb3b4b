//! The Twitch Heat service, which relays viewers' clicks on the stream.

use vstd::prelude::*;

verus! {

/// The address of the Heat service's channels, to which a channel id is appended.
pub open spec fn heat_prefix() -> Seq<char> {
    "wss://heat-api.j38.net/channel/"@
}

/// The WebSocket address of a channel's click feed.
pub fn channel_url(channel_id: &str) -> (url: String)
    ensures
        url@ == heat_prefix() + channel_id@,
{
    let mut url = "wss://heat-api.j38.net/channel/".to_owned();
    url.append(channel_id);
    url
}

} // verus!
