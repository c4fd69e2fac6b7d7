use vstd::prelude::*;
use vstd::string::StringExecFns;
use crate::endpoint::EndpointInfo;

verus! {

/// Key of the picture shown beside the status.
pub const LARGE_IMAGE: &'static str = "mullvad";

/// Hover text of that picture.
pub const LARGE_TEXT: &'static str = "Mullvad VPN";

/// The first line of the status.
pub const DETAILS: &'static str = "Host: 195149233153.lobez.plusnet.pl";

/// What the presence service is asked to show for a session.
#[derive(Debug)]
pub struct Activity {
    pub large_image: String,
    pub large_text: String,
    pub details: String,
    pub state: String,
    /// Seconds since the Unix epoch; the service shows the time elapsed since.
    pub start_timestamp: u64,
}

/// The status line shown for an endpoint: its exit host and place, or a
/// generic line when the daemon gave no location.
pub open spec fn status_text(info: EndpointInfo) -> Seq<char> {
    match info.location {
        Some(g) => "Exit: "@ + g.hostname@ + " ("@ + g.country@ + "/"@ + g.city@ + ")"@,
        None => "Secure connection"@,
    }
}

/// Writes the status line of `info`.
pub fn activity_state(info: &EndpointInfo) -> (r: String)
    ensures
        r@ == status_text(*info),
{
    match &info.location {
        Some(g) => {
            let mut s = String::from_str("Exit: ");
            s.append(g.hostname.as_str());
            s.append(" (");
            s.append(g.country.as_str());
            s.append("/");
            s.append(g.city.as_str());
            s.append(")");
            s
        },
        None => String::from_str("Secure connection"),
    }
}

/// The status to show for a session through `relay_info` that started at
/// `started_at`.
pub fn build_activity(relay_info: &EndpointInfo, started_at: u64) -> (r: Activity)
    ensures
        r.large_image@ == LARGE_IMAGE@,
        r.large_text@ == LARGE_TEXT@,
        r.details@ == DETAILS@,
        r.state@ == status_text(*relay_info),
        r.start_timestamp == started_at,
{
    Activity {
        large_image: String::from_str(LARGE_IMAGE),
        large_text: String::from_str(LARGE_TEXT),
        details: String::from_str(DETAILS),
        state: activity_state(relay_info),
        start_timestamp: started_at,
    }
}

} // verus!
