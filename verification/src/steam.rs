//! Shapes of the player lookup collaborator's answers, and the parts
//! of them the relay reads.

use vstd::prelude::*;

verus! {

use vstd::string::StringExecFns;

/// Error reported by the player lookup: a single kind with no
/// sub-classification.
#[derive(Debug, Clone, Copy, PartialEq, Eq, Structural)]
pub struct SteamAPIError;

impl SteamAPIError {
    /// The error's description.
    pub fn message(&self) -> (s: String)
        ensures
            s@ == "Error during request to Steam API"@,
    {
        String::from_str("Error during request to Steam API")
    }
}

/// One player's profile summary: the avatar reference the relay reads.
#[derive(Debug, Clone, PartialEq)]
pub struct SteamPlayerSummary {
    pub avatarmedium: String,
}

/// The players a summary response lists.
#[derive(Debug, Clone, PartialEq)]
pub struct SteamSummaryResponse {
    pub players: Vec<SteamPlayerSummary>,
}

/// A whole summary answer.
#[derive(Debug, Clone, PartialEq)]
pub struct SteamSummary {
    pub response: SteamSummaryResponse,
}

/// The avatar of the first listed player, or absent when the answer
/// lists no player, which the relay treats like a failed lookup.
pub fn first_avatar(summary: &SteamSummary) -> (r: Option<String>)
    ensures
        summary.response.players@.len() > 0 ==> (r matches Some(a) && a@
            == summary.response.players@[0].avatarmedium@),
        summary.response.players@.len() == 0 ==> r is None,
{
    if summary.response.players.len() > 0 {
        Some(summary.response.players[0].avatarmedium.clone())
    } else {
        None
    }
}

/// Address of the lookup request for one numeric id.
pub open spec fn lookup_url_text(key: Seq<char>, steamid64: Seq<char>) -> Seq<char> {
    "https://api.steampowered.com/ISteamUser/GetPlayerSummaries/v0002/?key="@ + key + "&steamids="@
        + steamid64
}

/// Render the address of the lookup request for one numeric id.
pub fn lookup_url(key: &String, steamid64: &String) -> (s: String)
    ensures
        s@ == lookup_url_text(key@, steamid64@),
{
    let mut s = String::new();
    s.append("https://api.steampowered.com/ISteamUser/GetPlayerSummaries/v0002/?key=");
    s.append(key.as_str());
    s.append("&steamids=");
    s.append(steamid64.as_str());
    proof {
        assert(s@ =~= lookup_url_text(key@, steamid64@));
    }
    s
}

} // verus!
