//! Rendering of channel post text: chat lines, embed titles, player
//! count footers, and the profile link for a joined player.

use vstd::prelude::*;

verus! {

use vstd::string::StringExecFns;

/// The decimal digit `d` as a character.
pub open spec fn dec_digit(d: int) -> char {
    if d == 0 {
        '0'
    } else if d == 1 {
        '1'
    } else if d == 2 {
        '2'
    } else if d == 3 {
        '3'
    } else if d == 4 {
        '4'
    } else if d == 5 {
        '5'
    } else if d == 6 {
        '6'
    } else if d == 7 {
        '7'
    } else if d == 8 {
        '8'
    } else {
        '9'
    }
}

/// The decimal rendering of `n`, most significant digit first.
pub open spec fn dec_seq(n: int) -> Seq<char>
    recommends
        0 <= n,
    decreases n,
{
    if n < 10 {
        seq![dec_digit(n)]
    } else {
        dec_seq(n / 10).push(dec_digit(n % 10))
    }
}

fn digit_str(d: u8) -> (s: &'static str)
    requires
        d < 10,
    ensures
        s@ == seq![dec_digit(d as int)],
{
    if d == 0 {
        proof {
            reveal_strlit("0");
            assert("0"@ =~= seq![dec_digit(0)]);
        }
        "0"
    } else if d == 1 {
        proof {
            reveal_strlit("1");
            assert("1"@ =~= seq![dec_digit(1)]);
        }
        "1"
    } else if d == 2 {
        proof {
            reveal_strlit("2");
            assert("2"@ =~= seq![dec_digit(2)]);
        }
        "2"
    } else if d == 3 {
        proof {
            reveal_strlit("3");
            assert("3"@ =~= seq![dec_digit(3)]);
        }
        "3"
    } else if d == 4 {
        proof {
            reveal_strlit("4");
            assert("4"@ =~= seq![dec_digit(4)]);
        }
        "4"
    } else if d == 5 {
        proof {
            reveal_strlit("5");
            assert("5"@ =~= seq![dec_digit(5)]);
        }
        "5"
    } else if d == 6 {
        proof {
            reveal_strlit("6");
            assert("6"@ =~= seq![dec_digit(6)]);
        }
        "6"
    } else if d == 7 {
        proof {
            reveal_strlit("7");
            assert("7"@ =~= seq![dec_digit(7)]);
        }
        "7"
    } else if d == 8 {
        proof {
            reveal_strlit("8");
            assert("8"@ =~= seq![dec_digit(8)]);
        }
        "8"
    } else {
        proof {
            reveal_strlit("9");
            assert("9"@ =~= seq![dec_digit(9)]);
        }
        "9"
    }
}

/// Append the decimal rendering of `n` to `s`.
fn push_decimal(s: &mut String, n: u8)
    ensures
        final(s)@ == old(s)@ + dec_seq(n as int),
    decreases n,
{
    if n >= 10 {
        push_decimal(s, n / 10);
        s.append(digit_str(n % 10));
        proof {
            assert(s@ =~= old(s)@ + dec_seq(n as int));
        }
    } else {
        s.append(digit_str(n));
        proof {
            assert(s@ =~= old(s)@ + dec_seq(n as int));
        }
    }
}

/// The chat line posted for an inbound chat message.
pub open spec fn chat_line_text(name: Seq<char>, content: Seq<char>) -> Seq<char> {
    "**"@ + name + "**: "@ + content
}

/// Render the chat line for an inbound chat message.
pub fn chat_line(name: &String, content: &String) -> (s: String)
    ensures
        s@ == chat_line_text(name@, content@),
{
    let mut s = String::new();
    s.append("**");
    s.append(name.as_str());
    s.append("**: ");
    s.append(content.as_str());
    proof {
        assert(s@ =~= chat_line_text(name@, content@));
    }
    s
}

/// Title of the embed posted while a player is connecting.
pub open spec fn connecting_title_text(name: Seq<char>) -> Seq<char> {
    "**"@ + name + "** is connecting..."@
}

/// Render the title of the connecting embed.
pub fn connecting_title(name: &String) -> (s: String)
    ensures
        s@ == connecting_title_text(name@),
{
    let mut s = String::new();
    s.append("**");
    s.append(name.as_str());
    s.append("** is connecting...");
    proof {
        assert(s@ =~= connecting_title_text(name@));
    }
    s
}

/// Title of the embed posted when a player has joined.
pub open spec fn joined_title_text(name: Seq<char>) -> Seq<char> {
    "**"@ + name + "** has joined the server."@
}

/// Render the title of the joined embed.
pub fn joined_title(name: &String) -> (s: String)
    ensures
        s@ == joined_title_text(name@),
{
    let mut s = String::new();
    s.append("**");
    s.append(name.as_str());
    s.append("** has joined the server.");
    proof {
        assert(s@ =~= joined_title_text(name@));
    }
    s
}

/// Title of the embed posted when a player has disconnected.
pub open spec fn disconnected_title_text(name: Seq<char>, reason: Seq<char>) -> Seq<char> {
    "**"@ + name + "** has disconnected. ("@ + reason + ")"@
}

/// Render the title of the disconnected embed.
pub fn disconnected_title(name: &String, reason: &String) -> (s: String)
    ensures
        s@ == disconnected_title_text(name@, reason@),
{
    let mut s = String::new();
    s.append("**");
    s.append(name.as_str());
    s.append("** has disconnected. (");
    s.append(reason.as_str());
    s.append(")");
    proof {
        assert(s@ =~= disconnected_title_text(name@, reason@));
    }
    s
}

/// Title of the embed posted when the server changes map.
pub open spec fn map_change_title_text(map: Seq<char>) -> Seq<char> {
    "Server is changing map to '"@ + map + "'"@
}

/// Render the title of the map change embed.
pub fn map_change_title(map: &String) -> (s: String)
    ensures
        s@ == map_change_title_text(map@),
{
    let mut s = String::new();
    s.append("Server is changing map to '");
    s.append(map.as_str());
    s.append("'");
    proof {
        assert(s@ =~= map_change_title_text(map@));
    }
    s
}

/// Footer while a player is connecting: the player not yet seated is
/// shown as "+1" beside the occupied count.
pub open spec fn connecting_footer_text(occupied: u8, capacity: u8) -> Seq<char> {
    "Players: ("@ + dec_seq(occupied as int) + "+1/"@ + dec_seq(capacity as int) + ")"@
}

/// Render the connecting footer.
pub fn connecting_footer(occupied: u8, capacity: u8) -> (s: String)
    ensures
        s@ == connecting_footer_text(occupied, capacity),
{
    let mut s = String::new();
    s.append("Players: (");
    push_decimal(&mut s, occupied);
    s.append("+1/");
    push_decimal(&mut s, capacity);
    s.append(")");
    proof {
        assert(s@ =~= connecting_footer_text(occupied, capacity));
    }
    s
}

/// Footer showing the occupied count over the capacity.
pub open spec fn players_footer_text(occupied: u8, capacity: u8) -> Seq<char> {
    "Players: ("@ + dec_seq(occupied as int) + "/"@ + dec_seq(capacity as int) + ")"@
}

/// Render the plain players footer.
pub fn players_footer(occupied: u8, capacity: u8) -> (s: String)
    ensures
        s@ == players_footer_text(occupied, capacity),
{
    let mut s = String::new();
    s.append("Players: (");
    push_decimal(&mut s, occupied);
    s.append("/");
    push_decimal(&mut s, capacity);
    s.append(")");
    proof {
        assert(s@ =~= players_footer_text(occupied, capacity));
    }
    s
}

/// Players footer extended with the current map.
pub open spec fn players_map_footer_text(occupied: u8, capacity: u8, map: Seq<char>) -> Seq<
    char,
> {
    players_footer_text(occupied, capacity) + " | Map: "@ + map
}

/// Render the players footer with the current map.
pub fn players_map_footer(occupied: u8, capacity: u8, map: &String) -> (s: String)
    ensures
        s@ == players_map_footer_text(occupied, capacity, map@),
{
    let mut s = players_footer(occupied, capacity);
    s.append(" | Map: ");
    s.append(map.as_str());
    proof {
        assert(s@ =~= players_map_footer_text(occupied, capacity, map@));
    }
    s
}

/// Link to a player's community profile.
pub open spec fn profile_url_text(steamid64: Seq<char>) -> Seq<char> {
    "https://steamcommunity.com/profiles/"@ + steamid64
}

/// Render the profile link of a joined player.
pub fn profile_url(steamid64: &String) -> (s: String)
    ensures
        s@ == profile_url_text(steamid64@),
{
    let mut s = String::new();
    s.append("https://steamcommunity.com/profiles/");
    s.append(steamid64.as_str());
    proof {
        assert(s@ =~= profile_url_text(steamid64@));
    }
    s
}

} // verus!
