use game_relay::color::{pick_color, Rgb, RoleInfo};
use game_relay::outbound::encode_frame;
use game_relay::registry::RelayRegistry;
use game_relay::relay::{
    handle_read, offline_announcement, on_lookup, online_announcement, socket_path, Announcement,
    PendingJoin, ReadStep,
};
use game_relay::render::{
    chat_line, connecting_footer, connecting_title, disconnected_title, joined_title,
    map_change_title, players_footer, players_map_footer, profile_url,
};
use game_relay::steam::{
    first_avatar, lookup_url, SteamPlayerSummary, SteamSummary, SteamSummaryResponse,
};

#[test]
fn zero_byte_read_disconnects() {
    // An empty read ends the task; the caller announces offline.
    assert_eq!(handle_read(&[]), ReadStep::Disconnect);
    match offline_announcement() {
        Announcement::Embed { post } => {
            assert_eq!(post.title, "\u{1f534} Server Offline");
            assert_eq!(post.color, Rgb { r: 255, g: 0, b: 0 });
        }
        other => panic!("expected an embed, got {:?}", other),
    }
}

#[test]
fn online_announcement_shape() {
    match online_announcement() {
        Announcement::Embed { post } => {
            assert_eq!(post.title, "\u{1f7e2} Server Online");
            assert_eq!(post.color, Rgb { r: 0, g: 255, b: 0 });
        }
        other => panic!("expected an embed, got {:?}", other),
    }
}

#[test]
fn short_read_skips() {
    assert_eq!(handle_read(&[1]), ReadStep::Skip);
}

#[test]
fn malformed_packet_skips() {
    assert_eq!(handle_read(&[2, 1, 0, 0, 0, 3, 10]), ReadStep::Skip);
    assert_eq!(handle_read(&[9, 9]), ReadStep::Skip);
}

#[test]
fn status_query_skips() {
    assert_eq!(handle_read(&[4, 0]), ReadStep::Skip);
}

#[test]
fn chat_packet_posts_chat_line() {
    let step = handle_read(&[1, b'h', b'i', 0, b'y', b'o']);
    match step {
        ReadStep::Post { announcement: Announcement::Chat { text } } => {
            assert_eq!(text, "**hi**: yo");
        }
        other => panic!("expected a chat post, got {:?}", other),
    }
}

#[test]
fn connecting_packet_renders_footer() {
    let buf: Vec<u8> = vec![
        2, 1, 0, 255, 0, 3, 10, b'B', b'o', b'b', 0, b'7', b'6', b'5', 0,
    ];
    match handle_read(&buf) {
        ReadStep::Post { announcement: Announcement::Embed { post } } => {
            assert_eq!(post.title, "**Bob** is connecting...");
            assert_eq!(post.description.as_deref(), Some("765"));
            assert_eq!(post.color, Rgb { r: 0, g: 255, b: 0 });
            assert_eq!(post.footer.as_deref(), Some("Players: (3+1/10)"));
            assert_eq!(post.url, None);
            assert_eq!(post.thumbnail, None);
        }
        other => panic!("expected an embed post, got {:?}", other),
    }
}

#[test]
fn map_change_posts_and_stops() {
    let buf: Vec<u8> = vec![3, b'd', b'e', b'_', b'd', b'u', b's', b't', 0];
    match handle_read(&buf) {
        ReadStep::PostAndStop { announcement: Announcement::Embed { post } } => {
            assert_eq!(post.title, "Server is changing map to 'de_dust'");
            assert_eq!(post.color, Rgb { r: 198, g: 156, b: 109 });
        }
        other => panic!("expected the read task to stop after the post, got {:?}", other),
    }
}

#[test]
fn connected_packet_waits_for_lookup() {
    let buf: Vec<u8> = vec![
        2, 2, 7, 8, 9, 5, 16, b'A', 0, b'1', 0, b'9', b'9', 0, b'd', b'e', 0,
    ];
    match handle_read(&buf) {
        ReadStep::Lookup { pending } => {
            assert_eq!(pending.name, "A");
            assert_eq!(pending.steamid64, "99");
            assert_eq!(pending.map.as_deref(), Some("de"));
        }
        other => panic!("expected a pending lookup, got {:?}", other),
    }
}

fn sample_pending(map: Option<&str>) -> PendingJoin {
    PendingJoin {
        color: Rgb { r: 7, g: 8, b: 9 },
        occupied: 5,
        capacity: 16,
        name: "A".to_string(),
        steamid: "1".to_string(),
        steamid64: "99".to_string(),
        map: map.map(|m| m.to_string()),
    }
}

#[test]
fn failed_lookup_drops_event() {
    // No announcement at all; the connection stays open, so the next
    // packet still decodes normally.
    assert_eq!(on_lookup(sample_pending(Some("de")), None), None);
    match handle_read(&[1, b'h', b'i', 0, b'y', b'o']) {
        ReadStep::Post { .. } => {}
        other => panic!("expected the next packet to post, got {:?}", other),
    }
}

#[test]
fn successful_lookup_announces_join() {
    let a = on_lookup(sample_pending(Some("de")), Some("http://avatar".to_string()));
    match a {
        Some(Announcement::Embed { post }) => {
            assert_eq!(post.title, "**A** has joined the server.");
            assert_eq!(post.description.as_deref(), Some("1"));
            assert_eq!(post.color, Rgb { r: 7, g: 8, b: 9 });
            assert_eq!(post.footer.as_deref(), Some("Players: (5/16) | Map: de"));
            assert_eq!(
                post.url.as_deref(),
                Some("https://steamcommunity.com/profiles/99")
            );
            assert_eq!(post.thumbnail.as_deref(), Some("http://avatar"));
        }
        other => panic!("expected a joined embed, got {:?}", other),
    }
}

#[test]
fn successful_lookup_without_map_plain_footer() {
    let a = on_lookup(sample_pending(None), Some("av".to_string()));
    match a {
        Some(Announcement::Embed { post }) => {
            assert_eq!(post.footer.as_deref(), Some("Players: (5/16)"));
        }
        other => panic!("expected a joined embed, got {:?}", other),
    }
}

#[test]
fn registry_install_replaces_previous() {
    let mut reg: RelayRegistry<u32> = RelayRegistry::new();
    assert_eq!(reg.install(5, 10), None);
    // The handle installed first is surrendered by the second install,
    // so it can be shut down and can never be written through again.
    assert_eq!(reg.install(5, 11), Some(10));
    assert_eq!(reg.lookup_for_write(5), Some(&11));
    assert_eq!(reg.len(), 1);
}

#[test]
fn registry_channels_are_independent() {
    let mut reg: RelayRegistry<u32> = RelayRegistry::new();
    assert_eq!(reg.install(5, 10), None);
    assert_eq!(reg.install(6, 20), None);
    assert_eq!(reg.lookup_for_write(5), Some(&10));
    assert_eq!(reg.lookup_for_write(6), Some(&20));
    assert_eq!(reg.len(), 2);
}

#[test]
fn registry_remove_absent_is_noop() {
    let mut reg: RelayRegistry<u32> = RelayRegistry::new();
    assert_eq!(reg.remove(5), None);
    assert_eq!(reg.install(5, 10), None);
    assert_eq!(reg.remove(6), None);
    assert_eq!(reg.lookup_for_write(5), Some(&10));
    assert_eq!(reg.remove(5), Some(10));
    assert_eq!(reg.lookup_for_write(5), None);
    assert_eq!(reg.remove(5), None);
}

#[test]
fn frame_layout() {
    let frame = encode_frame(
        Rgb { r: 1, g: 2, b: 3 },
        &"ab".to_string(),
        &"c".to_string(),
    );
    assert_eq!(frame, vec![1, 2, 3, b'a', b'b', 0, b'c', 0]);
}

#[test]
fn frame_layout_empty_texts() {
    let frame = encode_frame(Rgb { r: 9, g: 8, b: 7 }, &"".to_string(), &"".to_string());
    assert_eq!(frame, vec![9, 8, 7, 0, 0]);
}

#[test]
fn frame_layout_multibyte_text() {
    let frame = encode_frame(
        Rgb { r: 0, g: 0, b: 0 },
        &"\u{e9}".to_string(),
        &"!".to_string(),
    );
    assert_eq!(frame, vec![0, 0, 0, 0xc3, 0xa9, 0, b'!', 0]);
}

#[test]
fn color_of_highest_role() {
    let roles = vec![
        RoleInfo { position: 2, colour: 0x0000ff },
        RoleInfo { position: 7, colour: 0xabcdef },
        RoleInfo { position: 4, colour: 0x00ff00 },
    ];
    assert_eq!(pick_color(&roles), Rgb { r: 0xab, g: 0xcd, b: 0xef });
}

#[test]
fn color_tie_keeps_first() {
    let roles = vec![
        RoleInfo { position: 7, colour: 0x111111 },
        RoleInfo { position: 7, colour: 0x222222 },
    ];
    assert_eq!(pick_color(&roles), Rgb { r: 0x11, g: 0x11, b: 0x11 });
}

#[test]
fn uncolored_role_falls_back_to_white() {
    let roles = vec![
        RoleInfo { position: 9, colour: 0 },
        RoleInfo { position: 1, colour: 0x123456 },
    ];
    assert_eq!(pick_color(&roles), Rgb { r: 255, g: 255, b: 255 });
}

#[test]
fn no_roles_falls_back_to_white() {
    assert_eq!(pick_color(&vec![]), Rgb { r: 255, g: 255, b: 255 });
}

#[test]
fn footer_rendering_edges() {
    assert_eq!(connecting_footer(3, 10), "Players: (3+1/10)");
    assert_eq!(players_footer(0, 255), "Players: (0/255)");
    assert_eq!(players_footer(100, 101), "Players: (100/101)");
    assert_eq!(
        players_map_footer(2, 16, &"de_dust".to_string()),
        "Players: (2/16) | Map: de_dust"
    );
}

#[test]
fn title_rendering() {
    assert_eq!(chat_line(&"hi".to_string(), &"yo".to_string()), "**hi**: yo");
    assert_eq!(connecting_title(&"Bob".to_string()), "**Bob** is connecting...");
    assert_eq!(joined_title(&"Bob".to_string()), "**Bob** has joined the server.");
    assert_eq!(
        disconnected_title(&"Bob".to_string(), &"timed out".to_string()),
        "**Bob** has disconnected. (timed out)"
    );
    assert_eq!(
        map_change_title(&"de_dust".to_string()),
        "Server is changing map to 'de_dust'"
    );
}

#[test]
fn derived_paths_and_urls() {
    assert_eq!(socket_path(&"relay1".to_string()), "/tmp/relay1");
    assert_eq!(
        profile_url(&"765".to_string()),
        "https://steamcommunity.com/profiles/765"
    );
    assert_eq!(
        lookup_url(&"KEY".to_string(), &"765".to_string()),
        "https://api.steampowered.com/ISteamUser/GetPlayerSummaries/v0002/?key=KEY&steamids=765"
    );
}

#[test]
fn first_avatar_of_players() {
    let summary = SteamSummary {
        response: SteamSummaryResponse {
            players: vec![
                SteamPlayerSummary { avatarmedium: "one".to_string() },
                SteamPlayerSummary { avatarmedium: "two".to_string() },
            ],
        },
    };
    assert_eq!(first_avatar(&summary), Some("one".to_string()));
}

#[test]
fn first_avatar_of_empty_answer() {
    let summary = SteamSummary { response: SteamSummaryResponse { players: vec![] } };
    assert_eq!(first_avatar(&summary), None);
}
