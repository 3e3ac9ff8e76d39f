//! Read-loop step logic: what one read from a relay connection leads
//! to, and what a pending player join becomes once the player lookup
//! has answered.

use vstd::prelude::*;

verus! {

use vstd::string::StringExecFns;
use crate::color::Rgb;
use crate::protocol::{decode, decode_model, EventModel, InboundEvent};
use crate::render::{
    chat_line,
    chat_line_text,
    connecting_footer,
    connecting_footer_text,
    connecting_title,
    connecting_title_text,
    disconnected_title,
    disconnected_title_text,
    joined_title,
    joined_title_text,
    map_change_title,
    map_change_title_text,
    players_footer,
    players_footer_text,
    players_map_footer,
    players_map_footer_text,
    profile_url,
    profile_url_text,
};

/// A rich post sent to the channel: a title and a color, and whatever
/// optional parts the event calls for.
#[derive(Debug, Clone, PartialEq)]
pub struct EmbedPost {
    pub title: String,
    pub description: Option<String>,
    pub color: Rgb,
    pub footer: Option<String>,
    pub url: Option<String>,
    pub thumbnail: Option<String>,
}

/// The mathematical value of an `EmbedPost`.
pub struct EmbedModel {
    pub title: Seq<char>,
    pub description: Option<Seq<char>>,
    pub color: Rgb,
    pub footer: Option<Seq<char>>,
    pub url: Option<Seq<char>>,
    pub thumbnail: Option<Seq<char>>,
}

impl View for EmbedPost {
    type V = EmbedModel;

    open spec fn view(&self) -> EmbedModel {
        EmbedModel {
            title: self.title@,
            description: match self.description {
                Some(d) => Some(d@),
                None => None,
            },
            color: self.color,
            footer: match self.footer {
                Some(f) => Some(f@),
                None => None,
            },
            url: match self.url {
                Some(u) => Some(u@),
                None => None,
            },
            thumbnail: match self.thumbnail {
                Some(t) => Some(t@),
                None => None,
            },
        }
    }
}

/// Something to announce in the channel: a plain chat line, with
/// mentions suppressed, or a rich post.
#[derive(Debug, Clone, PartialEq)]
pub enum Announcement {
    Chat { text: String },
    Embed { post: EmbedPost },
}

/// The mathematical value of an `Announcement`.
pub enum AnnouncementModel {
    Chat { text: Seq<char> },
    Embed { post: EmbedModel },
}

impl View for Announcement {
    type V = AnnouncementModel;

    open spec fn view(&self) -> AnnouncementModel {
        match self {
            Announcement::Chat { text } => AnnouncementModel::Chat { text: text@ },
            Announcement::Embed { post } => AnnouncementModel::Embed { post: post@ },
        }
    }
}

/// A decoded player join waiting on the player lookup for its avatar.
#[derive(Debug, Clone, PartialEq)]
pub struct PendingJoin {
    pub color: Rgb,
    pub occupied: u8,
    pub capacity: u8,
    pub name: String,
    pub steamid: String,
    pub steamid64: String,
    pub map: Option<String>,
}

/// The mathematical value of a `PendingJoin`.
pub struct PendingModel {
    pub color: Rgb,
    pub occupied: u8,
    pub capacity: u8,
    pub name: Seq<char>,
    pub steamid: Seq<char>,
    pub steamid64: Seq<char>,
    pub map: Option<Seq<char>>,
}

impl View for PendingJoin {
    type V = PendingModel;

    open spec fn view(&self) -> PendingModel {
        PendingModel {
            color: self.color,
            occupied: self.occupied,
            capacity: self.capacity,
            name: self.name@,
            steamid: self.steamid@,
            steamid64: self.steamid64@,
            map: match self.map {
                Some(m) => Some(m@),
                None => None,
            },
        }
    }
}

/// What one read from the connection leads to.
#[derive(Debug, Clone, PartialEq)]
pub enum ReadStep {
    /// The peer closed or the read failed: announce the server offline
    /// and end the read task.
    Disconnect,
    /// A short or malformed packet, or a reserved event: skip it and
    /// keep reading.
    Skip,
    /// Announce and keep reading.
    Post { announcement: Announcement },
    /// Announce, then end the read task: a map change closes the
    /// connection's logical session.
    PostAndStop { announcement: Announcement },
    /// A player joined: look up their avatar, then continue with
    /// `on_lookup`.
    Lookup { pending: PendingJoin },
}

/// The mathematical value of a `ReadStep`.
pub enum StepModel {
    Disconnect,
    Skip,
    Post { announcement: AnnouncementModel },
    PostAndStop { announcement: AnnouncementModel },
    Lookup { pending: PendingModel },
}

impl View for ReadStep {
    type V = StepModel;

    open spec fn view(&self) -> StepModel {
        match self {
            ReadStep::Disconnect => StepModel::Disconnect,
            ReadStep::Skip => StepModel::Skip,
            ReadStep::Post { announcement } => StepModel::Post { announcement: announcement@ },
            ReadStep::PostAndStop { announcement } => StepModel::PostAndStop {
                announcement: announcement@,
            },
            ReadStep::Lookup { pending } => StepModel::Lookup { pending: pending@ },
        }
    }
}

/// The embed announced while a player is connecting.
pub open spec fn connecting_embed_model(
    color: Rgb,
    occupied: u8,
    capacity: u8,
    name: Seq<char>,
    steamid: Seq<char>,
) -> EmbedModel {
    EmbedModel {
        title: connecting_title_text(name),
        description: Some(steamid),
        color,
        footer: Some(connecting_footer_text(occupied, capacity)),
        url: None,
        thumbnail: None,
    }
}

/// The embed announced when a player has disconnected.
pub open spec fn disconnected_embed_model(
    color: Rgb,
    occupied: u8,
    capacity: u8,
    name: Seq<char>,
    steamid: Seq<char>,
    reason: Seq<char>,
) -> EmbedModel {
    EmbedModel {
        title: disconnected_title_text(name, reason),
        description: Some(steamid),
        color,
        footer: Some(players_footer_text(occupied, capacity)),
        url: None,
        thumbnail: None,
    }
}

/// The embed announced when the server changes map.
pub open spec fn map_change_embed_model(map: Seq<char>) -> EmbedModel {
    EmbedModel {
        title: map_change_title_text(map),
        description: None,
        color: Rgb { r: 198, g: 156, b: 109 },
        footer: None,
        url: None,
        thumbnail: None,
    }
}

/// The embed announced when a connection is accepted.
pub open spec fn online_embed_model() -> EmbedModel {
    EmbedModel {
        title: "🟢 Server Online"@,
        description: None,
        color: Rgb { r: 0, g: 255, b: 0 },
        footer: None,
        url: None,
        thumbnail: None,
    }
}

/// The embed announced when the connection is gone.
pub open spec fn offline_embed_model() -> EmbedModel {
    EmbedModel {
        title: "🔴 Server Offline"@,
        description: None,
        color: Rgb { r: 255, g: 0, b: 0 },
        footer: None,
        url: None,
        thumbnail: None,
    }
}

/// The embed announced once a joined player's lookup has answered.
pub open spec fn joined_embed_model(p: PendingModel, avatar: Seq<char>) -> EmbedModel {
    EmbedModel {
        title: joined_title_text(p.name),
        description: Some(p.steamid),
        color: p.color,
        footer: Some(
            match p.map {
                Some(m) => players_map_footer_text(p.occupied, p.capacity, m),
                None => players_footer_text(p.occupied, p.capacity),
            },
        ),
        url: Some(profile_url_text(p.steamid64)),
        thumbnail: Some(avatar),
    }
}

/// What `handle_read` returns for one read of `bytes`: a read of
/// nothing ends the task, fewer than two bytes are skipped, and a
/// decoded event becomes its announcement, a pending lookup, or — for
/// a map change — an announcement that also ends the task.
pub open spec fn step_model(bytes: Seq<u8>) -> StepModel {
    if bytes.len() == 0 {
        StepModel::Disconnect
    } else if bytes.len() < 2 {
        StepModel::Skip
    } else {
        match decode_model(bytes) {
            Err(_) => StepModel::Skip,
            Ok(None) => StepModel::Skip,
            Ok(Some(ev)) => match ev {
                EventModel::Chat { name, content } => StepModel::Post {
                    announcement: AnnouncementModel::Chat { text: chat_line_text(name, content) },
                },
                EventModel::Connecting { color, occupied, capacity, name, steamid } =>
                    StepModel::Post {
                    announcement: AnnouncementModel::Embed {
                        post: connecting_embed_model(color, occupied, capacity, name, steamid),
                    },
                },
                EventModel::Connected {
                    color,
                    occupied,
                    capacity,
                    name,
                    steamid,
                    steamid64,
                    map,
                } => StepModel::Lookup {
                    pending: PendingModel {
                        color,
                        occupied,
                        capacity,
                        name,
                        steamid,
                        steamid64,
                        map,
                    },
                },
                EventModel::Disconnected { color, occupied, capacity, name, steamid, reason } =>
                    StepModel::Post {
                    announcement: AnnouncementModel::Embed {
                        post: disconnected_embed_model(
                            color,
                            occupied,
                            capacity,
                            name,
                            steamid,
                            reason,
                        ),
                    },
                },
                EventModel::MapChange { map } => StepModel::PostAndStop {
                    announcement: AnnouncementModel::Embed { post: map_change_embed_model(map) },
                },
                EventModel::Status => StepModel::Skip,
            },
        }
    }
}

/// Take one step of the read loop on the bytes one read returned.
pub fn handle_read(bytes: &[u8]) -> (step: ReadStep)
    ensures
        step@ == step_model(bytes@),
{
    if bytes.len() == 0 {
        return ReadStep::Disconnect;
    }
    if bytes.len() < 2 {
        return ReadStep::Skip;
    }
    match decode(bytes) {
        Err(_) => ReadStep::Skip,
        Ok(None) => ReadStep::Skip,
        Ok(Some(ev)) => match ev {
            InboundEvent::ChatMessage { name, content } => ReadStep::Post {
                announcement: Announcement::Chat { text: chat_line(&name, &content) },
            },
            InboundEvent::PlayerConnecting { color, occupied, capacity, name, steamid } => {
                let post = EmbedPost {
                    title: connecting_title(&name),
                    description: Some(steamid),
                    color,
                    footer: Some(connecting_footer(occupied, capacity)),
                    url: None,
                    thumbnail: None,
                };
                ReadStep::Post { announcement: Announcement::Embed { post } }
            },
            InboundEvent::PlayerConnected {
                color,
                occupied,
                capacity,
                name,
                steamid,
                steamid64,
                map,
            } => ReadStep::Lookup {
                pending: PendingJoin { color, occupied, capacity, name, steamid, steamid64, map },
            },
            InboundEvent::PlayerDisconnected {
                color,
                occupied,
                capacity,
                name,
                steamid,
                reason,
            } => {
                let post = EmbedPost {
                    title: disconnected_title(&name, &reason),
                    description: Some(steamid),
                    color,
                    footer: Some(players_footer(occupied, capacity)),
                    url: None,
                    thumbnail: None,
                };
                ReadStep::Post { announcement: Announcement::Embed { post } }
            },
            InboundEvent::MapChange { map } => {
                let post = EmbedPost {
                    title: map_change_title(&map),
                    description: None,
                    color: Rgb { r: 198, g: 156, b: 109 },
                    footer: None,
                    url: None,
                    thumbnail: None,
                };
                ReadStep::PostAndStop { announcement: Announcement::Embed { post } }
            },
            InboundEvent::StatusQuery => ReadStep::Skip,
        },
    }
}

/// What a pending join becomes once the lookup has answered: with an
/// avatar it is announced as a joined player; a failed lookup drops
/// the event entirely, with no announcement at all.
pub open spec fn lookup_step_model(p: PendingModel, avatar: Option<Seq<char>>) -> Option<
    AnnouncementModel,
> {
    match avatar {
        Some(av) => Some(AnnouncementModel::Embed { post: joined_embed_model(p, av) }),
        None => None,
    }
}

/// Finish a pending join with the avatar the lookup returned, or drop
/// it when the lookup failed.
pub fn on_lookup(pending: PendingJoin, avatar: Option<String>) -> (r: Option<Announcement>)
    ensures
        (match r {
            Some(a) => Some(a@),
            None => None,
        }) == lookup_step_model(
            pending@,
            match avatar {
                Some(av) => Some(av@),
                None => None,
            },
        ),
{
    match avatar {
        None => None,
        Some(av) => {
            let PendingJoin { color, occupied, capacity, name, steamid, steamid64, map } = pending;
            let footer = match &map {
                Some(m) => players_map_footer(occupied, capacity, m),
                None => players_footer(occupied, capacity),
            };
            let post = EmbedPost {
                title: joined_title(&name),
                description: Some(steamid),
                color,
                footer: Some(footer),
                url: Some(profile_url(&steamid64)),
                thumbnail: Some(av),
            };
            Some(Announcement::Embed { post })
        },
    }
}

/// Announce the server online.
pub fn online_announcement() -> (a: Announcement)
    ensures
        a@ == (AnnouncementModel::Embed { post: online_embed_model() }),
{
    Announcement::Embed {
        post: EmbedPost {
            title: String::from_str("🟢 Server Online"),
            description: None,
            color: Rgb { r: 0, g: 255, b: 0 },
            footer: None,
            url: None,
            thumbnail: None,
        },
    }
}

/// Announce the server offline.
pub fn offline_announcement() -> (a: Announcement)
    ensures
        a@ == (AnnouncementModel::Embed { post: offline_embed_model() }),
{
    Announcement::Embed {
        post: EmbedPost {
            title: String::from_str("🔴 Server Offline"),
            description: None,
            color: Rgb { r: 255, g: 0, b: 0 },
            footer: None,
            url: None,
            thumbnail: None,
        },
    }
}

/// Filesystem path a channel's listening socket is bound at, derived
/// from the configured socket name.
pub open spec fn socket_path_text(name: Seq<char>) -> Seq<char> {
    "/tmp/"@ + name
}

/// Derive the socket path for a configured socket name.
pub fn socket_path(name: &String) -> (s: String)
    ensures
        s@ == socket_path_text(name@),
{
    let mut s = String::new();
    s.append("/tmp/");
    s.append(name.as_str());
    proof {
        assert(s@ =~= socket_path_text(name@));
    }
    s
}

} // verus!
