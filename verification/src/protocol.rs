//! Protocol dispatcher: identifies the opcode of an inbound packet and
//! decodes it into one of a fixed set of events, or rejects
//! malformed or undersized input.

use vstd::prelude::*;

verus! {

use vstd::slice::{slice_index_get, slice_subrange, slice_to_vec};
use vstd::utf8::{valid_utf8, decode_utf8};
use crate::codec::{
    bytes_to_string,
    field_ok,
    field_text,
    next_start,
    scan_end,
    ByteReading,
};
use crate::color::Rgb;

/// Why a packet was rejected. Every rejection is local to the single
/// packet: the connection stays open and the next read is attempted.
#[derive(Debug, Clone, Copy, PartialEq, Eq, Structural)]
pub enum ParseError {
    /// The buffer is shorter than the opcode's minimum length.
    Undersized,
    /// A string field could not be read: it starts past the end of the
    /// buffer, or its bytes are not valid UTF-8.
    BadString,
    /// A player lifecycle packet carries an unrecognized sub-opcode.
    UnknownSubOpcode,
}

/// An event decoded from a peer's byte stream.
#[derive(Debug, Clone, PartialEq)]
pub enum InboundEvent {
    ChatMessage { name: String, content: String },
    PlayerConnecting { color: Rgb, occupied: u8, capacity: u8, name: String, steamid: String },
    PlayerConnected {
        color: Rgb,
        occupied: u8,
        capacity: u8,
        name: String,
        steamid: String,
        steamid64: String,
        map: Option<String>,
    },
    PlayerDisconnected {
        color: Rgb,
        occupied: u8,
        capacity: u8,
        name: String,
        steamid: String,
        reason: String,
    },
    MapChange { map: String },
    StatusQuery,
}

/// The mathematical value of an `InboundEvent`: its strings as
/// character sequences.
pub enum EventModel {
    Chat { name: Seq<char>, content: Seq<char> },
    Connecting { color: Rgb, occupied: u8, capacity: u8, name: Seq<char>, steamid: Seq<char> },
    Connected {
        color: Rgb,
        occupied: u8,
        capacity: u8,
        name: Seq<char>,
        steamid: Seq<char>,
        steamid64: Seq<char>,
        map: Option<Seq<char>>,
    },
    Disconnected {
        color: Rgb,
        occupied: u8,
        capacity: u8,
        name: Seq<char>,
        steamid: Seq<char>,
        reason: Seq<char>,
    },
    MapChange { map: Seq<char> },
    Status,
}

impl View for InboundEvent {
    type V = EventModel;

    open spec fn view(&self) -> EventModel {
        match self {
            InboundEvent::ChatMessage { name, content } => EventModel::Chat {
                name: name@,
                content: content@,
            },
            InboundEvent::PlayerConnecting { color, occupied, capacity, name, steamid } =>
                EventModel::Connecting {
                color: *color,
                occupied: *occupied,
                capacity: *capacity,
                name: name@,
                steamid: steamid@,
            },
            InboundEvent::PlayerConnected {
                color,
                occupied,
                capacity,
                name,
                steamid,
                steamid64,
                map,
            } => EventModel::Connected {
                color: *color,
                occupied: *occupied,
                capacity: *capacity,
                name: name@,
                steamid: steamid@,
                steamid64: steamid64@,
                map: match map {
                    Some(m) => Some(m@),
                    None => None,
                },
            },
            InboundEvent::PlayerDisconnected {
                color,
                occupied,
                capacity,
                name,
                steamid,
                reason,
            } => EventModel::Disconnected {
                color: *color,
                occupied: *occupied,
                capacity: *capacity,
                name: name@,
                steamid: steamid@,
                reason: reason@,
            },
            InboundEvent::MapChange { map } => EventModel::MapChange { map: map@ },
            InboundEvent::StatusQuery => EventModel::Status,
        }
    }
}

/// What `decode` returns, mapped to the mathematical model.
pub open spec fn decoded_view(r: Result<Option<InboundEvent>, ParseError>) -> Result<
    Option<EventModel>,
    ParseError,
> {
    match r {
        Ok(Some(e)) => Ok(Some(e@)),
        Ok(None) => Ok(None),
        Err(p) => Err(p),
    }
}

/// Decoding of a chat message packet (opcode 1): the name runs from
/// offset 1 to the first zero byte, the content is whatever follows
/// that zero byte. Without a zero byte the name takes all but the last
/// byte and the content is empty.
pub open spec fn chat_model(bytes: Seq<u8>) -> Result<Option<EventModel>, ParseError> {
    if bytes.len() < 4 {
        Err(ParseError::Undersized)
    } else {
        let e = scan_end(bytes, 1);
        let name_b = if e < bytes.len() {
            bytes.subrange(1, e)
        } else {
            bytes.subrange(1, bytes.len() - 1)
        };
        let content_b = if e < bytes.len() {
            bytes.subrange(e + 1, bytes.len() as int)
        } else {
            Seq::<u8>::empty()
        };
        if valid_utf8(name_b) && valid_utf8(content_b) {
            Ok(
                Some(
                    EventModel::Chat {
                        name: decode_utf8(name_b),
                        content: decode_utf8(content_b),
                    },
                ),
            )
        } else {
            Err(ParseError::BadString)
        }
    }
}

/// Decoding of a player lifecycle packet (opcode 2): fixed color and
/// count fields, then name and steamid read by cursor chaining from
/// offset 7, then the fields the sub-opcode asks for.
pub open spec fn player_model(bytes: Seq<u8>) -> Result<Option<EventModel>, ParseError> {
    if bytes.len() < 8 {
        Err(ParseError::Undersized)
    } else {
        let color = Rgb { r: bytes[2], g: bytes[3], b: bytes[4] };
        let occupied = bytes[5];
        let capacity = bytes[6];
        if !field_ok(bytes, 7) {
            Err(ParseError::BadString)
        } else {
            let s2 = next_start(bytes, 7);
            if !field_ok(bytes, s2) {
                Err(ParseError::BadString)
            } else {
                let name = field_text(bytes, 7);
                let steamid = field_text(bytes, s2);
                let s3 = next_start(bytes, s2);
                if bytes[1] == 1 {
                    Ok(Some(EventModel::Connecting { color, occupied, capacity, name, steamid }))
                } else if bytes[1] == 2 {
                    if !field_ok(bytes, s3) {
                        Err(ParseError::BadString)
                    } else {
                        let s4 = next_start(bytes, s3);
                        let map = if field_ok(bytes, s4) {
                            Some(field_text(bytes, s4))
                        } else {
                            None
                        };
                        Ok(
                            Some(
                                EventModel::Connected {
                                    color,
                                    occupied,
                                    capacity,
                                    name,
                                    steamid,
                                    steamid64: field_text(bytes, s3),
                                    map,
                                },
                            ),
                        )
                    }
                } else if bytes[1] == 3 {
                    if !field_ok(bytes, s3) {
                        Err(ParseError::BadString)
                    } else {
                        Ok(
                            Some(
                                EventModel::Disconnected {
                                    color,
                                    occupied,
                                    capacity,
                                    name,
                                    steamid,
                                    reason: field_text(bytes, s3),
                                },
                            ),
                        )
                    }
                } else {
                    Err(ParseError::UnknownSubOpcode)
                }
            }
        }
    }
}

/// Decoding of a map change packet (opcode 3): one string at offset 1.
pub open spec fn map_change_model(bytes: Seq<u8>) -> Result<Option<EventModel>, ParseError> {
    if !field_ok(bytes, 1) {
        Err(ParseError::BadString)
    } else {
        Ok(Some(EventModel::MapChange { map: field_text(bytes, 1) }))
    }
}

/// What `decode` returns on any buffer: byte 0 selects the event,
/// unknown opcodes are ignored rather than rejected.
pub open spec fn decode_model(bytes: Seq<u8>) -> Result<Option<EventModel>, ParseError> {
    if bytes.len() == 0 {
        Err(ParseError::Undersized)
    } else if bytes[0] == 1 {
        chat_model(bytes)
    } else if bytes[0] == 2 {
        player_model(bytes)
    } else if bytes[0] == 3 {
        map_change_model(bytes)
    } else if bytes[0] == 4 {
        Ok(Some(EventModel::Status))
    } else {
        Ok(None)
    }
}

fn decode_chat(bytes: &[u8]) -> (r: Result<Option<InboundEvent>, ParseError>)
    ensures
        decoded_view(r) == chat_model(bytes@),
{
    if bytes.len() < 4 {
        return Err(ParseError::Undersized);
    }
    let mut i: usize = 1;
    while i < bytes.len() && *slice_index_get(bytes, i) != 0
        invariant
            1 <= i <= bytes@.len(),
            scan_end(bytes@, 1) == scan_end(bytes@, i as int),
        decreases bytes@.len() - i,
    {
        i = i + 1;
    }
    proof {
        assert(scan_end(bytes@, 1) == i);
    }
    let (name_end, content_start): (usize, usize) = if i < bytes.len() {
        (i, i + 1)
    } else {
        (bytes.len() - 1, bytes.len())
    };
    let name_bytes = slice_to_vec(slice_subrange(bytes, 1, name_end));
    let content_bytes = slice_to_vec(slice_subrange(bytes, content_start, bytes.len()));
    proof {
        if i >= bytes@.len() {
            assert(content_bytes@ =~= Seq::<u8>::empty());
        }
    }
    match bytes_to_string(name_bytes) {
        None => Err(ParseError::BadString),
        Some(name) => match bytes_to_string(content_bytes) {
            None => Err(ParseError::BadString),
            Some(content) => Ok(Some(InboundEvent::ChatMessage { name, content })),
        },
    }
}

fn decode_player(bytes: &[u8]) -> (r: Result<Option<InboundEvent>, ParseError>)
    ensures
        decoded_view(r) == player_model(bytes@),
{
    if bytes.len() < 8 {
        return Err(ParseError::Undersized);
    }
    let color = Rgb {
        r: *slice_index_get(bytes, 2),
        g: *slice_index_get(bytes, 3),
        b: *slice_index_get(bytes, 4),
    };
    let occupied = *slice_index_get(bytes, 5);
    let capacity = *slice_index_get(bytes, 6);
    let (name, len1) = match bytes.read_string(7) {
        Ok(v) => v,
        Err(_) => {
            return Err(ParseError::BadString);
        },
    };
    let s2 = 7 + len1;
    let (steamid, len2) = match bytes.read_string(s2) {
        Ok(v) => v,
        Err(_) => {
            return Err(ParseError::BadString);
        },
    };
    let sub = *slice_index_get(bytes, 1);
    if sub == 1 {
        Ok(Some(InboundEvent::PlayerConnecting { color, occupied, capacity, name, steamid }))
    } else if sub == 2 {
        let s3 = s2 + len2;
        let (steamid64, len3) = match bytes.read_string(s3) {
            Ok(v) => v,
            Err(_) => {
                return Err(ParseError::BadString);
            },
        };
        let s4 = s3 + len3;
        let map = match bytes.read_string(s4) {
            Ok(v) => Some(v.0),
            Err(_) => None,
        };
        Ok(
            Some(
                InboundEvent::PlayerConnected {
                    color,
                    occupied,
                    capacity,
                    name,
                    steamid,
                    steamid64,
                    map,
                },
            ),
        )
    } else if sub == 3 {
        let s3 = s2 + len2;
        let (reason, _len3) = match bytes.read_string(s3) {
            Ok(v) => v,
            Err(_) => {
                return Err(ParseError::BadString);
            },
        };
        Ok(
            Some(
                InboundEvent::PlayerDisconnected {
                    color,
                    occupied,
                    capacity,
                    name,
                    steamid,
                    reason,
                },
            ),
        )
    } else {
        Err(ParseError::UnknownSubOpcode)
    }
}

fn decode_map_change(bytes: &[u8]) -> (r: Result<Option<InboundEvent>, ParseError>)
    requires
        bytes@.len() >= 1,
    ensures
        decoded_view(r) == map_change_model(bytes@),
{
    match bytes.read_string(1) {
        Ok((map, _consumed)) => Ok(Some(InboundEvent::MapChange { map })),
        Err(_) => Err(ParseError::BadString),
    }
}

/// Decode one inbound packet. Byte 0 is the opcode; `Ok(None)` is an
/// unknown opcode, silently ignored; every `Err` is local to this
/// packet.
pub fn decode(bytes: &[u8]) -> (r: Result<Option<InboundEvent>, ParseError>)
    ensures
        decoded_view(r) == decode_model(bytes@),
{
    if bytes.len() == 0 {
        return Err(ParseError::Undersized);
    }
    let op = *slice_index_get(bytes, 0);
    if op == 1 {
        decode_chat(bytes)
    } else if op == 2 {
        decode_player(bytes)
    } else if op == 3 {
        decode_map_change(bytes)
    } else if op == 4 {
        Ok(Some(InboundEvent::StatusQuery))
    } else {
        Ok(None)
    }
}

/// A buffer shorter than its opcode's minimum length is rejected: four
/// bytes for a chat message, eight for a player lifecycle packet, two
/// for a map change, one for anything.
pub proof fn lemma_decode_undersized(bytes: Seq<u8>)
    requires
        bytes.len() == 0 || (bytes[0] == 1 && bytes.len() < 4) || (bytes[0] == 2 && bytes.len()
            < 8) || (bytes[0] == 3 && bytes.len() < 2),
    ensures
        decode_model(bytes) is Err,
{
}

} // verus!
