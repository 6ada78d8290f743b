//! Player-side protocol on the server: decoding input packets and applying
//! them to a player's paddle.
use vstd::prelude::*;

verus! {

/// Kind of a packet that a client sends to the server.
#[derive(Debug, Clone, Copy, PartialEq, Eq, Structural)]
pub enum MessageType {
    PlayerPos,
    Shutdown,
    Undefined,
}

/// What went wrong on the I/O side of a read, as far as the session cares.
#[derive(Debug, Clone, Copy, PartialEq, Eq, Structural)]
pub enum IoFailure {
    /// No data arrived before the read timeout: no new input this tick.
    TimedOut,
    /// Any other I/O error (reset, broken pipe, ...).
    Other,
}

/// Why reading a player's input failed.
#[derive(Debug, Clone, Copy, PartialEq, Eq, Structural)]
pub enum PlayerError {
    Io(IoFailure),
    PlayerDisconnected,
    UndefinedPacket(u8),
}

impl PlayerError {
    /// Every error but a read timeout ends the session.
    pub open spec fn is_fatal(self) -> bool {
        self != PlayerError::Io(IoFailure::TimedOut)
    }

    /// Executable form of `is_fatal`.
    pub fn fatal(&self) -> (r: bool)
        ensures
            r == self.is_fatal(),
    {
        match self {
            PlayerError::Io(IoFailure::TimedOut) => false,
            _ => true,
        }
    }
}

/// The tag byte of an input packet, as a message kind.
pub open spec fn message_of(tag: u8) -> MessageType {
    if tag == 0 {
        MessageType::PlayerPos
    } else if tag == 1 {
        MessageType::Shutdown
    } else {
        MessageType::Undefined
    }
}

/// A decoded input packet.
#[derive(Debug, Clone, Copy, PartialEq, Eq, Structural)]
pub struct PlayerMessage {
    pub message_type: MessageType,
    pub data: u8,
}

/// The message that the two bytes of an input packet stand for: an
/// undefined tag carries no payload.
pub open spec fn player_message_of(tag: u8, payload: u8) -> PlayerMessage {
    let message_type = message_of(tag);
    PlayerMessage {
        message_type,
        data: if message_type == MessageType::Undefined { 0 } else { payload },
    }
}

impl PlayerMessage {
    /// Decodes an input packet: tag byte, then payload byte.
    pub fn cast_buffer(buff: &[u8]) -> (r: Self)
        requires
            buff@.len() >= 2,
        ensures
            r == player_message_of(buff@[0], buff@[1]),
    {
        let message_type = Self::decode_message(buff[0]);
        if let MessageType::Undefined = message_type {
            return Self { message_type, data: 0 };
        }
        Self { message_type, data: buff[1] }
    }

    /// Maps a tag byte to its message kind.
    pub fn decode_message(message_id: u8) -> (r: MessageType)
        ensures
            r == message_of(message_id),
    {
        match message_id {
            0 => MessageType::PlayerPos,
            1 => MessageType::Shutdown,
            _ => MessageType::Undefined,
        }
    }
}

/// What a read of one input packet brought: the byte count of the read, or
/// the I/O failure; for a count of one or more, the buffer's first two bytes
/// are the packet. Success carries the paddle position that was asked for.
pub open spec fn input_of(read: Result<usize, IoFailure>, buff: Seq<u8>) -> Result<u8, PlayerError> {
    match read {
        Err(e) => Err(PlayerError::Io(e)),
        Ok(n) => if n == 0 {
            Err(PlayerError::PlayerDisconnected)
        } else {
            match message_of(buff[0]) {
                MessageType::PlayerPos => Ok(buff[1]),
                MessageType::Shutdown => Err(PlayerError::PlayerDisconnected),
                MessageType::Undefined => Err(PlayerError::UndefinedPacket(buff[0])),
            }
        },
    }
}

/// A connection that has arrived and waits for a match. `C` is the
/// connection handle, which this library only carries.
#[derive(Debug)]
pub struct NewPlayer<C> {
    pub player_name: Option<String>,
    pub game_type: crate::gamemode::Gamemodes,
    pub tcp_stream: C,
}

impl<C> NewPlayer<C> {
    pub fn new(game_type: crate::gamemode::Gamemodes, tcp_stream: C) -> (r: Self)
        ensures
            r.player_name is None,
            r.game_type == game_type,
            r.tcp_stream == tcp_stream,
    {
        Self { player_name: None, game_type, tcp_stream }
    }
}

/// A player inside a match: paddle center and connection handle.
#[derive(Debug)]
pub struct Player<C> {
    pub player_pos: u8,
    pub stream: C,
}

impl<C> Player<C> {
    pub fn from_new_player(new_player: NewPlayer<C>) -> (r: Self)
        ensures
            r.player_pos == 30,
            r.stream == new_player.tcp_stream,
    {
        Self { player_pos: 30, stream: new_player.tcp_stream }
    }

    /// Applies the outcome of one read of the player's connection: a
    /// position packet sets the paddle verbatim; anything else is an error
    /// and leaves the paddle where it was.
    pub fn updated_position(&mut self, read: Result<usize, IoFailure>, buff: &[u8]) -> (r: Result<
        (),
        PlayerError,
    >)
        requires
            buff@.len() >= 2,
        ensures
            final(self).stream == old(self).stream,
            match input_of(read, buff@) {
                Ok(p) => r == Ok::<(), PlayerError>(()) && final(self).player_pos == p,
                Err(e) => r == Err::<(), PlayerError>(e) && final(self).player_pos == old(
                    self,
                ).player_pos,
            },
    {
        match read {
            Ok(n) => {
                if n == 0 {
                    return Err(PlayerError::PlayerDisconnected);
                }
                let player_message = PlayerMessage::cast_buffer(buff);
                match player_message.message_type {
                    MessageType::PlayerPos => {
                        self.player_pos = player_message.data;
                        Ok(())
                    },
                    MessageType::Shutdown => Err(PlayerError::PlayerDisconnected),
                    MessageType::Undefined => Err(PlayerError::UndefinedPacket(buff[0])),
                }
            },
            Err(e) => Err(PlayerError::Io(e)),
        }
    }
}

} // verus!
