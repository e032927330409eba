//! Per-session state for one game connection.
//!
//! A session here holds what its logic reads and decides on: identity, label,
//! how it connects, its status, its unread counter and its alert toggles. The
//! shared counters and the command channel that a network task uses live beside
//! it in the application, which copies their values in and out.
use vstd::prelude::*;

verus! {

/// Unique identifier for a session.
pub type SessionId = usize;

/// How a session connects to the game.
#[derive(Debug)]
pub enum ConnectionMode {
    /// Connect via Lich proxy (host:port)
    LichProxy { host: String, port: u16 },
    /// Connect directly via eAccess SGE
    Direct { account: String, password: String, character: String, game_code: String },
}

impl Clone for ConnectionMode {
    fn clone(&self) -> (r: Self)
        ensures
            r == *self,
    {
        match self {
            ConnectionMode::LichProxy { host, port } => ConnectionMode::LichProxy {
                host: host.clone(),
                port: *port,
            },
            ConnectionMode::Direct { account, password, character, game_code } =>
                ConnectionMode::Direct {
                account: account.clone(),
                password: password.clone(),
                character: character.clone(),
                game_code: game_code.clone(),
            },
        }
    }
}

/// Current connection state of a session.
#[derive(Debug, PartialEq)]
pub enum SessionStatus {
    /// Not yet connected
    Disconnected,
    /// Attempting to connect
    Connecting,
    /// Connected and receiving data
    Connected,
    /// Connection lost, will retry
    Reconnecting,
    /// Fatal error
    Error(String),
}

impl Clone for SessionStatus {
    fn clone(&self) -> (r: Self)
        ensures
            r == *self,
    {
        match self {
            SessionStatus::Disconnected => SessionStatus::Disconnected,
            SessionStatus::Connecting => SessionStatus::Connecting,
            SessionStatus::Connected => SessionStatus::Connected,
            SessionStatus::Reconnecting => SessionStatus::Reconnecting,
            SessionStatus::Error(e) => SessionStatus::Error(e.clone()),
        }
    }
}

/// The state owned by one game session.
#[derive(Debug)]
pub struct Session {
    /// Unique ID for this session
    pub id: SessionId,
    /// Display name shown in the tab bar (e.g. character name)
    pub label: String,
    /// How to connect
    pub mode: ConnectionMode,
    /// Current connection status
    pub status: SessionStatus,
    /// Number of unread messages received while this session was not active
    pub unread_count: usize,
    /// Whether sound alerts are enabled for this session
    pub sound_enabled: bool,
    /// Whether TTS is enabled for this session
    pub tts_enabled: bool,
}

impl Clone for Session {
    fn clone(&self) -> (r: Self)
        ensures
            r == *self,
    {
        Session {
            id: self.id,
            label: self.label.clone(),
            mode: self.mode.clone(),
            status: self.status.clone(),
            unread_count: self.unread_count,
            sound_enabled: self.sound_enabled,
            tts_enabled: self.tts_enabled,
        }
    }
}

/// A fresh session: disconnected, nothing unread, sound and speech on.
pub open spec fn fresh_session(id: SessionId, label: String, mode: ConnectionMode) -> Session {
    Session {
        id,
        label,
        mode,
        status: SessionStatus::Disconnected,
        unread_count: 0,
        sound_enabled: true,
        tts_enabled: true,
    }
}

/// `s` with its unread counter set to `n`.
pub open spec fn with_unread(s: Session, n: usize) -> Session {
    Session { unread_count: n, ..s }
}

impl Session {
    pub fn new(id: SessionId, label: String, mode: ConnectionMode) -> (s: Self)
        ensures
            s == fresh_session(id, label, mode),
    {
        Session {
            id,
            label,
            mode,
            status: SessionStatus::Disconnected,
            unread_count: 0,
            sound_enabled: true,
            tts_enabled: true,
        }
    }

    /// Marks all messages as read (when the session becomes active).
    pub fn clear_unread(&mut self)
        ensures
            *final(self) == with_unread(*old(self), 0),
    {
        self.unread_count = 0;
    }

    /// Counts one more unread message, staying at `usize::MAX` once there.
    pub fn increment_unread(&mut self)
        ensures
            *final(self) == with_unread(
                *old(self),
                if old(self).unread_count == usize::MAX {
                    usize::MAX
                } else {
                    (old(self).unread_count + 1) as usize
                },
            ),
    {
        self.unread_count = self.unread_count.saturating_add(1);
    }

    /// Takes over the unread count that the network task has counted.
    pub fn sync_unread(&mut self, counted: usize)
        ensures
            *final(self) == with_unread(*old(self), counted),
    {
        self.unread_count = counted;
    }

    pub fn is_connected(&self) -> (b: bool)
        ensures
            b == (self.status is Connected),
    {
        matches!(self.status, SessionStatus::Connected)
    }
}

} // verus!
