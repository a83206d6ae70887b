//! What the media transport is set up with: the audio codec, the UDP port
//! range, the network interfaces that may be used, and the servers for
//! address discovery. These are plain values; the transport itself is built
//! from them by the driver.

use vstd::prelude::*;
use crate::ident::{SessionId, UserId};
use crate::registry::{entry_key, Handle, SessionStorage};
use crate::session::{Session, SessionAction, SessionModel};

verus! {

/// The inclusive range of UDP ports that media connections may bind.
#[derive(Debug, Clone, Copy, PartialEq, Eq, Structural)]
pub struct PortRange(pub u16, pub u16);

/// Clock rate of the audio codec, in hertz.
pub const OPUS_CLOCK_RATE: u32 = 48000;

/// Number of audio channels.
pub const OPUS_CHANNELS: u16 = 2;

/// RTP payload type under which the audio codec is registered.
pub const OPUS_PAYLOAD_TYPE: u8 = 111;

/// The parameters under which a codec is registered.
#[derive(Debug)]
pub struct CodecParameters {
    pub mime_type: String,
    pub clock_rate: u32,
    pub channels: u16,
    pub sdp_fmtp_line: String,
    pub payload_type: u8,
}

/// The settings of the media transport.
#[derive(Debug)]
pub struct MediaApi {
    /// The one codec that is registered: Opus audio.
    pub codec: CodecParameters,
    /// Whether the transport's default interceptors are registered.
    pub default_interceptors: bool,
    /// The ports that connections may bind.
    pub ports: PortRange,
    /// The interfaces that may be used; `None` allows every interface.
    pub allowed_nets: Option<Vec<String>>,
}

/// A server for address discovery.
#[derive(Debug)]
pub struct IceServer {
    pub urls: Vec<String>,
}

/// The configuration of one media connection.
#[derive(Debug)]
pub struct RtcConfiguration {
    pub ice_servers: Vec<IceServer>,
}

/// Whether `name` is among `nets`.
pub open spec fn names(nets: Seq<String>, name: Seq<char>) -> bool {
    exists|i: int| 0 <= i < nets.len() && (#[trigger] nets[i])@ == name
}

impl MediaApi {
    /// Whether the settings allow the interface `name`.
    pub open spec fn allows(&self, name: Seq<char>) -> bool {
        match self.allowed_nets {
            None => true,
            Some(nets) => names(nets@, name),
        }
    }

    /// Whether the interface `interface` may be used: every interface where
    /// no filter is set, else those that the filter names.
    pub fn interface_allowed(&self, interface: &String) -> (allowed: bool)
        ensures
            allowed == self.allows(interface@),
    {
        match &self.allowed_nets {
            None => true,
            Some(nets) => {
                let mut i: usize = 0;
                while i < nets.len()
                    invariant
                        i <= nets.len(),
                        self.allowed_nets == Some(*nets),
                        forall|j: int| 0 <= j < i ==> (#[trigger] nets@[j])@ != interface@,
                    decreases nets.len() - i,
                {
                    if nets[i] == *interface {
                        assert(nets@[i as int]@ == interface@);
                        return true;
                    }
                    i += 1;
                }
                false
            },
        }
    }
}

/// The settings of the media transport: Opus audio at 48 kHz with two
/// channels under payload type 111, the default interceptors, connections
/// bound to the ports from `min` to `max`, and only the interfaces in
/// `allowed_nets` where a filter is given.
pub fn create_api(range: PortRange, allowed_nets: Option<Vec<String>>) -> (api: MediaApi)
    requires
        range.0 <= range.1,
    ensures
        api.codec.mime_type@ == "audio/opus"@,
        api.codec.clock_rate == OPUS_CLOCK_RATE,
        api.codec.channels == OPUS_CHANNELS,
        api.codec.sdp_fmtp_line@ == Seq::<char>::empty(),
        api.codec.payload_type == OPUS_PAYLOAD_TYPE,
        api.default_interceptors,
        api.ports == range,
        api.allowed_nets == allowed_nets,
{
    MediaApi {
        codec: CodecParameters {
            mime_type: "audio/opus".to_owned(),
            clock_rate: OPUS_CLOCK_RATE,
            channels: OPUS_CHANNELS,
            sdp_fmtp_line: String::new(),
            payload_type: OPUS_PAYLOAD_TYPE,
        },
        default_interceptors: true,
        ports: range,
        allowed_nets,
    }
}

/// The configuration of a media connection: one server for address
/// discovery, with one URL.
pub fn create_config() -> (config: RtcConfiguration)
    ensures
        config.ice_servers@.len() == 1,
        config.ice_servers@[0].urls@.len() == 1,
        config.ice_servers@[0].urls@[0]@ == "stun:stun.l.google.com:19302"@,
{
    let mut urls: Vec<String> = Vec::new();
    urls.push("stun:stun.l.google.com:19302".to_owned());
    let mut ice_servers: Vec<IceServer> = Vec::new();
    ice_servers.push(IceServer { urls });
    RtcConfiguration { ice_servers }
}


/// Where the audio artifacts are kept and how long a session may live.
/// The timeouts are in milliseconds.
#[derive(Debug)]
pub struct SessionConfig {
    /// The directory of the audio artifacts.
    pub dir: String,
    /// The idle timeout: the longest time without an accepted packet.
    pub timeout: u64,
    /// The total timeout: the longest time since the creation.
    pub total_timeout: u64,
}

/// Why a session could not be created.
#[derive(Debug)]
pub enum SetupError {
    /// The output file or the media connection could not be allocated; the
    /// text says why.
    Resources(String),
}

/// A session that was created: its identifier, its state machine, and the
/// first action of its driver.
#[derive(Debug)]
pub struct CreatedSession {
    pub id: SessionId,
    pub session: Session,
    pub first: SessionAction,
}

/// Creates the session `id` of `user_id` at clock reading `now`, once its
/// output file and media connection have been allocated. `resources` is
/// how the allocation ended: the handle of the running instance, or why it
/// failed. A failure aborts the creation and leaves the registry as it is.
/// On success the session is registered under `id` for its owner, in place
/// of whatever was registered there, and gets the timeouts of `config`.
pub fn create_session(
    user_id: UserId,
    id: SessionId,
    resources: Result<Handle, String>,
    session_storage: &mut SessionStorage,
    config: &SessionConfig,
    now: u64,
) -> (created: Result<CreatedSession, SetupError>)
    ensures
        match resources {
            Err(reason) => created == Err::<CreatedSession, SetupError>(
                SetupError::Resources(reason),
            ) && final(session_storage)@ == old(session_storage)@,
            Ok(handle) => created is Ok && created->Ok_0.id == id && created->Ok_0.session@
                == SessionModel::created(id, user_id, now, config.total_timeout, config.timeout)
                && created->Ok_0.first == SessionAction::Setup && final(session_storage)@ == old(
                session_storage,
            )@.insert(entry_key(user_id, id), handle),
        },
{
    match resources {
        Err(reason) => Err(SetupError::Resources(reason)),
        Ok(handle) => {
            let (session, first) = Session::new(
                id,
                user_id,
                now,
                config.total_timeout,
                config.timeout,
            );
            session_storage.insert(user_id, id, handle);
            Ok(CreatedSession { id, session, first })
        },
    }
}

} // verus!
