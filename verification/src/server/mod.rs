pub mod auth;

use crate::config::Config;
use crate::protocol::error::ProtocolError;
use crate::protocol::login::{LoginState, MojangAuthenticateResult, MojangProfileProperty};
use crate::protocol::packets::login::{
    DisconnectClient, EncryptionRequest, EncryptionResponse, LoginStart, LoginSuccess,
};
use crate::protocol::packets::handshaking::Handshake;
use crate::protocol::packets::status::PongResponse;
use crate::protocol::packets::{
    ConfigurationPacket, HandshakingPacket, LoginPacket, PacketRegistry, StatusPacket,
};
use crate::protocol::types;
use crate::protocol::types::{Boolean, Byte, GameProfile, PrefixedArray, Property};
use crate::protocol::utils::{
    spec_text_component, text_component, Description, Players, ServerListPingStatusResponse,
    Version,
};
use crate::protocol::ProtocolState;
use crate::server::auth::{
    public_key_der, random_token, rsa_decrypt, server_id_hash, spec_public_key_der,
    spec_rsa_decrypt, spec_server_hash, token_matches,
};
use vstd::prelude::*;

verus! {

/// What the server shares among its connections.
#[derive(Debug)]
pub struct ServerState {
    config: Config,
    protocol_version_number: u32,
    version_name: std::string::String,
    /// The server's RSA private key, PKCS#8 DER.
    private_key: Vec<u8>,
    online: usize,
}

impl ServerState {
    pub closed spec fn spec_config(&self) -> &Config {
        &self.config
    }

    pub closed spec fn spec_protocol_version_number(&self) -> u32 {
        self.protocol_version_number
    }

    pub closed spec fn spec_version_name(&self) -> Seq<char> {
        self.version_name@
    }

    /// The PKCS#8 DER encoding of the server's RSA private key.
    pub closed spec fn spec_private_key(&self) -> Seq<u8> {
        self.private_key@
    }

    pub closed spec fn spec_online(&self) -> usize {
        self.online
    }

    /// The state of a server that speaks protocol 773 (game version 1.21.10),
    /// holds the RSA private key whose PKCS#8 DER encoding is `private_key`, and
    /// has no connection yet.
    pub fn new(config: Config, private_key: Vec<u8>) -> (res: Self)
        ensures
            *res.spec_config() == config,
            res.spec_protocol_version_number() == 773,
            res.spec_version_name() == "1.21.10"@,
            res.spec_private_key() == private_key@,
            res.spec_online() == 0,
    {
        Self {
            config,
            protocol_version_number: 773,
            version_name: std::string::String::from_str("1.21.10"),
            private_key,
            online: 0,
        }
    }

    /// The settings of the server.
    pub fn config(&self) -> (res: &Config)
        ensures
            *res == *self.spec_config(),
    {
        &self.config
    }

    /// The number of open connections.
    pub fn online(&self) -> (res: usize)
        ensures
            res == self.spec_online(),
    {
        self.online
    }

    /// `new` is `old` with the number of open connections moved by `delta`, and
    /// everything else the same.
    pub open spec fn online_moved(old: ServerState, new: ServerState, delta: int) -> bool {
        &&& new.spec_online() == old.spec_online() + delta
        &&& new.spec_config() == old.spec_config()
        &&& new.spec_protocol_version_number() == old.spec_protocol_version_number()
        &&& new.spec_version_name() == old.spec_version_name()
        &&& new.spec_private_key() == old.spec_private_key()
    }

    /// Counts a new connection.
    pub fn client_connected(&mut self)
        requires
            old(self).spec_online() < usize::MAX,
        ensures
            ServerState::online_moved(*old(self), *final(self), 1),
    {
        self.online = self.online + 1;
    }

    /// Counts a closed connection.
    pub fn client_disconnected(&mut self)
        requires
            old(self).spec_online() > 0,
        ensures
            ServerState::online_moved(*old(self), *final(self), -1),
    {
        self.online = self.online - 1;
    }
}

/// A connection that is counted when it opens and again when it closes leaves
/// the number of open connections, and everything else the server shares, as it
/// was: the count is the number of connections still open.
pub proof fn law_connection_counted_once(before: ServerState, during: ServerState, after: ServerState)
    requires
        ServerState::online_moved(before, during, 1),
        ServerState::online_moved(during, after, -1),
    ensures
        after.spec_online() == before.spec_online(),
        after.spec_config() == before.spec_config(),
        after.spec_protocol_version_number() == before.spec_protocol_version_number(),
        after.spec_version_name() == before.spec_version_name(),
        after.spec_private_key() == before.spec_private_key(),
{
}

/// The player a connection logs in.
#[derive(Debug)]
pub struct PlayerInfo {
    name: std::string::String,
    uuid: [u8; 16],
}

impl PlayerInfo {
    pub closed spec fn spec_name(&self) -> Seq<char> {
        self.name@
    }

    pub closed spec fn spec_uuid(&self) -> Seq<u8> {
        self.uuid@
    }
}

/// What the connection has to do after a packet was handled.
#[derive(Debug)]
pub enum ClientAction {
    /// Nothing.
    Nothing,
    /// Send this packet.
    Send(PacketRegistry),
    /// Send this status, serialised as JSON, in a status response.
    SendStatus(ServerListPingStatusResponse),
    /// Switch the connection's stream to encryption with the key `key` and the
    /// initialisation vector `iv`; then ask the session server whether `username`
    /// has joined with the server id `server_id`, and send the login success
    /// built from its answer.
    Authenticate {
        key: Vec<u8>,
        iv: Vec<u8>,
        username: std::string::String,
        server_id: std::string::String,
    },
    /// Send this packet, then end the connection with this error.
    SendThenFail(PacketRegistry, ProtocolError),
}

/// The state of one connection.
#[derive(Debug)]
pub struct Client {
    protocol_state: ProtocolState,
    login_state: Option<LoginState>,
    player_info: Option<PlayerInfo>,
}

/// The reason sent to a client that starts a login twice.
pub open spec fn spec_invalid_login_sequence() -> Seq<char> {
    "{\"text\": \"Invalid Login Sequence\"}"@
}

/// The reason sent to a client whose verify token does not match.
pub open spec fn spec_unable_to_verify() -> Seq<char> {
    spec_text_component("Unable to verify token"@)
}

/// The result of a handler that answers nothing, with its action dropped.
pub open spec fn without_action(res: Result<ClientAction, ProtocolError>) -> Result<(), ProtocolError> {
    match res {
        Ok(_) => Ok(()),
        Err(e) => Err(e),
    }
}

/// A handshake moves `old` to `new` with the result `res`: a wrong protocol
/// version is refused, intent 1 goes to status, intent 2 to login, any other
/// intent is refused; a refusal changes nothing.
pub open spec fn handshake_outcome(
    old: Client,
    new: Client,
    packet: HandshakingPacket,
    server: ServerState,
    res: Result<(), ProtocolError>,
) -> bool {
    match packet {
        HandshakingPacket::Handshake(inner) => if (inner.protocol_version@ as u32)
            != server.spec_protocol_version_number() {
            res == Err::<(), ProtocolError>(ProtocolError::UnmatchedProtocolVersion) && new == old
        } else if (inner.intent@ as u32) == 1 {
            res is Ok && new.spec_protocol_state() == ProtocolState::Status
                && new.spec_login_state() == old.spec_login_state()
                && new.spec_player_info() == old.spec_player_info()
        } else if (inner.intent@ as u32) == 2 {
            res is Ok && new.spec_protocol_state() == ProtocolState::Login
                && new.spec_login_state() == old.spec_login_state()
                && new.spec_player_info() == old.spec_player_info()
        } else {
            res == Err::<(), ProtocolError>(ProtocolError::UnknownIntent) && new == old
        },
    }
}

/// A handshake whose protocol version is not the server's, higher or lower, is
/// refused and changes nothing; one with the server's version is accepted
/// exactly for intents 1 and 2, and moves to status or login.
pub proof fn law_handshake_checks_version(
    old: Client,
    new: Client,
    handshake: Handshake,
    server: ServerState,
    res: Result<(), ProtocolError>,
)
    requires
        handshake_outcome(old, new, HandshakingPacket::Handshake(handshake), server, res),
    ensures
        (handshake.protocol_version@ as u32) != server.spec_protocol_version_number() ==> res
            == Err::<(), ProtocolError>(ProtocolError::UnmatchedProtocolVersion) && new == old,
        (handshake.protocol_version@ as u32) == server.spec_protocol_version_number() ==> (res is Ok
            <==> ((handshake.intent@ as u32) == 1 || (handshake.intent@ as u32) == 2)),
        res is Err ==> new == old,
        res is Ok && (handshake.intent@ as u32) == 1 ==> new.spec_protocol_state()
            == ProtocolState::Status,
        res is Ok && (handshake.intent@ as u32) == 2 ==> new.spec_protocol_state()
            == ProtocolState::Login,
{
}

/// A status packet is answered with `res` and changes nothing: a status request
/// with the server's status, a ping with a pong that carries its timestamp; any
/// other packet is refused.
pub open spec fn status_outcome(
    old: Client,
    new: Client,
    packet: StatusPacket,
    server: ServerState,
    res: Result<ClientAction, ProtocolError>,
) -> bool {
    &&& new == old
    &&& match packet {
        StatusPacket::StatusRequest(_) => res matches Ok(ClientAction::SendStatus(status))
            && status.version.name@ == server.spec_version_name() && status.version.protocol
            == server.spec_protocol_version_number() && status.players.max
            == server.spec_config().max_players && status.players.online == 0
            && status.description.text@ == server.spec_config().motd@,
        StatusPacket::PingRequest(ping) => res matches Ok(
            ClientAction::Send(PacketRegistry::Status(StatusPacket::PongResponse(pong))),
        ) && pong@ == ping@,
        _ => res == Err::<ClientAction, ProtocolError>(ProtocolError::InvalidPacketReceived),
    }
}

/// The answer to a first login start that drew the verify token `token`, for a
/// server whose private key is `key`: an encryption request with an empty server
/// id, the DER encoding of the key's public half, the token, and authentication
/// required; a crypto error when the key has no public encoding.
pub open spec fn encryption_request_reply(
    key: Seq<u8>,
    token: [u8; 4],
    res: Result<ClientAction, ProtocolError>,
) -> bool {
    match spec_public_key_der(key) {
        None => res == Err::<ClientAction, ProtocolError>(ProtocolError::Crypto),
        Some(der) => res matches Ok(
            ClientAction::Send(PacketRegistry::Login(LoginPacket::EncryptionRequest(request))),
        ) && request.server_id@ == Seq::<char>::empty() && request.public_key@ == der
            && request.verify_token@ == token@ && request.should_authenticate@ == true,
    }
}

/// The answer to an encryption response `response` while the login waits for the
/// verify token `token`, for a server whose private key is `key`.
///
/// The verify token of the response is decrypted with the key. When it is the
/// stored token, the login is verified and the shared secret is decrypted; the
/// stream is to be encrypted with that secret as both key and initialisation
/// vector, and the session server is then asked about the player, with the
/// server id hashed from the decrypted secret and the DER encoding of the key's
/// public half. When it is
/// another token, the client is told that the token could not be verified and
/// nothing changes. A decryption or encoding that fails is a crypto error.
pub open spec fn encryption_response_outcome(
    old: Client,
    new: Client,
    key: Seq<u8>,
    token: [u8; 4],
    response: EncryptionResponse,
    res: Result<ClientAction, ProtocolError>,
) -> bool {
    match spec_rsa_decrypt(key, response.verify_token@) {
        None => res == Err::<ClientAction, ProtocolError>(ProtocolError::Crypto) && new == old,
        Some(deciphered) => if deciphered == token@ {
            &&& new.spec_login_state() == Some(LoginState::Verified)
            &&& new.spec_protocol_state() == old.spec_protocol_state()
            &&& new.spec_player_info() == old.spec_player_info()
            &&& match (spec_rsa_decrypt(key, response.shared_secret@), spec_public_key_der(key)) {
                (Some(secret), Some(der)) => {
                    &&& res matches Ok(
                        ClientAction::Authenticate { key: stream_key, iv, username, server_id },
                    )
                    &&& stream_key@ == secret
                    &&& iv@ == secret
                    &&& old.spec_player_info() matches Some(player)
                    &&& username@ == player.spec_name()
                    &&& server_id@ == spec_server_hash(secret, der)
                },
                _ => res == Err::<ClientAction, ProtocolError>(ProtocolError::Crypto),
            }
        } else {
            &&& new == old
            &&& res matches Ok(
                ClientAction::Send(PacketRegistry::Login(LoginPacket::DisconnectClient(d))),
            )
            &&& d.reason@ == spec_unable_to_verify()
        },
    }
}

/// A login start of the player `start`, on a client with no login under way, for
/// a server whose private key is `key`, with `draw` the random bytes drawn for
/// the verify token (`None` when none could be drawn): without a draw it fails
/// with `Randomness` and changes nothing; with the draw `token` the player and
/// `Start(token)` are kept and the answer is the encryption request for `token`.
pub open spec fn login_start_outcome(
    old: Client,
    new: Client,
    start: LoginStart,
    key: Seq<u8>,
    draw: Option<[u8; 4]>,
    res: Result<ClientAction, ProtocolError>,
) -> bool {
    match draw {
        None => res == Err::<ClientAction, ProtocolError>(ProtocolError::Randomness) && new == old,
        Some(token) => {
            &&& new.spec_protocol_state() == old.spec_protocol_state()
            &&& new.spec_player_info() matches Some(player)
            &&& player.spec_name() == start.name@
            &&& player.spec_uuid() == start.uuid@
            &&& new.spec_login_state() == Some(LoginState::Start(token))
            &&& encryption_request_reply(key, token, res)
        },
    }
}

/// A login start fails for want of randomness only when no random bytes could be
/// drawn, whoever the player is; when bytes were drawn, they are the stored
/// verify token and, for a key with a public encoding, the verify token of the
/// encryption request, which carries that public encoding.
pub proof fn law_login_start_draw(
    old: Client,
    new: Client,
    start: LoginStart,
    key: Seq<u8>,
    draw: Option<[u8; 4]>,
    res: Result<ClientAction, ProtocolError>,
)
    requires
        login_start_outcome(old, new, start, key, draw, res),
    ensures
        res == Err::<ClientAction, ProtocolError>(ProtocolError::Randomness) ==> draw is None,
        draw matches Some(token) ==> new.spec_login_state() == Some(LoginState::Start(token)),
        draw matches Some(token) ==> (spec_public_key_der(key) matches Some(der) ==> (res matches Ok(
            ClientAction::Send(PacketRegistry::Login(LoginPacket::EncryptionRequest(request))),
        ) && request.verify_token@ == token@ && request.public_key@ == der)),
        draw matches Some(token) ==> (spec_public_key_der(key) is None ==> res
            == Err::<ClientAction, ProtocolError>(ProtocolError::Crypto)),
{
}

/// A login packet moves `old` to `new` with the result `res`, for a server whose
/// private key is `key`.
pub open spec fn login_outcome(
    old: Client,
    new: Client,
    packet: LoginPacket,
    key: Seq<u8>,
    res: Result<ClientAction, ProtocolError>,
) -> bool {
    match packet {
        LoginPacket::LoginStart(start) => if old.spec_login_state() is Some {
            &&& new == old
            &&& res matches Ok(
                ClientAction::SendThenFail(
                    PacketRegistry::Login(LoginPacket::DisconnectClient(d)),
                    e,
                ),
            )
            &&& e == ProtocolError::InvalidLoginSequence
            &&& d.reason@ == spec_invalid_login_sequence()
        } else {
            ||| (res == Err::<ClientAction, ProtocolError>(ProtocolError::Randomness) && new == old)
            ||| {
                &&& new.spec_protocol_state() == old.spec_protocol_state()
                &&& new.spec_player_info() matches Some(player)
                &&& player.spec_name() == start.name@
                &&& player.spec_uuid() == start.uuid@
                &&& new.spec_login_state() matches Some(LoginState::Start(token))
                &&& encryption_request_reply(key, token, res)
            }
        },
        LoginPacket::EncryptionResponse(response) => match old.spec_login_state() {
            Some(LoginState::Start(token)) => encryption_response_outcome(
                old,
                new,
                key,
                token,
                response,
                res,
            ),
            _ => res == Err::<ClientAction, ProtocolError>(ProtocolError::InvalidLoginSequence)
                && new == old,
        },
        LoginPacket::LoginPluginResponse(_) => res == Ok::<ClientAction, ProtocolError>(
            ClientAction::Nothing,
        ) && new == old,
        LoginPacket::CookieResponse(_) => res == Ok::<ClientAction, ProtocolError>(
            ClientAction::Nothing,
        ) && new == old,
        LoginPacket::LoginAcknowledged(_) => {
            &&& res == Ok::<ClientAction, ProtocolError>(ClientAction::Nothing)
            &&& new.spec_protocol_state() == ProtocolState::Configuration
            &&& new.spec_login_state() == old.spec_login_state()
            &&& new.spec_player_info() == old.spec_player_info()
        },
        _ => res == Err::<ClientAction, ProtocolError>(ProtocolError::InvalidPacketReceived) && new
            == old,
    }
}

impl Client {
    /// A login is under way only with a player to log in.
    #[verifier::type_invariant]
    closed spec fn inv(self) -> bool {
        self.login_state is Some ==> self.player_info is Some
    }

    pub closed spec fn spec_protocol_state(&self) -> ProtocolState {
        self.protocol_state
    }

    pub closed spec fn spec_login_state(&self) -> Option<LoginState> {
        self.login_state
    }

    pub closed spec fn spec_player_info(&self) -> Option<PlayerInfo> {
        self.player_info
    }

    /// A connection that has just been accepted.
    pub fn new() -> (res: Self)
        ensures
            res.spec_protocol_state() == ProtocolState::Handshaking,
            res.spec_login_state() is None,
            res.spec_player_info() is None,
    {
        Client { protocol_state: ProtocolState::Handshaking, login_state: None, player_info: None }
    }

    /// The phase of the connection, which decides how its next packet is read.
    pub fn protocol_state(&self) -> (res: &ProtocolState)
        ensures
            *res == self.spec_protocol_state(),
    {
        &self.protocol_state
    }

    /// Handles a packet of any state: the step that a connection takes for each
    /// packet it receives.
    pub fn handle_packet(&mut self, packet: PacketRegistry, server: &ServerState) -> (res: Result<
        ClientAction,
        ProtocolError,
    >)
        ensures
            match packet {
                PacketRegistry::Handshaking(p) => handshake_outcome(
                    *old(self),
                    *final(self),
                    p,
                    *server,
                    without_action(res),
                ) && (res is Ok ==> res == Ok::<ClientAction, ProtocolError>(ClientAction::Nothing)),
                PacketRegistry::Status(p) => status_outcome(
                    *old(self),
                    *final(self),
                    p,
                    *server,
                    res,
                ),
                PacketRegistry::Login(p) => login_outcome(
                    *old(self),
                    *final(self),
                    p,
                    server.spec_private_key(),
                    res,
                ),
                PacketRegistry::Configuration(_) => res == Ok::<ClientAction, ProtocolError>(
                    ClientAction::Nothing,
                ) && *final(self) == *old(self),
            },
    {
        match packet {
            PacketRegistry::Handshaking(p) => match self.handle_handshaking_packet(p, server) {
                Ok(()) => Ok(ClientAction::Nothing),
                Err(e) => Err(e),
            },
            PacketRegistry::Status(p) => self.handle_status_packet(p, server),
            PacketRegistry::Login(p) => self.handle_login_packet(p, server),
            PacketRegistry::Configuration(p) => match self.handle_configuration_packet(p) {
                Ok(()) => Ok(ClientAction::Nothing),
                Err(e) => Err(e),
            },
        }
    }

    /// Checks the protocol version of the handshake and moves to the state that
    /// the client asks for: status for intent 1, login for intent 2.
    pub fn handle_handshaking_packet(&mut self, packet: HandshakingPacket, server: &ServerState) -> (res:
        Result<(), ProtocolError>)
        ensures
            handshake_outcome(*old(self), *final(self), packet, *server, res),
    {
        proof {
            use_type_invariant(&*self);
        }
        let HandshakingPacket::Handshake(inner) = packet;
        if u32::from(inner.protocol_version) != server.protocol_version_number {
            return Err(ProtocolError::UnmatchedProtocolVersion);
        }
        let intent = u32::from(inner.intent);
        if intent == 1 {
            self.protocol_state = ProtocolState::Status;
        } else if intent == 2 {
            self.protocol_state = ProtocolState::Login;
        } else {
            return Err(ProtocolError::UnknownIntent);
        }
        Ok(())
    }

    /// Answers a status request with the server's status, and a ping with a pong
    /// that carries the same timestamp.
    pub fn handle_status_packet(&mut self, packet: StatusPacket, server: &ServerState) -> (res: Result<
        ClientAction,
        ProtocolError,
    >)
        ensures
            status_outcome(*old(self), *final(self), packet, *server, res),
    {
        match packet {
            StatusPacket::StatusRequest(_) => {
                let resp = ServerListPingStatusResponse {
                    version: Version {
                        name: server.version_name.clone(),
                        protocol: server.protocol_version_number,
                    },
                    players: Players { max: server.config.max_players, online: 0 },
                    description: Description { text: server.config.motd.clone() },
                };
                Ok(ClientAction::SendStatus(resp))
            },
            StatusPacket::PingRequest(packet) => {
                Ok(
                    ClientAction::Send(
                        PacketRegistry::Status(
                            StatusPacket::PongResponse(PongResponse { timestamp: packet.timestamp }),
                        ),
                    ),
                )
            },
            _ => Err(ProtocolError::InvalidPacketReceived),
        }
    }

    /// Starts the login of the player of `start`, with `draw` the four random
    /// bytes drawn for the verify token, or `None` when none could be drawn: the
    /// player and the token are kept, and the encryption request carries the
    /// server's public key and the token.
    pub fn start_login(&mut self, start: LoginStart, draw: Option<[u8; 4]>, server: &ServerState) -> (res:
        Result<ClientAction, ProtocolError>)
        requires
            old(self).spec_login_state() is None,
        ensures
            login_start_outcome(*old(self), *final(self), start, server.spec_private_key(), draw, res),
    {
        let verify_token = match draw {
            Some(token) => token,
            None => {
                return Err(ProtocolError::Randomness);
            },
        };
        self.player_info = Some(PlayerInfo { name: start.name.0, uuid: start.uuid.0 });
        self.login_state = Some(LoginState::Start(verify_token));
        let public_key = match public_key_der(server.private_key.as_slice()) {
            Some(der) => der,
            None => {
                return Err(ProtocolError::Crypto);
            },
        };
        Ok(
            ClientAction::Send(
                PacketRegistry::Login(
                    LoginPacket::EncryptionRequest(
                        encryption_request(public_key.as_slice(), verify_token),
                    ),
                ),
            ),
        )
    }

    /// Leads a client through the login: a first login start is answered with an
    /// encryption request that carries the server's public key and a fresh
    /// random verify token; an encryption response whose verify token decrypts to
    /// that token leads to the session server check, one with another token is
    /// answered with a disconnect; the acknowledgement of the login success moves
    /// to configuration. After a verified token the stream is to be encrypted
    /// with the decrypted shared secret as both key and initialisation vector.
    pub fn handle_login_packet(&mut self, packet: LoginPacket, server: &ServerState) -> (res: Result<
        ClientAction,
        ProtocolError,
    >)
        ensures
            login_outcome(*old(self), *final(self), packet, server.spec_private_key(), res),
    {
        proof {
            use_type_invariant(&*self);
        }
        match packet {
            LoginPacket::LoginStart(packet) => {
                if self.login_state.is_some() {
                    let reason = types::String(
                        std::string::String::from_str("{\"text\": \"Invalid Login Sequence\"}"),
                    );
                    return Ok(
                        ClientAction::SendThenFail(
                            PacketRegistry::Login(
                                LoginPacket::DisconnectClient(DisconnectClient { reason }),
                            ),
                            ProtocolError::InvalidLoginSequence,
                        ),
                    );
                }
                let draw = match random_token() {
                    Ok(token) => Some(token),
                    Err(_) => None,
                };
                self.start_login(packet, draw, server)
            },
            LoginPacket::EncryptionResponse(packet) => {
                let verify_token = match &self.login_state {
                    Some(LoginState::Start(token)) => *token,
                    _ => {
                        return Err(ProtocolError::InvalidLoginSequence);
                    },
                };
                let encrypted_token = from_bytes(&packet.verify_token);
                let deciphered_verify_token = match rsa_decrypt(
                    server.private_key.as_slice(),
                    encrypted_token.as_slice(),
                ) {
                    Some(token) => token,
                    None => {
                        return Err(ProtocolError::Crypto);
                    },
                };
                if token_matches(deciphered_verify_token.as_slice(), &verify_token) {
                    self.login_state = Some(LoginState::Verified);
                    let encrypted_secret = from_bytes(&packet.shared_secret);
                    let shared_secret = match rsa_decrypt(
                        server.private_key.as_slice(),
                        encrypted_secret.as_slice(),
                    ) {
                        Some(secret) => secret,
                        None => {
                            return Err(ProtocolError::Crypto);
                        },
                    };
                    let public_key = match public_key_der(server.private_key.as_slice()) {
                        Some(der) => der,
                        None => {
                            return Err(ProtocolError::Crypto);
                        },
                    };
                    let server_id = server_id_hash(shared_secret.as_slice(), public_key.as_slice());
                    let username = match &self.player_info {
                        Some(player) => player.name.clone(),
                        None => std::string::String::new(),
                    };
                    let key = shared_secret.clone();
                    Ok(ClientAction::Authenticate { key, iv: shared_secret, username, server_id })
                } else {
                    let reason = types::String(text_component("Unable to verify token"));
                    Ok(
                        ClientAction::Send(
                            PacketRegistry::Login(
                                LoginPacket::DisconnectClient(DisconnectClient { reason }),
                            ),
                        ),
                    )
                }
            },
            LoginPacket::LoginPluginResponse(_) => Ok(ClientAction::Nothing),
            LoginPacket::LoginAcknowledged(_) => {
                self.protocol_state = ProtocolState::Configuration;
                Ok(ClientAction::Nothing)
            },
            LoginPacket::CookieResponse(_) => Ok(ClientAction::Nothing),
            _ => Err(ProtocolError::InvalidPacketReceived),
        }
    }

    /// Packets of the configuration state are accepted and change nothing.
    pub fn handle_configuration_packet(&mut self, packet: ConfigurationPacket) -> (res: Result<
        (),
        ProtocolError,
    >)
        ensures
            res is Ok,
            *final(self) == *old(self),
    {
        Ok(())
    }
}

/// Wraps each byte.
pub fn to_bytes(data: &[u8]) -> (res: PrefixedArray<Byte>)
    ensures
        res@ == data@,
{
    let mut out: Vec<Byte> = Vec::new();
    let mut i: usize = 0;
    while i < data.len()
        invariant
            i <= data@.len(),
            out@.map_values(|b: Byte| b@) =~= data@.take(i as int),
        decreases data.len() - i,
    {
        let ghost prev = out@.map_values(|b: Byte| b@);
        out.push(Byte(data[i]));
        assert(out@.map_values(|b: Byte| b@) =~= prev.push(data@[i as int]));
        assert(data@.take(i + 1) =~= data@.take(i as int).push(data@[i as int]));
        i = i + 1;
    }
    assert(data@.take(i as int) =~= data@);
    PrefixedArray(out)
}

/// The bytes that a sequence of `Byte` holds.
pub fn from_bytes(data: &PrefixedArray<Byte>) -> (res: Vec<u8>)
    ensures
        res@ == data@,
{
    let mut out: Vec<u8> = Vec::new();
    let mut i: usize = 0;
    while i < data.0.len()
        invariant
            i <= data.0@.len(),
            out@ =~= data@.take(i as int),
        decreases data.0.len() - i,
    {
        out.push(data.0[i].0);
        assert(data@.take(i + 1) =~= data@.take(i as int).push(data@[i as int]));
        i = i + 1;
    }
    assert(data@.take(i as int) =~= data@);
    out
}

/// The encryption request for a login: no server id, the public key, the verify
/// token, and authentication required.
pub fn encryption_request(public_key: &[u8], verify_token: [u8; 4]) -> (res: EncryptionRequest)
    ensures
        res.server_id@ == Seq::<char>::empty(),
        res.public_key@ == public_key@,
        res.verify_token@ == verify_token@,
        res.should_authenticate@ == true,
{
    EncryptionRequest {
        server_id: types::String(std::string::String::new()),
        public_key: to_bytes(public_key),
        verify_token: to_bytes(verify_token.as_slice()),
        should_authenticate: Boolean(true),
    }
}

/// The profile properties as the login success carries them.
pub open spec fn properties_view(properties: Seq<MojangProfileProperty>) -> Seq<
    (Seq<char>, Seq<char>, Option<Seq<char>>),
> {
    properties.map_values(
        |p: MojangProfileProperty| (p.name@, p.value@, Some(p.signature@)),
    )
}

/// The login success carries, for each property the session server gave and in
/// the same order, that property's name, its value and its signature.
pub proof fn law_properties_carried(properties: Seq<MojangProfileProperty>)
    ensures
        properties_view(properties).len() == properties.len(),
        forall|i: int|
            0 <= i < properties.len() ==> {
                &&& (#[trigger] properties_view(properties)[i]).0 == properties[i].name@
                &&& properties_view(properties)[i].1 == properties[i].value@
                &&& properties_view(properties)[i].2 == Some(properties[i].signature@)
            },
{
}

/// The login success for the profile that the session server confirmed.
pub fn login_success(result: &MojangAuthenticateResult) -> (res: LoginSuccess)
    ensures
        res.profile.uuid@ == result.id@,
        res.profile.username@ == result.name@,
        res.profile.properties@ == properties_view(result.properties@),
        res.profile.properties@.len() == result.properties@.len(),
        forall|i: int|
            0 <= i < result.properties@.len() ==> #[trigger] res.profile.properties@[i] == (
                result.properties@[i].name@,
                result.properties@[i].value@,
                Some(result.properties@[i].signature@),
            ),
{
    let mut properties: Vec<Property> = Vec::new();
    let mut i: usize = 0;
    while i < result.properties.len()
        invariant
            i <= result.properties@.len(),
            properties@.map_values(|p: Property| p@) =~= properties_view(
                result.properties@.take(i as int),
            ),
        decreases result.properties.len() - i,
    {
        let ghost prev = properties@.map_values(|p: Property| p@);
        let property = Property::from(&result.properties[i]);
        properties.push(property);
        assert(properties@.map_values(|p: Property| p@) =~= prev.push(property@));
        assert(result.properties@.take(i + 1) =~= result.properties@.take(i as int).push(
            result.properties@[i as int],
        ));
        i = i + 1;
    }
    assert(result.properties@.take(i as int) =~= result.properties@);
    proof {
        law_properties_carried(result.properties@);
    }
    LoginSuccess {
        profile: GameProfile {
            uuid: types::Uuid(result.id),
            username: types::String(result.name.clone()),
            properties: PrefixedArray(properties),
        },
    }
}

} // verus!
