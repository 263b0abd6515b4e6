use rsa::pkcs8::{EncodePrivateKey, EncodePublicKey};
use rsa::{Pkcs1v15Encrypt, RsaPrivateKey};
use rusty_mine::config::Config;
use rusty_mine::protocol::error::ProtocolError;
use rusty_mine::protocol::login::{MojangAuthenticateResult, MojangProfileProperty};
use rusty_mine::protocol::packets::handshaking::Handshake;
use rusty_mine::protocol::packets::login::{EncryptionResponse, LoginAcknowledged, LoginStart};
use rusty_mine::protocol::packets::status::{PingRequest, StatusRequest};
use rusty_mine::protocol::packets::{HandshakingPacket, LoginPacket, Packet, PacketRegistry, StatusPacket};
use rusty_mine::protocol::types::{Byte, PrefixedArray, Reader, String, UnsignedShort, Uuid, VarInt};
use rusty_mine::protocol::ProtocolState;
use rusty_mine::server::auth::{server_id_hash, token_matches};
use rusty_mine::server::{encryption_request, login_success, Client, ClientAction, ServerState};

fn key() -> RsaPrivateKey {
    let mut rng = rsa::rand_core::OsRng;
    RsaPrivateKey::new(&mut rng, 1024).unwrap()
}

fn der_of(key: &RsaPrivateKey) -> Vec<u8> {
    key.to_pkcs8_der().unwrap().as_bytes().to_vec()
}

fn handshake(version: i32, intent: i32) -> HandshakingPacket {
    HandshakingPacket::Handshake(Handshake {
        protocol_version: VarInt(version),
        server_address: String("localhost".to_string()),
        server_port: UnsignedShort(25565),
        intent: VarInt(intent),
    })
}

fn bytes_of(array: &PrefixedArray<Byte>) -> Vec<u8> {
    array.0.iter().map(|b| b.0).collect()
}

fn login_start(name: &str) -> LoginPacket {
    LoginPacket::LoginStart(LoginStart { name: String(name.to_string()), uuid: Uuid([1; 16]) })
}

#[test]
fn config_defaults() {
    let config = Config::default();
    assert_eq!(config.server_port, 25565);
    assert_eq!(config.max_players, 20);
    assert_eq!(config.motd, "A Minecraft Server");
    assert_eq!(Config::default_server_port(), 25565);
    assert_eq!(Config::default_max_players(), 20);
    assert_eq!(Config::default_motd(), "A Minecraft Server");
}

#[test]
fn server_state_counts_connections() {
    let mut state = ServerState::new(Config::default(), der_of(&key()));
    assert_eq!(state.online(), 0);
    state.client_connected();
    state.client_connected();
    state.client_disconnected();
    assert_eq!(state.online(), 1);
    assert_eq!(state.config().max_players, 20);
}

#[test]
fn handshake_moves_to_the_requested_state() {
    let state = ServerState::new(Config::default(), der_of(&key()));
    let mut client = Client::new();
    assert!(matches!(client.protocol_state(), ProtocolState::Handshaking));
    client.handle_handshaking_packet(handshake(773, 1), &state).unwrap();
    assert!(matches!(client.protocol_state(), ProtocolState::Status));
    let mut client = Client::new();
    client.handle_handshaking_packet(handshake(773, 2), &state).unwrap();
    assert!(matches!(client.protocol_state(), ProtocolState::Login));
}

#[test]
fn handshake_errors() {
    let state = ServerState::new(Config::default(), der_of(&key()));
    let mut client = Client::new();
    assert!(matches!(
        client.handle_handshaking_packet(handshake(772, 1), &state),
        Err(ProtocolError::UnmatchedProtocolVersion)
    ));
    assert!(matches!(client.protocol_state(), ProtocolState::Handshaking));
    assert!(matches!(
        client.handle_handshaking_packet(handshake(773, 3), &state),
        Err(ProtocolError::UnknownIntent)
    ));
    assert!(matches!(client.protocol_state(), ProtocolState::Handshaking));
}

#[test]
fn status_request_gets_the_server_status() {
    let mut config = Config::default();
    config.max_players = 7;
    config.motd = "hello".to_string();
    let state = ServerState::new(config, der_of(&key()));
    let mut client = Client::new();
    match client.handle_status_packet(StatusPacket::StatusRequest(StatusRequest {}), &state).unwrap() {
        ClientAction::SendStatus(status) => {
            assert_eq!(status.version.name, "1.21.10");
            assert_eq!(status.version.protocol, 773);
            assert_eq!(status.players.max, 7);
            assert_eq!(status.players.online, 0);
            assert_eq!(status.description.text, "hello");
        }
        other => panic!("unexpected {:?}", other),
    }
}

#[test]
fn ping_is_answered_with_the_same_timestamp() {
    let state = ServerState::new(Config::default(), der_of(&key()));
    let mut client = Client::new();
    let bytes = [0, 0, 0, 0, 0, 0, 0x30, 0x39];
    let mut reader = Reader::new(&bytes);
    let ping = <PingRequest as Packet>::read(&mut reader).unwrap();
    match client.handle_status_packet(StatusPacket::PingRequest(ping), &state).unwrap() {
        ClientAction::Send(packet) => {
            assert_eq!(rusty_mine::protocol::encode_packet(&packet).unwrap(), vec![0x01, 0, 0, 0, 0, 0, 0, 0x30, 0x39]);
        }
        other => panic!("unexpected {:?}", other),
    }
    let stray = StatusPacket::StatusResponse(rusty_mine::protocol::packets::status::StatusResponse {
        response: String("x".to_string()),
    });
    assert!(matches!(
        client.handle_status_packet(stray, &state),
        Err(ProtocolError::InvalidPacketReceived)
    ));
}

#[test]
fn login_start_sends_an_encryption_request() {
    let private_key = key();
    let der = private_key.to_public_key().to_public_key_der().unwrap().to_vec();
    let state = ServerState::new(Config::default(), der_of(&private_key));
    let mut client = Client::new();
    match client.handle_login_packet(login_start("Steve"), &state).unwrap() {
        ClientAction::Send(PacketRegistry::Login(LoginPacket::EncryptionRequest(request))) => {
            assert_eq!(request.server_id.0, "");
            assert_eq!(bytes_of(&request.public_key), der);
            assert_eq!(request.verify_token.0.len(), 4);
            assert!(request.should_authenticate.0);
        }
        other => panic!("unexpected {:?}", other),
    }
    match client.handle_login_packet(login_start("Steve"), &state).unwrap() {
        ClientAction::SendThenFail(PacketRegistry::Login(LoginPacket::DisconnectClient(d)), e) => {
            assert_eq!(d.reason.0, r#"{"text": "Invalid Login Sequence"}"#);
            assert!(matches!(e, ProtocolError::InvalidLoginSequence));
        }
        other => panic!("unexpected {:?}", other),
    }
}

#[test]
fn encryption_response_with_the_right_token_leads_to_authentication() {
    let private_key = key();
    let public_key = private_key.to_public_key();
    let der = public_key.to_public_key_der().unwrap().to_vec();
    let state = ServerState::new(Config::default(), der_of(&private_key));
    let mut client = Client::new();
    let token = match client.handle_login_packet(login_start("Steve"), &state).unwrap() {
        ClientAction::Send(PacketRegistry::Login(LoginPacket::EncryptionRequest(request))) => bytes_of(&request.verify_token),
        other => panic!("unexpected {:?}", other),
    };
    let mut rng = rsa::rand_core::OsRng;
    let secret = [3u8; 16];
    let response = EncryptionResponse {
        shared_secret: PrefixedArray(public_key.encrypt(&mut rng, Pkcs1v15Encrypt, &secret).unwrap().into_iter().map(Byte).collect()),
        verify_token: PrefixedArray(public_key.encrypt(&mut rng, Pkcs1v15Encrypt, &token).unwrap().into_iter().map(Byte).collect()),
    };
    match client.handle_login_packet(LoginPacket::EncryptionResponse(response), &state).unwrap() {
        ClientAction::Authenticate { key, iv, username, server_id } => {
            assert_eq!(key, secret.to_vec());
            assert_eq!(iv, secret.to_vec());
            assert_eq!(username, "Steve");
            assert_eq!(server_id, server_id_hash(&secret, &der));
        }
        other => panic!("unexpected {:?}", other),
    }
    assert!(matches!(
        client.handle_login_packet(LoginPacket::LoginAcknowledged(LoginAcknowledged {}), &state),
        Ok(ClientAction::Nothing)
    ));
    assert!(matches!(client.protocol_state(), ProtocolState::Configuration));
}

#[test]
fn encryption_response_with_a_wrong_token_is_refused() {
    let private_key = key();
    let public_key = private_key.to_public_key();
    let state = ServerState::new(Config::default(), der_of(&private_key));
    let mut client = Client::new();
    client.handle_login_packet(login_start("Alex"), &state).unwrap();
    let mut rng = rsa::rand_core::OsRng;
    let response = EncryptionResponse {
        shared_secret: PrefixedArray(vec![]),
        verify_token: PrefixedArray(public_key.encrypt(&mut rng, Pkcs1v15Encrypt, &[9, 9, 9, 9, 9]).unwrap().into_iter().map(Byte).collect()),
    };
    match client.handle_login_packet(LoginPacket::EncryptionResponse(response), &state).unwrap() {
        ClientAction::Send(PacketRegistry::Login(LoginPacket::DisconnectClient(d))) => {
            assert_eq!(d.reason.0, r#"{"text":"Unable to verify token"}"#);
        }
        other => panic!("unexpected {:?}", other),
    }
}

#[test]
fn encryption_response_before_login_start_is_out_of_sequence() {
    let state = ServerState::new(Config::default(), der_of(&key()));
    let mut client = Client::new();
    let response = EncryptionResponse { shared_secret: PrefixedArray(vec![]), verify_token: PrefixedArray(vec![]) };
    assert!(matches!(
        client.handle_login_packet(LoginPacket::EncryptionResponse(response), &state),
        Err(ProtocolError::InvalidLoginSequence)
    ));
}

#[test]
fn undecryptable_token_is_a_crypto_error() {
    let state = ServerState::new(Config::default(), der_of(&key()));
    let mut client = Client::new();
    client.handle_login_packet(login_start("Alex"), &state).unwrap();
    let response = EncryptionResponse {
        shared_secret: PrefixedArray(vec![]),
        verify_token: PrefixedArray(vec![Byte(1), Byte(2)]),
    };
    assert!(matches!(
        client.handle_login_packet(LoginPacket::EncryptionResponse(response), &state),
        Err(ProtocolError::Crypto)
    ));
}

#[test]
fn server_hash_matches_known_digests() {
    assert_eq!(server_id_hash(b"Notch", b""), "4ed1f46bbe04bc756bcb17c0c7ce3e4632f06a48");
    assert_eq!(server_id_hash(b"jeb_", b""), "-7c9d5b0044c130109a5d7b5fb5c317c02b4e28c1");
    assert_eq!(server_id_hash(b"sim", b"on"), "88e16a1019277b15d58faf0541e11910eb756f6");
}

#[test]
fn token_comparison_and_bytes() {
    assert!(token_matches(&[1, 2, 3, 4], &[1, 2, 3, 4]));
    assert!(!token_matches(&[1, 2, 3], &[1, 2, 3, 4]));
    assert!(!token_matches(&[1, 2, 3, 5], &[1, 2, 3, 4]));
    let request = encryption_request(&[5, 6], [1, 2, 3, 4]);
    assert_eq!(bytes_of(&request.public_key), vec![5, 6]);
    assert_eq!(bytes_of(&request.verify_token), vec![1, 2, 3, 4]);
}

#[test]
fn login_success_carries_the_confirmed_profile() {
    let result = MojangAuthenticateResult {
        id: [2; 16],
        name: "Steve".to_string(),
        properties: vec![MojangProfileProperty {
            name: "textures".to_string(),
            value: "v".to_string(),
            signature: "s".to_string(),
        }],
    };
    let success = login_success(&result);
    assert_eq!(success.profile.uuid.0, [2; 16]);
    assert_eq!(success.profile.username.0, "Steve");
    assert_eq!(success.profile.properties.0.len(), 1);
    assert_eq!(success.profile.properties.0[0].name.0, "textures");
    assert_eq!(success.profile.properties.0[0].signature.0.as_ref().unwrap().0, "s");
}

#[test]
fn stray_login_packets() {
    let state = ServerState::new(Config::default(), der_of(&key()));
    let mut client = Client::new();
    let stray = LoginPacket::SetCompression(rusty_mine::protocol::packets::login::SetCompression { threshold: VarInt(1) });
    assert!(matches!(
        client.handle_login_packet(stray, &state),
        Err(ProtocolError::InvalidPacketReceived)
    ));
}

#[test]
fn a_key_that_does_not_decode_is_a_crypto_error() {
    let state = ServerState::new(Config::default(), vec![1, 2, 3]);
    let mut client = Client::new();
    assert!(matches!(
        client.handle_login_packet(login_start("Steve"), &state),
        Err(ProtocolError::Crypto)
    ));
    // The login has started all the same: a second start is out of sequence.
    assert!(matches!(
        client.handle_login_packet(login_start("Steve"), &state),
        Ok(ClientAction::SendThenFail(_, ProtocolError::InvalidLoginSequence))
    ));
}

#[test]
fn wrong_token_leaves_the_login_waiting() {
    let private_key = key();
    let public_key = private_key.to_public_key();
    let state = ServerState::new(Config::default(), der_of(&private_key));
    let mut client = Client::new();
    let token = match client.handle_login_packet(login_start("Alex"), &state).unwrap() {
        ClientAction::Send(PacketRegistry::Login(LoginPacket::EncryptionRequest(request))) => bytes_of(&request.verify_token),
        other => panic!("unexpected {:?}", other),
    };
    let mut rng = rsa::rand_core::OsRng;
    let mut wrong = token.clone();
    wrong[0] ^= 0xff;
    let response = EncryptionResponse {
        shared_secret: PrefixedArray(vec![]),
        verify_token: PrefixedArray(public_key.encrypt(&mut rng, Pkcs1v15Encrypt, &wrong).unwrap().into_iter().map(Byte).collect()),
    };
    assert!(matches!(
        client.handle_login_packet(LoginPacket::EncryptionResponse(response), &state),
        Ok(ClientAction::Send(PacketRegistry::Login(LoginPacket::DisconnectClient(_))))
    ));
    // The right token still logs in afterwards.
    let secret = [4u8; 16];
    let response = EncryptionResponse {
        shared_secret: PrefixedArray(public_key.encrypt(&mut rng, Pkcs1v15Encrypt, &secret).unwrap().into_iter().map(Byte).collect()),
        verify_token: PrefixedArray(public_key.encrypt(&mut rng, Pkcs1v15Encrypt, &token).unwrap().into_iter().map(Byte).collect()),
    };
    assert!(matches!(
        client.handle_login_packet(LoginPacket::EncryptionResponse(response), &state),
        Ok(ClientAction::Authenticate { .. })
    ));
}

#[test]
fn handle_packet_dispatches_by_state() {
    let state = ServerState::new(Config::default(), der_of(&key()));
    let mut client = Client::new();
    assert!(matches!(
        client.handle_packet(PacketRegistry::Handshaking(handshake(773, 1)), &state),
        Ok(ClientAction::Nothing)
    ));
    assert!(matches!(client.protocol_state(), ProtocolState::Status));
    assert!(matches!(
        client.handle_packet(PacketRegistry::Status(StatusPacket::StatusRequest(StatusRequest {})), &state),
        Ok(ClientAction::SendStatus(_))
    ));
    assert!(matches!(
        client.handle_packet(PacketRegistry::Handshaking(handshake(1, 1)), &state),
        Err(ProtocolError::UnmatchedProtocolVersion)
    ));
    let mut client = Client::new();
    client.handle_packet(PacketRegistry::Handshaking(handshake(773, 2)), &state).unwrap();
    assert!(matches!(
        client.handle_packet(PacketRegistry::Login(login_start("Steve")), &state),
        Ok(ClientAction::Send(PacketRegistry::Login(LoginPacket::EncryptionRequest(_))))
    ));
}

#[test]
fn a_connection_counted_in_and_out_leaves_the_count() {
    let mut state = ServerState::new(Config::default(), vec![7, 8]);
    state.client_connected();
    let before = state.online();
    state.client_connected();
    state.client_disconnected();
    assert_eq!(state.online(), before);
    assert_eq!(state.config().motd, "A Minecraft Server");
}

#[test]
fn text_component_escapes_control_characters() {
    assert_eq!(
        rusty_mine::protocol::packets::configuration::Disconnect::text("a\u{0}b".to_string()).reason.0,
        "{\"text\":\"a\\u0000b\"}"
    );
}
