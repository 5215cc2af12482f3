use std::path::PathBuf;

use rrp::cli::{add, find_server, Cli, Commands, Protocol};
use rrp::config::{default_ip, default_port, CliArgs, Config, ConfigFile, IpAddress};
use rrp::servers::{Server, ServerList, DEFAULT_CERTIFICATE_HOSTNAME};
use rrp::token::{hash_token, METADATA_KEY, TOKEN_SIZE};

fn server(url: &str, token: &str) -> Server {
    Server::new(url.to_string(), "localhost".to_string(), b"PEM".to_vec(), token.to_string())
}

#[test]
fn header_name_and_token_size_are_as_documented() {
    assert_eq!(METADATA_KEY, "authorization");
    assert_eq!(TOKEN_SIZE, 64);
    assert_eq!(DEFAULT_CERTIFICATE_HOSTNAME, "localhost");
}

#[test]
fn server_keeps_what_it_was_made_of() {
    let s = Server::new("https://example.org:3600".to_string(), "example.org".to_string(), vec![1, 2, 3], "00ff".to_string());
    assert_eq!(s.url(), "https://example.org:3600");
    assert_eq!(s.certificate_hostname(), "example.org");
    assert_eq!(s.certificate(), &[1, 2, 3]);
    assert_eq!(s.token(), "00ff");
}

#[test]
fn hashed_token_is_the_hash_of_the_token() {
    let s = server("u", "616263");
    assert_eq!(s.hashed_token(), hash_token("616263"));
    assert_eq!(
        s.hashed_token().unwrap(),
        "ddaf35a193617abacc417349ae20413112e6fa4e89a97ea20a9eeee64b55d39a2192992a274fc1a836ba3c23a3feebbd454d4423643ce80e2a9ac94fa54ca49f"
    );
}

#[test]
fn hashed_token_of_a_malformed_token_fails() {
    assert!(server("u", "not hex").hashed_token().is_err());
}

#[test]
fn empty_list_has_no_server() {
    let servers = ServerList::new();
    assert!(servers.get_server("home").is_none());
    assert!(servers.entries().is_empty());
}

#[test]
fn added_server_is_found_with_a_fresh_token() {
    let mut servers = ServerList::new();
    servers.add_server("home".to_string(), "https://a:3600".to_string(), b"PEM".to_vec(), Some("a.example".to_string()));
    let s = servers.get_server("home").unwrap();
    assert_eq!(s.url(), "https://a:3600");
    assert_eq!(s.certificate(), b"PEM");
    assert_eq!(s.certificate_hostname(), "a.example");
    assert_eq!(s.token().len(), 128);
    assert!(s.token().chars().all(|c| c.is_ascii_digit() || ('a'..='f').contains(&c)));
    assert!(s.hashed_token().is_ok());
    assert!(servers.get_server("work").is_none());
}

#[test]
fn added_server_without_a_hostname_gets_the_default() {
    let mut servers = ServerList::new();
    servers.add_server("home".to_string(), "https://a:3600".to_string(), Vec::new(), None);
    assert_eq!(servers.get_server("home").unwrap().certificate_hostname(), DEFAULT_CERTIFICATE_HOSTNAME);
}

#[test]
fn adding_an_identifier_again_replaces_the_server() {
    let mut servers = ServerList::new();
    servers.add_server("home".to_string(), "https://a:3600".to_string(), Vec::new(), None);
    servers.add_server("work".to_string(), "https://w:3600".to_string(), Vec::new(), None);
    let first = servers.get_server("home").unwrap().token().to_string();
    servers.add_server("home".to_string(), "https://b:3600".to_string(), Vec::new(), None);
    assert_eq!(servers.entries().len(), 2);
    assert_eq!(servers.get_server("home").unwrap().url(), "https://b:3600");
    assert_ne!(servers.get_server("home").unwrap().token(), first);
    assert_eq!(servers.get_server("work").unwrap().url(), "https://w:3600");
}

#[test]
fn inserted_server_stands_for_its_identifier() {
    let mut servers = ServerList::new();
    servers.insert_server("a".to_string(), server("u1", "00"));
    servers.insert_server("b".to_string(), server("u2", "01"));
    servers.insert_server("a".to_string(), server("u3", "02"));
    assert_eq!(servers.get_server("a"), Some(&server("u3", "02")));
    assert_eq!(servers.get_server("b"), Some(&server("u2", "01")));
    assert_eq!(servers.get_server("c"), None);
    assert_eq!(servers.get_server(""), None);
}

#[test]
fn list_from_entries_keeps_the_later_of_two() {
    let servers = ServerList::from_entries(vec![
        ("a".to_string(), server("u1", "00")),
        ("b".to_string(), server("u2", "01")),
        ("a".to_string(), server("u3", "02")),
    ]);
    assert_eq!(servers.entries().len(), 2);
    assert_eq!(servers.get_server("a"), Some(&server("u3", "02")));
    assert_eq!(servers.get_server("b"), Some(&server("u2", "01")));
    let empty = ServerList::from_entries(Vec::new());
    assert!(empty.entries().is_empty());
}

#[test]
fn entries_round_trip() {
    let mut servers = ServerList::new();
    servers.insert_server("a".to_string(), server("u1", "00"));
    servers.insert_server("b".to_string(), server("u2", "01"));
    let again = ServerList::from_entries(servers.entries().clone());
    assert_eq!(again.get_server("a"), servers.get_server("a"));
    assert_eq!(again.get_server("b"), servers.get_server("b"));
}

#[test]
fn add_says_what_was_added_and_the_hash_of_its_token() {
    let mut servers = ServerList::new();
    let message = add(&mut servers, "home".to_string(), "https://a:3600".to_string(), b"PEM".to_vec(), None);
    let hash = servers.get_server("home").unwrap().hashed_token().unwrap();
    assert_eq!(
        message,
        format!("\"home\" was added successfully. \n\nThe generated hashed client token is:\n\"{}\"\n", hash)
    );
    assert_eq!(hash.len(), 128);
}

#[test]
fn expose_through_an_unknown_server_fails() {
    let mut servers = ServerList::new();
    servers.insert_server("home".to_string(), server("u", "00"));
    assert_eq!(
        find_server(&servers, "work"),
        Err("can not find a server with \"work\" as identifier".to_string())
    );
    assert_eq!(find_server(&servers, "home"), Ok(&server("u", "00")));
}

#[test]
fn command_line_holds_both_commands() {
    let add = Cli {
        command: Commands::Add {
            identifier: "home".to_string(),
            url: "https://a:3600".to_string(),
            certificate: PathBuf::from("server.pem"),
            certificate_hostname: None,
        },
    };
    assert!(matches!(add.command, Commands::Add { .. }));
    let expose = Cli {
        command: Commands::Expose { server: "home".to_string(), protocol: Protocol::Tcp, local: 9000, external: Some(18080) },
    };
    match expose.command {
        Commands::Expose { server, protocol, local, external } => {
            assert_eq!(server, "home");
            assert_eq!(protocol, Protocol::Tcp);
            assert_eq!(local, 9000);
            assert_eq!(external, Some(18080));
        }
        _ => panic!("not the expose command"),
    }
}

#[test]
fn defaults_are_every_interface_and_port_3600() {
    assert_eq!(default_ip(), IpAddress::V4(0));
    assert_eq!(default_port(), 3600);
    assert_eq!(ConfigFile::default(), ConfigFile { ip: IpAddress::V4(0), port: 3600 });
}

#[test]
fn file_fields_left_out_take_their_defaults() {
    assert_eq!(ConfigFile::new(None, None), ConfigFile::default());
    assert_eq!(ConfigFile::new(None, Some(4000)), ConfigFile { ip: IpAddress::V4(0), port: 4000 });
    assert_eq!(
        ConfigFile::new(Some(IpAddress::V4(0x7f000001)), None),
        ConfigFile { ip: IpAddress::V4(0x7f000001), port: 3600 }
    );
}

#[test]
fn command_line_wins_over_the_file() {
    let file = ConfigFile { ip: IpAddress::V4(0x7f000001), port: 4000 };
    assert_eq!(
        Config::parse(CliArgs { ip: None, port: None }, Some(file)),
        Config { ip: IpAddress::V4(0x7f000001), port: 4000 }
    );
    assert_eq!(
        Config::parse(CliArgs { ip: Some(IpAddress::V6(1)), port: None }, Some(file)),
        Config { ip: IpAddress::V6(1), port: 4000 }
    );
    assert_eq!(
        Config::parse(CliArgs { ip: None, port: Some(5000) }, Some(file)),
        Config { ip: IpAddress::V4(0x7f000001), port: 5000 }
    );
}

#[test]
fn unreadable_file_counts_as_empty() {
    assert_eq!(
        Config::parse(CliArgs { ip: None, port: None }, None),
        Config { ip: IpAddress::V4(0), port: 3600 }
    );
    assert_eq!(
        Config::parse(CliArgs { ip: None, port: Some(1) }, None),
        Config { ip: IpAddress::V4(0), port: 1 }
    );
}
