//! The client's command line, and what its two commands say to the user.

use vstd::prelude::*;
use vstd::pervasive::unreached;
use vstd::string::*;
use std::path::PathBuf;
use crate::servers::{Server, ServerList, DEFAULT_CERTIFICATE_HOSTNAME};
use crate::token::{is_token, token_hash};

verus! {

/// `std::path::PathBuf`. A path is carried through and never read.
#[verifier::external_type_specification]
#[verifier::external_body]
pub struct ExPathBuf(PathBuf);

pub struct Cli {
    pub command: Commands,
}

pub enum Commands {
    /// Add a new server
    Add {
        /// A user-provided identifier that is used to identify this server
        /// with other commands. Using an existing identifier overwrites the
        /// existing server.
        identifier: String,
        /// The server address
        url: String,
        /// The path for the server tls certificate, in pem format
        certificate: PathBuf,
        /// The certificate hostname
        certificate_hostname: Option<String>,
    },
    /// Expose an internal port through the server
    Expose {
        /// The identifier of the server through which to expose the port
        server: String,
        /// The protocol
        protocol: Protocol,
        /// The local port to expose
        local: u16,
        /// The external port to use; without it the server picks a free one
        external: Option<u16>,
    },
}

#[derive(Debug, Clone, Copy, PartialEq, Eq, Structural)]
pub enum Protocol {
    Tcp,
}

/// What `add` prints for a server and the hash of its token.
pub open spec fn added_message(identifier: Seq<char>, hashed_token: Seq<char>) -> Seq<char> {
    "\""@ + identifier + "\" was added successfully. \n\nThe generated hashed client token is:\n\""@
        + hashed_token + "\"\n"@
}

/// The error of `expose` for an identifier that the list does not have.
pub open spec fn unknown_server_message(identifier: Seq<char>) -> Seq<char> {
    "can not find a server with \""@ + identifier + "\" as identifier"@
}

/// The `add` command: puts the server in the list with a fresh token, and
/// says what to print. The list is then to be saved.
pub fn add(servers: &mut ServerList, identifier: String, url: String, certificate: Vec<u8>, certificate_hostname: Option<String>) -> (message: String)
    ensures
        old(servers).wf() ==> final(servers).wf(),
        final(servers)@.contains_key(identifier@),
        final(servers)@ == old(servers)@.insert(identifier@, final(servers)@[identifier@]),
        final(servers)@[identifier@].url == url@,
        final(servers)@[identifier@].certificate == certificate@,
        final(servers)@[identifier@].certificate_hostname == match certificate_hostname {
            Some(name) => name@,
            None => DEFAULT_CERTIFICATE_HOSTNAME@,
        },
        is_token(final(servers)@[identifier@].token),
        message@ == added_message(identifier@, token_hash(final(servers)@[identifier@].token)),
{
    let mut message = String::from_str("\"");
    message.append(identifier.as_str());
    message.append("\" was added successfully. \n\nThe generated hashed client token is:\n\"");
    let name = identifier.clone();
    servers.add_server(identifier, url, certificate, certificate_hostname);
    let hash = match servers.get_server(name.as_str()) {
        Some(server) => match server.hashed_token() {
            Ok(hash) => hash,
            Err(_) => unreached(),
        },
        None => unreached(),
    };
    message.append(hash.as_str());
    message.append("\"\n");
    message
}

/// The `expose` command's first step: the server to go through, or the error
/// for an identifier that the list does not have.
pub fn find_server<'a>(servers: &'a ServerList, identifier: &str) -> (r: Result<&'a Server, String>)
    ensures
        r is Ok <==> servers@.contains_key(identifier@),
        r matches Ok(server) ==> server@ == servers@[identifier@],
        r matches Err(message) ==> message@ == unknown_server_message(identifier@),
{
    match servers.get_server(identifier) {
        Some(server) => Ok(server),
        None => {
            let mut message = String::from_str("can not find a server with \"");
            message.append(identifier);
            message.append("\" as identifier");
            Err(message)
        },
    }
}

} // verus!
