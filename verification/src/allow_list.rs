//! The clients that a server accepts, and the check that guards every call.
//!
//! A server knows its clients by the hash of their token. The list is built
//! once, when the server starts, and only read after that.

use vstd::prelude::*;
use vstd::string::*;
use dashmap::DashMap;
use crate::status::{Code, Status, StatusView};
use crate::token::{hash_token, hashed, token_hash};

verus! {

/// A client that the server accepts.
#[derive(Debug, Clone, PartialEq, Eq)]
pub struct Client {
    identifier: String,
    hashed_token: String,
}

pub struct ClientView {
    /// The name that the operator gave the client.
    pub identifier: Seq<char>,
    /// The hash of the client's token.
    pub hashed_token: Seq<char>,
}

impl View for Client {
    type V = ClientView;

    closed spec fn view(&self) -> ClientView {
        ClientView { identifier: self.identifier@, hashed_token: self.hashed_token@ }
    }
}

impl Client {
    pub fn new(identifier: String, hashed_token: String) -> (client: Client)
        ensures
            client@ == (ClientView { identifier: identifier@, hashed_token: hashed_token@ }),
    {
        Client { identifier, hashed_token }
    }

    /// The name that the operator gave the client.
    pub fn identifier(&self) -> (identifier: &str)
        ensures
            identifier@ == self@.identifier,
    {
        self.identifier.as_str()
    }

    /// The hash of the client's token.
    pub fn hashed_token(&self) -> (hashed_token: &str)
        ensures
            hashed_token@ == self@.hashed_token,
    {
        self.hashed_token.as_str()
    }
}

/// What a map of clients holds: for each token hash that has an entry, the
/// client stored under it.
pub uninterp spec fn allowed(clients: DashMap<String, Client>) -> Map<Seq<char>, ClientView>;

/// No client is known.
pub open spec fn no_clients() -> Map<Seq<char>, ClientView> {
    Map::empty()
}

/// `DashMap::new`: a map without entries.
#[verifier::external_body]
fn clients_new() -> (clients: DashMap<String, Client>)
    ensures
        allowed(clients) == no_clients(),
{
    DashMap::new()
}

/// `DashMap::insert`: sets the entry of `hash`, in place of the one that the
/// hash had before, if it had one. No other entry changes.
#[verifier::external_body]
fn clients_insert(clients: &mut DashMap<String, Client>, hash: String, client: Client)
    ensures
        allowed(*final(clients)) == allowed(*old(clients)).insert(hash@, client@),
{
    clients.insert(hash, client);
}

/// `DashMap::get`: a copy of the client stored under `hash`, if the hash has
/// an entry.
#[verifier::external_body]
fn clients_get(clients: &DashMap<String, Client>, hash: &str) -> (found: Option<Client>)
    ensures
        found is Some <==> allowed(*clients).contains_key(hash@),
        found matches Some(client) ==> client@ == allowed(*clients)[hash@],
{
    clients.get(hash).map(|entry| entry.value().clone())
}

/// The views of a list of clients.
pub open spec fn client_views(clients: Seq<Client>) -> Seq<ClientView> {
    clients.map_values(|client: Client| client@)
}

/// The allow-list that a list of clients makes: each client under the hash
/// of its token. Where two clients share a hash, the later one stands.
pub open spec fn allow_list(clients: Seq<ClientView>) -> Map<Seq<char>, ClientView>
    decreases clients.len(),
{
    if clients.len() == 0 {
        Map::empty()
    } else {
        allow_list(clients.drop_last()).insert(clients.last().hashed_token, clients.last())
    }
}

/// The client that a token stands for in an allow-list, if it stands for one:
/// the entry under the hash of the token.
pub open spec fn recognized(list: Map<Seq<char>, ClientView>, token: Seq<char>) -> Option<ClientView> {
    match hashed(token) {
        Ok(hash) => if list.contains_key(hash) {
            Some(list[hash])
        } else {
            None
        },
        Err(_) => None,
    }
}

/// The text of the error for a call without a token that the server knows.
pub open spec fn unauthenticated_message() -> Seq<char> {
    "No valid auth token was provided"@
}

/// What the check gives for the `authorization` header of a call: the
/// client, or the error that rejects the call.
pub open spec fn authorized(list: Map<Seq<char>, ClientView>, header: Option<Seq<char>>) -> Result<ClientView, StatusView> {
    match header {
        Some(token) => match recognized(list, token) {
            Some(client) => Ok(client),
            None => Err(StatusView { code: Code::Unauthenticated, message: unauthenticated_message() }),
        },
        None => Err(StatusView { code: Code::Unauthenticated, message: unauthenticated_message() }),
    }
}

/// The clients that a server accepts, by the hash of their token.
pub struct Auth {
    client: DashMap<String, Client>,
}

impl View for Auth {
    type V = Map<Seq<char>, ClientView>;

    closed spec fn view(&self) -> Map<Seq<char>, ClientView> {
        allowed(self.client)
    }
}

impl Default for Auth {
    /// A server that accepts nobody.
    fn default() -> (auth: Auth)
        ensures
            auth@ == no_clients(),
    {
        Auth { client: clients_new() }
    }
}

impl Auth {
    /// Every client stands under the hash that it carries.
    #[verifier::type_invariant]
    spec fn keyed_by_hash(self) -> bool {
        forall|hash: Seq<char>| #[trigger] allowed(self.client).contains_key(hash) ==> allowed(self.client)[hash].hashed_token == hash
    }

    /// The allow-list of the given clients, in their order.
    pub fn new(clients: &Vec<Client>) -> (auth: Auth)
        ensures
            auth@ == allow_list(client_views(clients@)),
    {
        let mut map = clients_new();
        let mut i: usize = 0;
        assert(client_views(clients@).take(0) =~= Seq::empty());
        while i < clients.len()
            invariant
                i <= clients.len(),
                allowed(map) == allow_list(client_views(clients@).take(i as int)),
                forall|hash: Seq<char>| #[trigger] allowed(map).contains_key(hash) ==> allowed(map)[hash].hashed_token == hash,
            decreases clients.len() - i,
        {
            let client = &clients[i];
            let entry = Client {
                identifier: client.identifier.clone(),
                hashed_token: client.hashed_token.clone(),
            };
            let hash = client.hashed_token.clone();
            proof {
                let views = client_views(clients@);
                assert(views.take(i + 1).drop_last() =~= views.take(i as int));
                assert(views.take(i + 1).last() == clients@[i as int]@);
            }
            clients_insert(&mut map, hash, entry);
            i += 1;
        }
        assert(client_views(clients@).take(i as int) =~= client_views(clients@));
        Auth { client: map }
    }

    /// Finds the client that a hex-encoded token belongs to: the entry under
    /// the hash of the token.
    pub fn by_token(&self, token: &str) -> (r: Option<Client>)
        ensures
            (match r {
                Some(client) => Some(client@),
                None => None,
            }) == recognized(self@, token@),
            r matches Some(client) ==> client@.hashed_token == token_hash(token@),
    {
        proof {
            use_type_invariant(self);
        }
        match hash_token(token) {
            Ok(hash) => clients_get(&self.client, hash.as_str()),
            Err(_) => None,
        }
    }
}

/// Checks the `authorization` header of a call. A call passes with the
/// client that its token belongs to; a call without the header, or with a
/// token that the server does not know, is rejected as unauthenticated.
pub fn authorize(auth: &Auth, header: Option<&str>) -> (r: Result<Client, Status>)
    ensures
        (match r {
            Ok(client) => Ok(client@),
            Err(status) => Err(status@),
        }) == authorized(auth@, match header {
            Some(token) => Some(token@),
            None => None,
        }),
{
    let client = match header {
        Some(token) => auth.by_token(token),
        None => None,
    };
    match client {
        Some(client) => Ok(client),
        None => Err(Status::unauthenticated(String::from_str("No valid auth token was provided"))),
    }
}

/// A call is let through only with a header whose token decodes and whose
/// hash is in the list; every other call is rejected as unauthenticated,
/// with the same text.
pub proof fn lemma_authorized_only_by_hash(list: Map<Seq<char>, ClientView>, header: Option<Seq<char>>)
    ensures
        authorized(list, header) is Ok <==> (header matches Some(token) && hashed(token) matches Ok(hash)
            && list.contains_key(hash)),
        authorized(list, header) matches Err(status) ==> status == (StatusView {
            code: Code::Unauthenticated,
            message: unauthenticated_message(),
        }),
{
}

/// A server without clients rejects every call.
pub proof fn lemma_empty_list_rejects(header: Option<Seq<char>>)
    ensures
        authorized(no_clients(), header) is Err,
{
}

} // verus!
