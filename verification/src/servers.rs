//! The servers that a client knows, each under an identifier of the user's
//! choice.

use vstd::prelude::*;
use vstd::string::*;
use crate::token::{generate_token, hash_token, hashed, is_token, Error, TokenHash};

verus! {

/// The host name that a server's certificate is checked against where the
/// user names none.
pub const DEFAULT_CERTIFICATE_HOSTNAME: &'static str = "localhost";

/// What a client keeps of one server.
#[derive(Debug, Clone, PartialEq, Eq)]
pub struct Server {
    url: String,
    certificate_hostname: String,
    certificate: Vec<u8>,
    token: String,
}

pub struct ServerView {
    /// Where the server is reached.
    pub url: Seq<char>,
    /// The host name that the server's certificate must be valid for.
    pub certificate_hostname: Seq<char>,
    /// The certificate authority to trust, in PEM.
    pub certificate: Seq<u8>,
    /// The token that the client presents, hex-encoded.
    pub token: Seq<char>,
}

impl View for Server {
    type V = ServerView;

    closed spec fn view(&self) -> ServerView {
        ServerView {
            url: self.url@,
            certificate_hostname: self.certificate_hostname@,
            certificate: self.certificate@,
            token: self.token@,
        }
    }
}

impl Server {
    pub fn new(url: String, certificate_hostname: String, certificate: Vec<u8>, token: String) -> (server: Server)
        ensures
            server@ == (ServerView {
                url: url@,
                certificate_hostname: certificate_hostname@,
                certificate: certificate@,
                token: token@,
            }),
    {
        Server { url, certificate_hostname, certificate, token }
    }

    /// Where the server is reached.
    pub fn url(&self) -> (url: &str)
        ensures
            url@ == self@.url,
    {
        self.url.as_str()
    }

    /// The host name that the server's certificate must be valid for.
    pub fn certificate_hostname(&self) -> (name: &str)
        ensures
            name@ == self@.certificate_hostname,
    {
        self.certificate_hostname.as_str()
    }

    /// The certificate authority to trust, in PEM.
    pub fn certificate(&self) -> (pem: &[u8])
        ensures
            pem@ == self@.certificate,
    {
        self.certificate.as_slice()
    }

    /// The token that the client presents, hex-encoded.
    pub fn token(&self) -> (token: &str)
        ensures
            token@ == self@.token,
    {
        self.token.as_str()
    }

    /// The hash of the token, which the server's operator adds to the
    /// allow-list.
    pub fn hashed_token(&self) -> (r: Result<TokenHash, Error>)
        ensures
            (match r {
                Ok(hash) => Ok(hash@),
                Err(e) => Err(e),
            }) == hashed(self@.token),
    {
        hash_token(self.token.as_str())
    }
}

/// No two entries have the same identifier.
pub open spec fn distinct(entries: Seq<(String, Server)>) -> bool {
    forall|i: int, j: int| 0 <= i < j < entries.len() ==> (#[trigger] entries[i]).0@ != (#[trigger] entries[j]).0@
}

/// The servers that a run of entries holds, by identifier: what comes of
/// inserting each in turn, so that of two entries with one identifier the
/// later stands.
pub open spec fn collected(entries: Seq<(String, Server)>) -> Map<Seq<char>, ServerView>
    decreases entries.len(),
{
    if entries.len() == 0 {
        Map::empty()
    } else {
        collected(entries.drop_last()).insert(entries.last().0@, entries.last().1@)
    }
}

/// Place `i` is the last at which its identifier occurs.
pub open spec fn is_last_place(entries: Seq<(String, Server)>, i: int) -> bool {
    &&& 0 <= i < entries.len()
    &&& forall|j: int| i < j < entries.len() ==> (#[trigger] entries[j]).0@ != entries[i].0@
}

/// An identifier stands for the server at the last place at which it occurs.
proof fn lemma_collected_at(entries: Seq<(String, Server)>, i: int)
    requires
        is_last_place(entries, i),
    ensures
        collected(entries).contains_key(entries[i].0@),
        collected(entries)[entries[i].0@] == entries[i].1@,
    decreases entries.len(),
{
    let n = entries.len() as int;
    if i < n - 1 {
        let front = entries.drop_last();
        assert(entries[n - 1].0@ != entries[i].0@);
        assert forall|j: int| i < j < front.len() implies (#[trigger] front[j]).0@ != front[i].0@ by {
            assert(front[j] == entries[j]);
        }
        lemma_collected_at(front, i);
    }
}

/// An identifier that occurs nowhere stands for nothing.
proof fn lemma_collected_without(entries: Seq<(String, Server)>, identifier: Seq<char>)
    requires
        forall|j: int| 0 <= j < entries.len() ==> (#[trigger] entries[j]).0@ != identifier,
    ensures
        !collected(entries).contains_key(identifier),
    decreases entries.len(),
{
    if entries.len() > 0 {
        let front = entries.drop_last();
        assert(entries[entries.len() - 1].0@ != identifier);
        assert forall|j: int| 0 <= j < front.len() implies (#[trigger] front[j]).0@ != identifier by {
            assert(front[j] == entries[j]);
        }
        lemma_collected_without(front, identifier);
    }
}

/// Putting an entry in the last place of its identifier amounts to an
/// insertion, and keeps distinct entries distinct.
proof fn lemma_replaced(entries: Seq<(String, Server)>, i: int, entry: (String, Server))
    requires
        is_last_place(entries, i),
        entry.0@ == entries[i].0@,
    ensures
        collected(entries.update(i, entry)) == collected(entries).insert(entry.0@, entry.1@),
        distinct(entries) ==> distinct(entries.update(i, entry)),
    decreases entries.len(),
{
    let n = entries.len() as int;
    let after = entries.update(i, entry);
    if i == n - 1 {
        assert(after.drop_last() =~= entries.drop_last());
        assert(collected(after) =~= collected(entries).insert(entry.0@, entry.1@));
    } else {
        let front = entries.drop_last();
        assert(entries[n - 1].0@ != entries[i].0@);
        assert forall|j: int| i < j < front.len() implies (#[trigger] front[j]).0@ != front[i].0@ by {
            assert(front[j] == entries[j]);
        }
        lemma_replaced(front, i, entry);
        assert(after.drop_last() =~= front.update(i, entry));
        assert(after.last() == entries.last());
        assert(collected(after) =~= collected(entries).insert(entry.0@, entry.1@));
    }
    if distinct(entries) {
        assert forall|a: int, b: int| 0 <= a < b < after.len() implies (#[trigger] after[a]).0@ != (#[trigger] after[b]).0@ by {
            assert(after[a].0@ == entries[a].0@);
            assert(after[b].0@ == entries[b].0@);
        }
    }
}

/// The servers that a client knows.
#[derive(Debug, Clone)]
pub struct ServerList {
    list: Vec<(String, Server)>,
}

impl View for ServerList {
    type V = Map<Seq<char>, ServerView>;

    closed spec fn view(&self) -> Map<Seq<char>, ServerView> {
        collected(self.list@)
    }
}

impl ServerList {
    /// No identifier occurs twice in the list. Every list that `new` or
    /// `from_entries` gives is so, and the methods keep it so.
    pub closed spec fn wf(&self) -> bool {
        distinct(self.list@)
    }

    /// A list without servers.
    pub fn new() -> (servers: ServerList)
        ensures
            servers.wf(),
            servers@ == Map::<Seq<char>, ServerView>::empty(),
    {
        ServerList { list: Vec::new() }
    }

    /// The last place at which an identifier occurs, if it occurs.
    fn find(&self, identifier: &str) -> (r: Option<usize>)
        ensures
            r matches Some(i) ==> is_last_place(self.list@, i as int) && self.list@[i as int].0@ == identifier@,
            r is None ==> forall|j: int| 0 <= j < self.list@.len() ==> (#[trigger] self.list@[j]).0@ != identifier@,
    {
        let wanted = String::from_str(identifier);
        let mut i: usize = self.list.len();
        while i > 0
            invariant
                i <= self.list@.len(),
                wanted@ == identifier@,
                forall|j: int| i <= j < self.list@.len() ==> (#[trigger] self.list@[j]).0@ != identifier@,
            decreases i,
        {
            i -= 1;
            if self.list[i].0 == wanted {
                return Some(i);
            }
        }
        None
    }

    /// The server that goes by an identifier, if the list has one.
    pub fn get_server(&self, identifier: &str) -> (r: Option<&Server>)
        ensures
            r is Some <==> self@.contains_key(identifier@),
            r matches Some(server) ==> server@ == self@[identifier@],
    {
        match self.find(identifier) {
            Some(i) => {
                proof {
                    lemma_collected_at(self.list@, i as int);
                }
                Some(&self.list[i].1)
            },
            None => {
                proof {
                    lemma_collected_without(self.list@, identifier@);
                }
                None
            },
        }
    }

    /// Puts a server under an identifier, in place of the one that the
    /// identifier stood for before, if it stood for one.
    pub fn insert_server(&mut self, identifier: String, server: Server)
        ensures
            final(self)@ == old(self)@.insert(identifier@, server@),
            old(self).wf() ==> final(self).wf(),
    {
        let ghost before = self.list@;
        match self.find(identifier.as_str()) {
            Some(i) => {
                proof {
                    lemma_replaced(before, i as int, (identifier, server));
                }
                self.list.set(i, (identifier, server));
            },
            None => {
                self.list.push((identifier, server));
                proof {
                    let after = self.list@;
                    assert(after.drop_last() =~= before);
                    if distinct(before) {
                        assert forall|a: int, b: int| 0 <= a < b < after.len() implies (#[trigger] after[a]).0@ != (#[trigger] after[b]).0@ by {
                            assert(after[a] == before[a]);
                            if b < before.len() {
                                assert(after[b] == before[b]);
                            }
                        }
                    }
                }
            },
        }
    }

    /// Adds a server under an identifier, with a fresh token, in place of
    /// the one that the identifier stood for before, if it stood for one.
    /// Where no host name is given for the certificate, the default stands.
    pub fn add_server(&mut self, identifier: String, url: String, certificate: Vec<u8>, certificate_hostname: Option<String>)
        ensures
            final(self)@.contains_key(identifier@),
            final(self)@ == old(self)@.insert(identifier@, final(self)@[identifier@]),
            final(self)@[identifier@].url == url@,
            final(self)@[identifier@].certificate == certificate@,
            final(self)@[identifier@].certificate_hostname == match certificate_hostname {
                Some(name) => name@,
                None => DEFAULT_CERTIFICATE_HOSTNAME@,
            },
            is_token(final(self)@[identifier@].token),
            old(self).wf() ==> final(self).wf(),
    {
        let certificate_hostname = match certificate_hostname {
            Some(name) => name,
            None => String::from_str(DEFAULT_CERTIFICATE_HOSTNAME),
        };
        let server = Server { url, certificate, certificate_hostname, token: generate_token() };
        self.insert_server(identifier, server);
    }

    /// The list that holds the given entries, a later one standing in place
    /// of an earlier one with the same identifier.
    pub fn from_entries(entries: Vec<(String, Server)>) -> (servers: ServerList)
        ensures
            servers.wf(),
            servers@ == collected(entries@),
    {
        let mut servers = ServerList::new();
        let mut i: usize = 0;
        assert(entries@.take(0) =~= Seq::empty());
        while i < entries.len()
            invariant
                i <= entries.len(),
                servers.wf(),
                servers@ == collected(entries@.take(i as int)),
            decreases entries.len() - i,
        {
            let identifier = entries[i].0.clone();
            let server = Server {
                url: entries[i].1.url.clone(),
                certificate_hostname: entries[i].1.certificate_hostname.clone(),
                certificate: entries[i].1.certificate.clone(),
                token: entries[i].1.token.clone(),
            };
            proof {
                assert(entries@.take(i + 1).drop_last() =~= entries@.take(i as int));
                assert(entries@.take(i + 1).last() == entries@[i as int]);
            }
            servers.insert_server(identifier, server);
            i += 1;
        }
        assert(entries@.take(i as int) =~= entries@);
        servers
    }

    /// The entries of the list.
    pub fn entries(&self) -> (entries: &Vec<(String, Server)>)
        ensures
            collected(entries@) == self@,
            self.wf() ==> distinct(entries@),
    {
        &self.list
    }
}

} // verus!
