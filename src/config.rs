use vstd::prelude::*;

use crate::text::{trim, trimmed};

verus! {

/// The texts of a list of strings.
pub open spec fn texts(v: Seq<String>) -> Seq<Seq<char>> {
    v.map_values(|s: String| s@)
}

/// The nicknames that cleaning keeps: each trimmed, the empty ones left out.
pub open spec fn cleaned_nicks(nicks: Seq<Seq<char>>) -> Seq<Seq<char>>
    decreases nicks.len(),
{
    if nicks.len() == 0 {
        seq![]
    } else {
        let kept = cleaned_nicks(nicks.drop_last());
        let last = trimmed(nicks.last());
        if last.len() > 0 {
            kept.push(last)
        } else {
            kept
        }
    }
}

/// The identity a user chose: nicknames in order of preference, user name,
/// real name.
#[derive(Debug, Clone)]
pub struct User {
    pub nicknames: Vec<String>,
    pub username: String,
    pub realname: String,
}

impl User {
    pub fn new(nicknames: Vec<String>, username: String, realname: String) -> (r: Self)
        ensures
            r.nicknames == nicknames,
            r.username == username,
            r.realname == realname,
    {
        Self { nicknames, username, realname }
    }

    /// The same identity with white space trimmed off every part and the
    /// nicknames that are left empty dropped.
    pub fn clean(&self) -> (r: Self)
        ensures
            texts(r.nicknames@) == cleaned_nicks(texts(self.nicknames@)),
            r.username@ == trimmed(self.username@),
            r.realname@ == trimmed(self.realname@),
    {
        let mut nicknames: Vec<String> = Vec::new();
        let ghost src = texts(self.nicknames@);
        let mut i: usize = 0;
        while i < self.nicknames.len()
            invariant
                i <= self.nicknames@.len(),
                src == texts(self.nicknames@),
                texts(nicknames@) == cleaned_nicks(src.take(i as int)),
            decreases self.nicknames@.len() - i,
        {
            let nick = trim(self.nicknames[i].as_str());
            let ghost before = texts(nicknames@);
            proof {
                assert(src.take(i + 1).drop_last() =~= src.take(i as int));
                assert(src[i as int] == self.nicknames@[i as int]@);
            }
            if !nick.as_str().is_empty() {
                nicknames.push(nick);
                assert(texts(nicknames@) =~= before.push(trimmed(src[i as int])));
            }
            i += 1;
        }
        assert(src.take(self.nicknames@.len() as int) =~= src);
        Self {
            nicknames,
            username: trim(self.username.as_str()),
            realname: trim(self.realname.as_str()),
        }
    }

    /// Whether the two identities have the same texts.
    pub fn same_as(&self, other: &User) -> (r: bool)
        ensures
            r == (texts(self.nicknames@) == texts(other.nicknames@) && self.username@
                == other.username@ && self.realname@ == other.realname@),
    {
        if self.nicknames.len() != other.nicknames.len() {
            assert(texts(self.nicknames@).len() != texts(other.nicknames@).len());
            return false;
        }
        let mut i: usize = 0;
        while i < self.nicknames.len()
            invariant
                i <= self.nicknames@.len() == other.nicknames@.len(),
                forall|k: int| 0 <= k < i ==> self.nicknames@[k]@ == other.nicknames@[k]@,
            decreases self.nicknames@.len() - i,
        {
            if self.nicknames[i] != other.nicknames[i] {
                assert(texts(self.nicknames@)[i as int] != texts(other.nicknames@)[i as int]);
                return false;
            }
            i += 1;
        }
        assert(texts(self.nicknames@) =~= texts(other.nicknames@));
        self.username == other.username && self.realname == other.realname
    }

    /// Every part is filled in: a nickname, a user name and a real name.
    pub open spec fn complete(&self) -> bool {
        &&& self.nicknames@.len() > 0
        &&& self.username@.len() > 0
        &&& self.realname@.len() > 0
    }
}

/// A server the user knows of.
#[derive(Debug, Clone)]
pub struct Server {
    pub last_nickname: Option<String>,
    pub name: String,
    pub address: String,
    pub port: u16,
}

impl Server {
    /// A server with no nickname used on it yet.
    pub fn new(name: String, address: String, port: u16) -> (r: Self)
        ensures
            r.last_nickname is None,
            r.name == name,
            r.address == address,
            r.port == port,
    {
        Self { last_nickname: None, name, address, port }
    }
}

/// The settings of the program.
#[derive(Debug, Clone)]
pub struct Config {
    pub user: Option<User>,
    pub servers: Option<Vec<Server>>,
}

impl Config {
    /// Settings for `user`, who needs at least one nickname.
    pub fn new(user: User, servers: Option<Vec<Server>>) -> (r: Option<Self>)
        ensures
            user.nicknames@.len() > 0 <==> r is Some,
            r matches Some(c) ==> (c.user == Some(user) && c.servers == servers),
    {
        if user.nicknames.len() > 0 {
            Some(Self { user: Some(user), servers })
        } else {
            None
        }
    }

    /// Settings as read from storage, made fit for use: the user is
    /// cleaned, and the settings are kept only when the cleaned user is
    /// complete. The flag says whether cleaning changed anything, that is
    /// whether the kept settings should be stored again.
    pub fn sanitized(self) -> (r: (Option<Config>, bool))
        ensures
            match self.user {
                None => r.0 is None && !r.1,
                Some(u) => {
                    let nicks = cleaned_nicks(texts(u.nicknames@));
                    let complete = nicks.len() > 0 && trimmed(u.username@).len() > 0 && trimmed(
                        u.realname@,
                    ).len() > 0;
                    let changed = !(nicks == texts(u.nicknames@) && trimmed(u.username@)
                        == u.username@ && trimmed(u.realname@) == u.realname@);
                    &&& complete <==> r.0 is Some
                    &&& r.1 == (complete && changed)
                    &&& r.0 matches Some(c) ==> (c.servers == self.servers && (c.user matches Some(
                        cu,
                    ) && texts(cu.nicknames@) == nicks && cu.username@ == trimmed(u.username@)
                        && cu.realname@ == trimmed(u.realname@)))
                },
            },
    {
        let Config { user, servers } = self;
        match user {
            None => (None, false),
            Some(u) => {
                let clean = u.clean();
                let changed = !clean.same_as(&u);
                if clean.nicknames.len() > 0 && !clean.username.as_str().is_empty()
                    && !clean.realname.as_str().is_empty() {
                    (Some(Config { user: Some(clean), servers }), changed)
                } else {
                    (None, false)
                }
            },
        }
    }
}

} // verus!
