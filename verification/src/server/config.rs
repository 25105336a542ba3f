//! The hub's configuration: where it listens and whom it admits.

use vstd::prelude::*;

verus! {

/// One admitted peer.
#[derive(Debug)]
pub struct User {
    uuid: String,
}

impl View for User {
    type V = Seq<char>;

    closed spec fn view(&self) -> Seq<char> {
        self.uuid@
    }
}

impl DeepView for User {
    type V = Seq<char>;

    open spec fn deep_view(&self) -> Seq<char> {
        self@
    }
}

impl Clone for User {
    fn clone(&self) -> (copy: User)
        ensures
            copy@ == self@,
    {
        User { uuid: self.uuid.clone() }
    }
}

impl User {
    /// The entry for the peer with this identifier.
    pub fn new(uuid: String) -> (user: User)
        ensures
            user@ == uuid@,
    {
        User { uuid }
    }

    /// The peer's identifier.
    pub fn uuid(&self) -> (id: &str)
        ensures
            id@ == self@,
    {
        self.uuid.as_str()
    }
}

/// The value of a [`Web`]: the address to listen on and the identifiers of
/// the admitted peers, in the order of the file.
pub struct WebView {
    pub bind: Seq<char>,
    pub users: Seq<Seq<char>>,
}

/// The hub's network settings.
#[derive(Debug)]
pub struct Web {
    bind: String,
    users: Vec<User>,
}

impl View for Web {
    type V = WebView;

    closed spec fn view(&self) -> WebView {
        WebView { bind: self.bind@, users: self.users.deep_view() }
    }
}

impl Clone for Web {
    fn clone(&self) -> (copy: Web)
        ensures
            copy@ == self@,
    {
        let mut users: Vec<User> = Vec::new();
        let mut i: usize = 0;
        while i < self.users.len()
            invariant
                i <= self.users.len(),
                users.len() == i,
                forall|j: int| 0 <= j < i ==> users[j]@ == self.users[j]@,
            decreases self.users.len() - i,
        {
            users.push(self.users[i].clone());
            i += 1;
        }
        assert(users.deep_view() =~= self.users.deep_view());
        Web { bind: self.bind.clone(), users }
    }
}

impl Web {
    /// Settings with the given address and admitted peers.
    pub fn new(bind: String, users: Vec<User>) -> (web: Web)
        ensures
            web@.bind == bind@,
            web@.users == users.deep_view(),
    {
        Web { bind, users }
    }

    /// The address to listen on.
    pub fn bind(&self) -> (address: &str)
        ensures
            address@ == self@.bind,
    {
        self.bind.as_str()
    }

    /// The identifiers of the admitted peers, each in a string of its own.
    pub fn clone_users(&self) -> (ids: Vec<String>)
        ensures
            ids.deep_view() == self@.users,
    {
        let mut ids: Vec<String> = Vec::new();
        let mut i: usize = 0;
        while i < self.users.len()
            invariant
                i <= self.users.len(),
                ids.len() == i,
                forall|j: int| 0 <= j < i ==> ids[j]@ == self.users[j]@,
            decreases self.users.len() - i,
        {
            ids.push(self.users[i].uuid().to_owned());
            i += 1;
        }
        assert(ids.deep_view() =~= self.users.deep_view());
        ids
    }
}

impl Default for Web {
    /// The loopback address and nobody admitted.
    fn default() -> (web: Web)
        ensures
            web@.bind == "127.0.0.1:37001"@,
            web@.users == Seq::<Seq<char>>::empty(),
    {
        let web = Web { bind: "127.0.0.1:37001".to_owned(), users: Vec::new() };
        assert(web.users.deep_view() =~= Seq::<Seq<char>>::empty());
        web
    }
}

/// The hub's configuration.
#[derive(Debug)]
pub struct Config {
    web: Web,
}

impl View for Config {
    type V = WebView;

    closed spec fn view(&self) -> WebView {
        self.web@
    }
}

impl Clone for Config {
    fn clone(&self) -> (copy: Config)
        ensures
            copy@ == self@,
    {
        Config { web: self.web.clone() }
    }
}

impl Config {
    /// The configuration that holds these network settings.
    pub fn new(web: Web) -> (config: Config)
        ensures
            config@ == web@,
    {
        Config { web }
    }

    /// The network settings.
    pub fn web(&self) -> (web: &Web)
        ensures
            web@ == self@,
    {
        &self.web
    }
}

} // verus!
