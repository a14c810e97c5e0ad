use vstd::prelude::*;

verus! {

/// What every endpoint call of one API shares: the host requests go to and
/// the bearer credential they carry.
pub struct Client {
    host: String,
    token: String,
}

impl Client {
    pub closed spec fn host_view(&self) -> Seq<char> {
        self.host@
    }

    pub closed spec fn token_view(&self) -> Seq<char> {
        self.token@
    }

    pub fn new(host: String, token: String) -> (r: Client)
        ensures
            r.host_view() == host@,
            r.token_view() == token@,
    {
        Client { host, token }
    }

    pub fn host(&self) -> (r: &str)
        ensures
            r@ == self.host_view(),
    {
        self.host.as_str()
    }

    pub fn token(&self) -> (r: &str)
        ensures
            r@ == self.token_view(),
    {
        self.token.as_str()
    }

    /// The full URL of an endpoint path on this client's host.
    pub fn url(&self, path: &str) -> (r: String)
        ensures
            r@ == self.host_view() + path@,
    {
        let mut url = String::from_str(self.host.as_str());
        url.append(path);
        url
    }
}

} // verus!
