//! Redis connection settings.
use vstd::prelude::*;

verus! {

/// Where the Redis server is: a `redis://` URL.
#[derive(Debug)]
pub struct RedisConnection {
    url: String,
}

impl RedisConnection {
    /// The URL of the server.
    pub closed spec fn spec_url(self) -> Seq<char> {
        self.url@
    }

    /// Settings for the server at `url`.
    pub fn new(url: &str) -> (r: Self)
        ensures
            r.spec_url() == url@,
    {
        RedisConnection { url: url.to_owned() }
    }

    /// The URL of the server.
    pub fn url(&self) -> (r: &str)
        ensures
            r@ == self.spec_url(),
    {
        self.url.as_str()
    }
}

impl Default for RedisConnection {
    /// The local server on the default port, `redis://127.0.0.1:6379`.
    fn default() -> (r: Self)
        ensures
            r.spec_url() == "redis://127.0.0.1:6379"@,
    {
        RedisConnection::new("redis://127.0.0.1:6379")
    }
}

impl Clone for RedisConnection {
    fn clone(&self) -> (r: Self)
        ensures
            r == *self,
    {
        RedisConnection { url: self.url.clone() }
    }
}

} // verus!
