//! The bot's configuration records. Reading and parsing the configuration
//! file is I/O and lives with the host program; the records themselves,
//! and the URL arithmetic on them, are plain data.

use vstd::prelude::*;

verus! {

pub struct Config {
    pub discord: Discord,
    pub postgres: Postgres,
    pub mongo: Mongo,
    pub stripe: Stripe,
}

pub struct Discord {
    pub token: String,
    pub test_guild_id: u64,
}

pub struct Postgres {
    pub connection_uri: String,
    pub max_connections: u32,
    pub min_connections: u32,
}

pub struct Mongo {
    pub connection_uri: String,
}

pub struct Stripe {
    pub cloudflare_hook_base: String,
    pub cloudflare_auth: String,
}

impl Stripe {
    /// The payment worker endpoint for a given path.
    pub fn format_stripe_hook_url(&self, path: &str) -> (r: String)
        ensures
            r@ == self.cloudflare_hook_base@ + path@,
    {
        let mut s = self.cloudflare_hook_base.clone();
        s.append(path);
        s
    }
}

} // verus!
