//! Configuration for the two outside connections the engine talks through:
//! the device-management server (reached with an API token over a URI) and
//! the MQTT broker that carries the telemetry. Only the configuration data
//! lives here; opening the connections is the embedding application's job.

use vstd::prelude::*;

verus! {

/// Connection settings for the device-management server: the API token and
/// the URI under which the server is reached.
pub struct ChirpstackConnection {
    pub api_token: String,
    pub uri: String,
}

impl ChirpstackConnection {
    /// Creates a new connection setting from an API token and a URI.
    pub fn new(api_token: &str, uri: &str) -> (con: Self)
        ensures
            con.api_token@ == api_token@,
            con.uri@ == uri@,
    {
        let con = ChirpstackConnection { api_token: api_token.to_owned(), uri: uri.to_owned() };
        return con;
    }

    /// Gets a copy of the URI.
    pub fn get_uri(&self) -> (r: String)
        ensures
            r@ == self.uri@,
    {
        return self.uri.clone();
    }

    /// Sets a new URI under which the server is reached.
    pub fn change_uri(&mut self, uri: &str)
        ensures
            final(self).uri@ == uri@,
            final(self).api_token == old(self).api_token,
    {
        self.uri = uri.to_owned();
    }

    /// Gets a copy of the API token.
    pub fn get_api_token(&self) -> (r: String)
        ensures
            r@ == self.api_token@,
    {
        return self.api_token.clone();
    }

    /// Sets a new API token.
    pub fn set_api_token(&mut self, api_token: &str)
        ensures
            final(self).api_token@ == api_token@,
            final(self).uri == old(self).uri,
    {
        self.api_token = api_token.to_owned();
    }
}

/// Connection settings for the MQTT broker that delivers the telemetry:
/// the broker URI and the credentials of a user that may receive every
/// incoming device message.
pub struct Mqtt {
    pub uri: String,
    pub username: String,
    pub password: String,
}

impl Mqtt {
    /// Creates a new broker setting from a URI, a username and a password.
    pub fn new(uri: &str, username: &str, password: &str) -> (r: Self)
        ensures
            r.uri@ == uri@,
            r.username@ == username@,
            r.password@ == password@,
    {
        return Mqtt {
            uri: uri.to_owned(),
            username: username.to_owned(),
            password: password.to_owned(),
        };
    }

    /// Gets a copy of the URI.
    pub fn get_uri(&self) -> (r: String)
        ensures
            r@ == self.uri@,
    {
        return self.uri.clone();
    }

    /// Gets a copy of the username.
    pub fn get_username(&self) -> (r: String)
        ensures
            r@ == self.username@,
    {
        return self.username.clone();
    }

    /// Gets a copy of the password.
    pub fn get_password(&self) -> (r: String)
        ensures
            r@ == self.password@,
    {
        return self.password.clone();
    }

    /// Sets a new URI under which the broker is reached.
    pub fn change_uri(&mut self, uri: &str)
        ensures
            final(self).uri@ == uri@,
            final(self).username == old(self).username,
            final(self).password == old(self).password,
    {
        self.uri = uri.to_owned();
    }

    /// Changes the username.
    pub fn change_username(&mut self, username: &str)
        ensures
            final(self).username@ == username@,
            final(self).uri == old(self).uri,
            final(self).password == old(self).password,
    {
        self.username = username.to_owned();
    }

    /// Changes the password.
    pub fn change_password(&mut self, password: &str)
        ensures
            final(self).password@ == password@,
            final(self).uri == old(self).uri,
            final(self).username == old(self).username,
    {
        self.password = password.to_owned();
    }
}

} // verus!
