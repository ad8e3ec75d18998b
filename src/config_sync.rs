use vstd::prelude::*;
use vstd::string::StringExecFns;

verus! {

/// Where settings are pushed, once a server is known.
pub struct ConfigSyncState {
    pub server_url: Option<String>,
    pub client_uuid: Option<String>,
}

/// A push to make: the full URL and the client identifier to send with it.
pub struct SyncTarget {
    pub url: String,
    pub client_uuid: String,
}

/// The server path that takes the cleanup prompt sections.
pub const PROMPTS_PATH: &'static str = "/api/config/prompts";

/// The server path that takes the speech-to-text timeout.
pub const STT_TIMEOUT_PATH: &'static str = "/api/config/stt-timeout";

impl Default for ConfigSyncState {
    fn default() -> (r: Self)
        ensures
            r.server_url is None,
            r.client_uuid is None,
    {
        Self::new()
    }
}

impl ConfigSyncState {
    /// Both the server and the client identifier are known.
    pub open spec fn connected(&self) -> bool {
        self.server_url is Some && self.client_uuid is Some
    }

    /// A state that knows no server.
    pub fn new() -> (r: Self)
        ensures
            r.server_url is None,
            r.client_uuid is None,
    {
        ConfigSyncState { server_url: None, client_uuid: None }
    }

    /// Records the server and the identifier of this client.
    pub fn set_connected(&mut self, server_url: String, client_uuid: String)
        ensures
            final(self).server_url == Some(server_url),
            final(self).client_uuid == Some(client_uuid),
    {
        self.server_url = Some(server_url);
        self.client_uuid = Some(client_uuid);
    }

    /// Forgets the server.
    pub fn set_disconnected(&mut self)
        ensures
            final(self).server_url is None,
            final(self).client_uuid is None,
    {
        self.server_url = None;
        self.client_uuid = None;
    }

    /// Whether pushes go out.
    pub fn is_connected(&self) -> (r: bool)
        ensures
            r == self.connected(),
    {
        self.server_url.is_some() && self.client_uuid.is_some()
    }

    /// The push to `path` on the known server, or none while not connected,
    /// in which case nothing is sent.
    pub fn sync_target(&self, path: &str) -> (r: Option<SyncTarget>)
        ensures
            r is Some <==> self.connected(),
            r is Some ==> r->0.url@ == self.server_url->0@ + path@ && r->0.client_uuid
                == self.client_uuid->0,
    {
        match (&self.server_url, &self.client_uuid) {
            (Some(url), Some(uuid)) => {
                let mut full = url.clone();
                full.append(path);
                Some(SyncTarget { url: full, client_uuid: uuid.clone() })
            },
            _ => None,
        }
    }
}

} // verus!
