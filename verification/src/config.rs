//! What a client is configured with: where the service is, which version of
//! its interface is spoken, and what every call carries.

use vstd::prelude::*;

verus! {

/// The mathematical content of a [`ClientConfig`].
pub struct ConfigModel {
    pub domain: Seq<char>,
    pub api: Seq<char>,
    pub user_agent: Seq<char>,
    pub content_type: Seq<char>,
    pub timeout_secs: u64,
    pub gzip: bool,
}

/// The configuration of a client. It is handed over when the client is
/// made; nothing of it is global.
#[derive(Debug)]
pub struct ClientConfig {
    /// Scheme and host of the service, without a slash at the end.
    pub domain: String,
    /// The version of the interface, as it stands in the addresses.
    pub api: String,
    /// The value of the `User-Agent` header of every call.
    pub user_agent: String,
    /// The value of the `Content-Type` header of every call.
    pub content_type: String,
    /// The time allowed for one transfer, in seconds.
    pub timeout_secs: u64,
    /// Whether compressed answers are asked for.
    pub gzip: bool,
}

impl View for ClientConfig {
    type V = ConfigModel;

    open spec fn view(&self) -> ConfigModel {
        ConfigModel {
            domain: self.domain@,
            api: self.api@,
            user_agent: self.user_agent@,
            content_type: self.content_type@,
            timeout_secs: self.timeout_secs,
            gzip: self.gzip,
        }
    }
}

/// The time allowed for one transfer unless configured otherwise, in
/// seconds.
pub const CLIENT_TIMEOUT: u64 = 10;

impl ConfigModel {
    /// What every configuration made by [`ClientConfig::new`] holds besides
    /// the address of the service.
    pub open spec fn standard(domain: Seq<char>, api: Seq<char>) -> ConfigModel {
        ConfigModel {
            domain,
            api,
            user_agent: "RustGrabber"@,
            content_type: "application/json;charset=UTF-8"@,
            timeout_secs: CLIENT_TIMEOUT,
            gzip: true,
        }
    }

    /// The address of a path below the interface version: domain, a slash,
    /// the version, and the path, which starts with a slash.
    pub open spec fn api_url(self, path: Seq<char>) -> Seq<char> {
        self.domain + "/"@ + self.api + path
    }

    /// The address of a path that the service handed out, which holds the
    /// interface version already: domain and path.
    pub open spec fn service_url(self, path: Seq<char>) -> Seq<char> {
        self.domain + path
    }
}

impl ClientConfig {
    /// The configuration for the service at `domain`, spoken to in version
    /// `api`, with the client's usual headers, a timeout of ten seconds and
    /// compressed answers.
    pub fn new(domain: &str, api: &str) -> (config: ClientConfig)
        ensures
            config@ == ConfigModel::standard(domain@, api@),
    {
        ClientConfig {
            domain: String::from_str(domain),
            api: String::from_str(api),
            user_agent: String::from_str("RustGrabber"),
            content_type: String::from_str("application/json;charset=UTF-8"),
            timeout_secs: CLIENT_TIMEOUT,
            gzip: true,
        }
    }

    /// The address of `path` below the interface version.
    pub fn api_url(&self, path: &str) -> (url: String)
        ensures
            url@ == self@.api_url(path@),
    {
        let mut url = self.domain.clone();
        url.append("/");
        url.append(self.api.as_str());
        url.append(path);
        url
    }

    /// The address of a path that the service handed out.
    pub fn service_url(&self, path: &str) -> (url: String)
        ensures
            url@ == self@.service_url(path@),
    {
        let mut url = self.domain.clone();
        url.append(path);
        url
    }
}

} // verus!
