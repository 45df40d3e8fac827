//! The decisions taken when bringing the network link up, and the static
//! configuration the agent starts from.
use vstd::prelude::*;

verus! {

/// How the node authenticates to its access point.
#[derive(Clone, Copy, Debug, PartialEq, Eq, Structural)]
pub enum AuthChoice {
    Wpa2Personal,
    /// No password was configured.
    Open,
}

#[derive(Clone, Copy, Debug, PartialEq, Eq, Structural)]
pub enum LinkError {
    /// The network name is empty.
    MissingSsid,
}

/// One access point found by a scan.
#[derive(Debug)]
pub struct AccessPoint {
    pub ssid: String,
    pub channel: u8,
}

/// What the association is configured with.
#[derive(Clone, Copy, Debug, PartialEq, Eq, Structural)]
pub struct LinkSettings {
    pub auth: AuthChoice,
    /// The channel of the configured network, where the scan saw it.
    pub channel: Option<u8>,
}

/// The channel of the first scanned access point named `ssid`.
pub open spec fn channel_of(ssid: Seq<char>, aps: Seq<AccessPoint>) -> Option<u8>
    decreases aps.len(),
{
    if aps.len() == 0 {
        None
    } else if aps[0].ssid@ == ssid {
        Some(aps[0].channel)
    } else {
        channel_of(ssid, aps.drop_first())
    }
}

/// The authentication for network `ssid` with password `pass`, decided before the
/// radio is touched: an empty name is refused; an empty password means an open network.
pub fn link_auth(ssid: &String, pass: &String) -> (r: Result<AuthChoice, LinkError>)
    ensures
        ssid@.len() == 0 <==> r == Err::<AuthChoice, LinkError>(LinkError::MissingSsid),
        ssid@.len() > 0 ==> r == Ok::<AuthChoice, LinkError>(
            if pass@.len() == 0 {
                AuthChoice::Open
            } else {
                AuthChoice::Wpa2Personal
            },
        ),
{
    if ssid.as_str().is_empty() {
        Err(LinkError::MissingSsid)
    } else if pass.as_str().is_empty() {
        Ok(AuthChoice::Open)
    } else {
        Ok(AuthChoice::Wpa2Personal)
    }
}

/// Settings for joining network `ssid` with password `pass`, given what a scan
/// found: the authentication of `link_auth`, and the channel of the first access
/// point with the same name, if any.
pub fn wifi(ssid: &String, pass: &String, scanned: &Vec<AccessPoint>) -> (r: Result<
    LinkSettings,
    LinkError,
>)
    ensures
        ssid@.len() == 0 <==> r == Err::<LinkSettings, LinkError>(LinkError::MissingSsid),
        ssid@.len() > 0 ==> r == Ok::<LinkSettings, LinkError>(
            LinkSettings {
                auth: if pass@.len() == 0 {
                    AuthChoice::Open
                } else {
                    AuthChoice::Wpa2Personal
                },
                channel: channel_of(ssid@, scanned@),
            },
        ),
{
    let auth = match link_auth(ssid, pass) {
        Ok(a) => a,
        Err(e) => {
            return Err(e);
        },
    };
    let mut i: usize = 0;
    assert(scanned@.subrange(0, scanned@.len() as int) =~= scanned@);
    while i < scanned.len()
        invariant
            0 <= i <= scanned@.len(),
            ssid@.len() > 0,
            auth == if pass@.len() == 0 {
                AuthChoice::Open
            } else {
                AuthChoice::Wpa2Personal
            },
            channel_of(ssid@, scanned@) == channel_of(
                ssid@,
                scanned@.subrange(i as int, scanned@.len() as int),
            ),
        decreases scanned@.len() - i,
    {
        let ghost rest = scanned@.subrange(i as int, scanned@.len() as int);
        if scanned[i].ssid == *ssid {
            assert(rest[0] == scanned@[i as int]);
            return Ok(LinkSettings { auth, channel: Some(scanned[i].channel) });
        }
        assert(rest.drop_first() =~= scanned@.subrange(i + 1, scanned@.len() as int));
        i = i + 1;
    }
    Ok(LinkSettings { auth, channel: None })
}


/// The static configuration: network credentials, broker endpoint and client
/// identity, the three PEM credentials (each NUL-terminated), and the two topics.
#[derive(Debug)]
pub struct Config {
    pub ssid: String,
    pub password: String,
    pub client_id: String,
    pub server_cert: Vec<u8>,
    pub client_cert: Vec<u8>,
    pub private_key: Vec<u8>,
    pub mqtts_url: String,
    pub sub_topic: String,
    pub pub_topic: String,
}

/// A PEM credential in the form the TLS layer reads: the bytes followed by a NUL.
pub fn convert_certificate(certificate_bytes: Vec<u8>) -> (r: Vec<u8>)
    ensures
        r@ == certificate_bytes@.push(0u8),
{
    let mut bytes = certificate_bytes;
    bytes.push(0u8);
    bytes
}

impl Config {
    /// Gathers the configuration, terminating each credential with a NUL.
    pub fn new(
        ssid: String,
        password: String,
        client_id: String,
        server_cert: Vec<u8>,
        client_cert: Vec<u8>,
        private_key: Vec<u8>,
        mqtts_url: String,
        sub_topic: String,
        pub_topic: String,
    ) -> (c: Config)
        ensures
            c.ssid == ssid,
            c.password == password,
            c.client_id == client_id,
            c.server_cert@ == server_cert@.push(0u8),
            c.client_cert@ == client_cert@.push(0u8),
            c.private_key@ == private_key@.push(0u8),
            c.mqtts_url == mqtts_url,
            c.sub_topic == sub_topic,
            c.pub_topic == pub_topic,
    {
        Config {
            ssid,
            password,
            client_id,
            server_cert: convert_certificate(server_cert),
            client_cert: convert_certificate(client_cert),
            private_key: convert_certificate(private_key),
            mqtts_url,
            sub_topic,
            pub_topic,
        }
    }
}

} // verus!
