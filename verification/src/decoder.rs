//! A decoder handle set up by builder calls: an IPv4 address, a port and
//! the HTTP client used to reach it.

use vstd::prelude::*;

use crate::http::{build_client, client_timeout_ms};

verus! {

/// Port a decoder handle targets unless set otherwise.
pub const DEFAULT_PORT: u16 = 8080;

/// Request timeout of the client a handle starts with, in milliseconds.
pub const DEFAULT_TIMEOUT_MS: u64 = 250;

/// A decoder handle: IPv4 address, port and HTTP client.
pub struct Decoder {
    pub(crate) ip: [u8; 4],
    pub(crate) port: u16,
    pub(crate) client: reqwest::Client,
}

impl Decoder {
    /// The IPv4 octets of the decoder.
    pub closed spec fn spec_ip(self) -> [u8; 4] {
        self.ip
    }

    /// The port of the decoder.
    pub closed spec fn spec_port(self) -> u16 {
        self.port
    }

    /// The HTTP client of the handle.
    pub closed spec fn spec_client(self) -> reqwest::Client {
        self.client
    }

    /// A handle to the decoder at `ip`, on port 8080, with a client whose
    /// requests time out after 250 ms.
    pub fn new(ip: [u8; 4]) -> (decoder: Decoder)
        ensures
            decoder.spec_ip() == ip,
            decoder.spec_port() == DEFAULT_PORT,
            client_timeout_ms(decoder.spec_client()) == DEFAULT_TIMEOUT_MS,
    {
        Decoder { ip, port: DEFAULT_PORT, client: build_client(DEFAULT_TIMEOUT_MS) }
    }

    /// The same handle, on another port.
    pub fn with_port(self, port: u16) -> (decoder: Decoder)
        ensures
            decoder.spec_ip() == self.spec_ip(),
            decoder.spec_port() == port,
            decoder.spec_client() == self.spec_client(),
    {
        Decoder { port, ..self }
    }

    /// The same handle, with another HTTP client.
    pub fn with_client(self, client: reqwest::Client) -> (decoder: Decoder)
        ensures
            decoder.spec_ip() == self.spec_ip(),
            decoder.spec_port() == self.spec_port(),
            decoder.spec_client() == client,
    {
        Decoder { client, ..self }
    }

    /// The IPv4 octets of the decoder.
    pub fn ip(&self) -> (ip: [u8; 4])
        ensures
            ip == self.spec_ip(),
    {
        self.ip
    }

    /// The port of the decoder.
    pub fn port(&self) -> (port: u16)
        ensures
            port == self.spec_port(),
    {
        self.port
    }

    /// The HTTP client of the handle.
    pub fn client(&self) -> (client: &reqwest::Client)
        ensures
            *client == self.spec_client(),
    {
        &self.client
    }
}

} // verus!
