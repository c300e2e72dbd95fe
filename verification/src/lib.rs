//! Control of DTIW385 television decoders over their HTTP remote-control
//! API: key codes, request URLs, reply interpretation and network scans.

pub mod addr;
pub mod decoder;
pub mod enums;
pub mod http;
pub mod key;
pub mod commands;
pub mod response;
pub mod text;

use vstd::prelude::*;
use vstd::string::*;

use crate::addr::{ip_text, ip_number, ip_octets, ip_to_u32, u32_to_ip, Address};
use crate::http::{build_client, client_timeout_ms, http_error_text, reqwest_error_text};
use crate::commands::cmd::{join_params, query_params, query_url};
use crate::commands::enums::mode::{mode_value, Mode};
use crate::commands::enums::operation::{operation_value, Operation};
use crate::response::ApiResponse;
use crate::text::{decimal, push_decimal, str_eq};

verus! {

/// Request timeout of a decoder handle, in milliseconds, unless set otherwise.
pub const DEFAULT_CLIENT_TIMEOUT_MS: u64 = 250;

/// Number of addresses probed at once by a scan, unless set otherwise.
pub const DEFAULT_CONCURRENCY: usize = 20;

/// The `operation` parameter of a key command.
pub const OPERATION_SEND_KEY: u8 = 1;

/// The `operation` parameter of a status request.
pub const OPERATION_READ_INFOS: u8 = 10;

/// The `mode` parameter of a short press (key down then up).
pub const MODE_PRESS: u8 = 0;

/// The `mode` parameter of a hold (key down only).
pub const MODE_HOLD: u8 = 1;

/// The `mode` parameter of a release (key up only).
pub const MODE_RELEASE: u8 = 2;

/// Errors that can occur when communicating with a decoder.
#[derive(Debug)]
pub enum DecoderError {
    /// Connection failed to the given address.
    ConnectionFailed(Address),
    /// The request timed out on the given address.
    Timeout(Address),
    /// The decoder answered with a non-zero response code; the decoder's
    /// message is kept.
    InvalidResponse(String),
    /// The HTTP client failed (connection, status or body).
    HttpClient(reqwest::Error),
}

/// The message of an error: `Connection failed to {address}`,
/// `Request timed out on {address}`, `Invalid response: {message}` or
/// `HTTP client error: {client error}`.
pub open spec fn error_text(e: DecoderError) -> Seq<char> {
    match e {
        DecoderError::ConnectionFailed(a) => "Connection failed to "@ + a.text(),
        DecoderError::Timeout(a) => "Request timed out on "@ + a.text(),
        DecoderError::InvalidResponse(m) => "Invalid response: "@ + m@,
        DecoderError::HttpClient(x) => "HTTP client error: "@ + reqwest_error_text(x),
    }
}

impl DecoderError {
    /// The message of the error.
    pub fn to_string(&self) -> (text: String)
        ensures
            text@ == error_text(*self),
    {
        let mut s = String::new();
        match self {
            DecoderError::ConnectionFailed(a) => {
                s.append("Connection failed to ");
                a.push_text(&mut s);
            },
            DecoderError::Timeout(a) => {
                s.append("Request timed out on ");
                a.push_text(&mut s);
            },
            DecoderError::InvalidResponse(m) => {
                s.append("Invalid response: ");
                s.append(m.as_str());
            },
            DecoderError::HttpClient(x) => {
                s.append("HTTP client error: ");
                let t = http_error_text(x);
                s.append(t.as_str());
            },
        }
        proof {
            assert(s@ =~= error_text(*self));
        }
        s
    }
}

/// The URL of a command: `http://{address}/remoteControl/cmd?operation={operation}&key={key}&mode={mode}`.
pub open spec fn command_url(addr: Address, operation: u8, key: u16, mode: u8) -> Seq<char> {
    "http://"@ + addr.text() + "/remoteControl/cmd?operation="@ + decimal(operation as nat)
        + "&key="@ + decimal(key as nat) + "&mode="@ + decimal(mode as nat)
}

/// A handle to a single decoder on the network.
///
/// Holds the decoder's address and the HTTP client that its commands are
/// sent with, together with the request timeout that client was configured
/// with.
#[derive(Debug, Clone)]
pub struct Decoder {
    socket: Address,
    client: reqwest::Client,
    timeout: u64,
}

impl std::ops::Deref for Decoder {
    type Target = Address;

    fn deref(&self) -> (socket: &Address)
        ensures
            *socket == self.spec_socket(),
    {
        &self.socket
    }
}

impl Decoder {
    /// The address of the decoder.
    pub closed spec fn spec_socket(self) -> Address {
        self.socket
    }

    /// The HTTP client that commands to this decoder are sent with.
    pub closed spec fn spec_client(self) -> reqwest::Client {
        self.client
    }

    /// The request timeout, in milliseconds, recorded on the handle. The
    /// functions that build a handle state that its client was configured
    /// with this same timeout.
    pub closed spec fn spec_timeout(self) -> u64 {
        self.timeout
    }

    /// A handle to the decoder at `ip:port`, with the default timeout.
    fn new(ip: [u8; 4], port: u16) -> (decoder: Decoder)
        ensures
            decoder.spec_socket().spec_ip() == ip,
            decoder.spec_socket().spec_port() == port,
            decoder.spec_timeout() == DEFAULT_CLIENT_TIMEOUT_MS,
            client_timeout_ms(decoder.spec_client()) == DEFAULT_CLIENT_TIMEOUT_MS,
    {
        let socket = Address::new(ip, port);
        let client = build_client(DEFAULT_CLIENT_TIMEOUT_MS);
        Decoder { socket, client, timeout: DEFAULT_CLIENT_TIMEOUT_MS }
    }

    /// Overrides the HTTP request timeout for this decoder, in milliseconds.
    pub fn with_timeout(self, millis: u64) -> (decoder: Decoder)
        ensures
            decoder.spec_socket() == self.spec_socket(),
            decoder.spec_timeout() == millis,
            client_timeout_ms(decoder.spec_client()) == millis,
    {
        let client = build_client(millis);
        Decoder { socket: self.socket, client, timeout: millis }
    }

    /// The address of the decoder.
    pub fn socket(&self) -> (socket: &Address)
        ensures
            *socket == self.spec_socket(),
    {
        &self.socket
    }

    /// The request timeout, in milliseconds.
    pub fn timeout(&self) -> (millis: u64)
        ensures
            millis == self.spec_timeout(),
    {
        self.timeout
    }

    /// The HTTP client that commands to this decoder are sent with.
    pub fn client(&self) -> (client: &reqwest::Client)
        ensures
            *client == self.spec_client(),
    {
        &self.client
    }

    /// Builds the HTTP URL for a given operation, key, and mode.
    pub fn build_url(&self, operation: u8, key: u16, mode: u8) -> (url: String)
        ensures
            url@ == command_url(self.spec_socket(), operation, key, mode),
    {
        let mut s = String::new();
        s.append("http://");
        self.socket.push_text(&mut s);
        s.append("/remoteControl/cmd?operation=");
        push_decimal(&mut s, operation as u32);
        s.append("&key=");
        push_decimal(&mut s, key as u32);
        s.append("&mode=");
        push_decimal(&mut s, mode as u32);
        proof {
            assert(s@ =~= command_url(self.spec_socket(), operation, key, mode));
        }
        s
    }

    /// The URL of a status request (used by `infos` and `ping`).
    pub fn infos_url(&self) -> (url: String)
        ensures
            url@ == command_url(self.spec_socket(), OPERATION_READ_INFOS, 0, 0),
    {
        self.build_url(OPERATION_READ_INFOS, 0, 0)
    }

    /// The URL of a short press of the key with code `key`.
    pub fn press_url(&self, key: u16) -> (url: String)
        ensures
            url@ == command_url(self.spec_socket(), OPERATION_SEND_KEY, key, MODE_PRESS),
    {
        self.build_url(OPERATION_SEND_KEY, key, MODE_PRESS)
    }

    /// The URL of a hold of the key with code `key`.
    pub fn hold_url(&self, key: u16) -> (url: String)
        ensures
            url@ == command_url(self.spec_socket(), OPERATION_SEND_KEY, key, MODE_HOLD),
    {
        self.build_url(OPERATION_SEND_KEY, key, MODE_HOLD)
    }

    /// The URL of a release of the key with code `key`.
    pub fn release_url(&self, key: u16) -> (url: String)
        ensures
            url@ == command_url(self.spec_socket(), OPERATION_SEND_KEY, key, MODE_RELEASE),
    {
        self.build_url(OPERATION_SEND_KEY, key, MODE_RELEASE)
    }

    /// Interprets a decoded reply: its data when the decoder reports
    /// response code `"0"`, otherwise an `InvalidResponse` error that keeps
    /// the decoder's message.
    pub fn check_response<D>(&self, response: ApiResponse<D>) -> (res: Result<D, DecoderError>)
        ensures
            res is Ok <==> response.result.response_code@ == "0"@,
            res matches Ok(d) ==> d == response.result.data,
            res matches Err(e) ==> (e matches DecoderError::InvalidResponse(m) && m@
                == response.result.message@),
    {
        let result = response.result;
        if !str_eq(result.response_code.as_str(), "0") {
            return Err(DecoderError::InvalidResponse(result.message));
        }
        Ok(result.data)
    }
}

/// Entry point for connecting to or searching for decoders on the network.
pub struct Decoders;

impl Decoders {
    /// Opens a handle to the decoder at `ip:port`.
    ///
    /// This does not perform any network call.
    pub fn connect(ip: [u8; 4], port: u16) -> (decoder: Decoder)
        ensures
            decoder.spec_socket().spec_ip() == ip,
            decoder.spec_socket().spec_port() == port,
            decoder.spec_timeout() == DEFAULT_CLIENT_TIMEOUT_MS,
            client_timeout_ms(decoder.spec_client()) == DEFAULT_CLIENT_TIMEOUT_MS,
    {
        Decoder::new(ip, port)
    }

    /// Prepares a network scan over the given (inclusive) IP and port
    /// ranges, with the default timeout and concurrency.
    ///
    /// Use [`DecoderSearch::target`] and [`DecoderSearch::probe`] to walk
    /// the addresses it covers.
    pub fn search(ips: std::ops::RangeInclusive<[u8; 4]>, ports: std::ops::RangeInclusive<u16>) -> (search: DecoderSearch)
        ensures
            search.spec_ip_first() == ip_number(ips@.start),
            search.spec_ip_last() == ip_number(ips@.end),
            search.spec_port_first() == ports@.start,
            search.spec_port_last() == ports@.end,
            search.spec_timeout() == DEFAULT_CLIENT_TIMEOUT_MS,
            search.spec_concurrency() == DEFAULT_CONCURRENCY,
    {
        let (ip_start, ip_end) = range_bounds(ips);
        let (port_start, port_end) = range_bounds(ports);
        DecoderSearch::new(ip_to_u32(ip_start), ip_to_u32(ip_end), port_start, port_end)
    }
}

/// `RangeInclusive::into_inner`: the lower and upper (inclusive) bounds that
/// the range was built with.
#[verifier::external_body]
fn range_bounds<T>(range: std::ops::RangeInclusive<T>) -> (bounds: (T, T))
    ensures
        bounds.0 == range@.start,
        bounds.1 == range@.end,
{
    range.into_inner()
}

/// A configured network scan over a block of IPv4 addresses and ports.
///
/// The scan visits every address of the block, IPv4 addresses in ascending
/// order and, for each of them, ports in ascending order: target `k` of the
/// scan is the `k`-th address in that order.
#[derive(Debug, Clone, Copy)]
pub struct DecoderSearch {
    ip_first: u32,
    ip_last: u32,
    port_first: u16,
    port_last: u16,
    timeout: u64,
    concurrency: usize,
}

impl DecoderSearch {
    /// Number of the first IPv4 address of the scan.
    pub closed spec fn spec_ip_first(self) -> u32 {
        self.ip_first
    }

    /// Number of the last IPv4 address of the scan.
    pub closed spec fn spec_ip_last(self) -> u32 {
        self.ip_last
    }

    /// First port of the scan.
    pub closed spec fn spec_port_first(self) -> u16 {
        self.port_first
    }

    /// Last port of the scan.
    pub closed spec fn spec_port_last(self) -> u16 {
        self.port_last
    }

    /// Timeout of each probe, in milliseconds.
    pub closed spec fn spec_timeout(self) -> u64 {
        self.timeout
    }

    /// Maximum number of probes in flight at once.
    pub closed spec fn spec_concurrency(self) -> usize {
        self.concurrency
    }

    /// How many IPv4 addresses the scan covers (none when the range is
    /// reversed).
    pub open spec fn ip_count(self) -> nat {
        if self.spec_ip_first() <= self.spec_ip_last() {
            (self.spec_ip_last() - self.spec_ip_first() + 1) as nat
        } else {
            0
        }
    }

    /// How many ports the scan covers for each IPv4 address (none when the
    /// range is reversed).
    pub open spec fn port_count(self) -> nat {
        if self.spec_port_first() <= self.spec_port_last() {
            (self.spec_port_last() - self.spec_port_first() + 1) as nat
        } else {
            0
        }
    }

    /// How many addresses the scan probes.
    pub open spec fn spec_target_count(self) -> nat {
        self.ip_count() * self.port_count()
    }

    /// Number of the IPv4 address of target `k`.
    pub open spec fn target_ip(self, k: int) -> int {
        self.spec_ip_first() + k / (self.port_count() as int)
    }

    /// Port of target `k`.
    pub open spec fn target_port(self, k: int) -> int {
        self.spec_port_first() + k % (self.port_count() as int)
    }

    fn new(ip_first: u32, ip_last: u32, port_first: u16, port_last: u16) -> (search: DecoderSearch)
        ensures
            search.spec_ip_first() == ip_first,
            search.spec_ip_last() == ip_last,
            search.spec_port_first() == port_first,
            search.spec_port_last() == port_last,
            search.spec_timeout() == DEFAULT_CLIENT_TIMEOUT_MS,
            search.spec_concurrency() == DEFAULT_CONCURRENCY,
    {
        DecoderSearch {
            ip_first,
            ip_last,
            port_first,
            port_last,
            timeout: DEFAULT_CLIENT_TIMEOUT_MS,
            concurrency: DEFAULT_CONCURRENCY,
        }
    }

    /// Sets the timeout used when probing each address, in milliseconds.
    pub fn with_timeout(self, millis: u64) -> (search: DecoderSearch)
        ensures
            search.spec_ip_first() == self.spec_ip_first(),
            search.spec_ip_last() == self.spec_ip_last(),
            search.spec_port_first() == self.spec_port_first(),
            search.spec_port_last() == self.spec_port_last(),
            search.spec_timeout() == millis,
            search.spec_concurrency() == self.spec_concurrency(),
    {
        DecoderSearch { timeout: millis, ..self }
    }

    /// Sets the maximum number of concurrent probes during the scan.
    pub fn with_concurrency(self, concurrency: usize) -> (search: DecoderSearch)
        ensures
            search.spec_ip_first() == self.spec_ip_first(),
            search.spec_ip_last() == self.spec_ip_last(),
            search.spec_port_first() == self.spec_port_first(),
            search.spec_port_last() == self.spec_port_last(),
            search.spec_timeout() == self.spec_timeout(),
            search.spec_concurrency() == concurrency,
    {
        DecoderSearch { concurrency, ..self }
    }

    /// Timeout of each probe, in milliseconds.
    pub fn timeout(&self) -> (millis: u64)
        ensures
            millis == self.spec_timeout(),
    {
        self.timeout
    }

    /// Maximum number of probes in flight at once.
    pub fn concurrency(&self) -> (n: usize)
        ensures
            n == self.spec_concurrency(),
    {
        self.concurrency
    }

    /// How many addresses the scan probes.
    pub fn target_count(&self) -> (n: u64)
        ensures
            n == self.spec_target_count(),
    {
        if self.ip_last < self.ip_first || self.port_last < self.port_first {
            return 0;
        }
        let ips: u64 = (self.ip_last - self.ip_first) as u64 + 1;
        let ports: u64 = (self.port_last - self.port_first) as u64 + 1;
        assert(ips * ports <= 4294967296u64 * 65536u64) by (nonlinear_arith)
            requires
                ips <= 4294967296u64,
                ports <= 65536u64,
        ;
        ips * ports
    }

    /// The address of target `index`: the `index`-th address of the scan.
    pub fn target(&self, index: u64) -> (addr: Address)
        requires
            index < self.spec_target_count(),
        ensures
            addr.spec_ip() == ip_octets(self.target_ip(index as int) as u32),
            addr.spec_port() == self.target_port(index as int),
    {
        proof {
            if self.port_last < self.port_first || self.ip_last < self.ip_first {
                let a = self.ip_count();
                let b = self.port_count();
                assert(a * b == 0) by (nonlinear_arith)
                    requires
                        a == 0 || b == 0,
                ;
                assert(self.spec_target_count() == 0);
            }
        }
        let ports: u64 = (self.port_last - self.port_first) as u64 + 1;
        let q: u64 = index / ports;
        let r: u64 = index % ports;
        proof {
            let ips = self.ip_count() as int;
            let pc = ports as int;
            let k = index as int;
            assert(k / pc < ips) by (nonlinear_arith)
                requires
                    0 <= k < ips * pc,
                    pc > 0,
            ;
        }
        let ip: u32 = self.ip_first + q as u32;
        let port: u16 = self.port_first + r as u16;
        Address::new(u32_to_ip(ip), port)
    }

    /// A handle to target `index`, whose requests time out after the scan's
    /// probe timeout.
    pub fn probe(&self, index: u64) -> (decoder: Decoder)
        requires
            index < self.spec_target_count(),
        ensures
            decoder.spec_socket().spec_ip() == ip_octets(self.target_ip(index as int) as u32),
            decoder.spec_socket().spec_port() == self.target_port(index as int),
            decoder.spec_timeout() == self.spec_timeout(),
            client_timeout_ms(decoder.spec_client()) == self.spec_timeout(),
    {
        let addr = self.target(index);
        Decoder::new(addr.ip(), addr.port()).with_timeout(self.timeout)
    }
}

proof fn lemma_command_url_shape(addr: Address, operation: u8, key: u16, mode: u8)
    ensures
        command_url(addr, operation, key, mode) == ("http://"@ + addr.text()
            + "/remoteControl/cmd?operation="@) + (decimal(operation as nat) + ("&key="@ + (
        decimal(key as nat) + ("&mode="@ + decimal(mode as nat))))),
{
    let t = addr.text();
    assert(command_url(addr, operation, key, mode) =~= ("http://"@ + t
        + "/remoteControl/cmd?operation="@) + (decimal(operation as nat) + ("&key="@ + (decimal(
        key as nat,
    ) + ("&mode="@ + decimal(mode as nat))))));
}

proof fn lemma_cancel_prefix(p: Seq<char>, x: Seq<char>, y: Seq<char>)
    requires
        p + x == p + y,
    ensures
        x == y,
{
    assert(x =~= (p + x).subrange(p.len() as int, (p + x).len() as int));
    assert(y =~= (p + y).subrange(p.len() as int, (p + y).len() as int));
}

/// A command URL determines the command: two commands to the same decoder
/// are sent as the same URL only when their operation, key and mode are the
/// same.
pub proof fn lemma_command_url_injective(
    addr: Address,
    operation1: u8,
    key1: u16,
    mode1: u8,
    operation2: u8,
    key2: u16,
    mode2: u8,
)
    requires
        command_url(addr, operation1, key1, mode1) == command_url(addr, operation2, key2, mode2),
    ensures
        operation1 == operation2,
        key1 == key2,
        mode1 == mode2,
{
    reveal_strlit("&key=");
    reveal_strlit("&mode=");
    lemma_command_url_shape(addr, operation1, key1, mode1);
    lemma_command_url_shape(addr, operation2, key2, mode2);
    let head = "http://"@ + addr.text() + "/remoteControl/cmd?operation="@;
    let mode_text1 = "&mode="@ + decimal(mode1 as nat);
    let mode_text2 = "&mode="@ + decimal(mode2 as nat);
    let key_text1 = "&key="@ + (decimal(key1 as nat) + mode_text1);
    let key_text2 = "&key="@ + (decimal(key2 as nat) + mode_text2);
    lemma_cancel_prefix(
        head,
        decimal(operation1 as nat) + key_text1,
        decimal(operation2 as nat) + key_text2,
    );
    assert(key_text1[0] == '&');
    assert(key_text2[0] == '&');
    crate::text::lemma_decimal_prefix_unique(
        operation1 as nat,
        operation2 as nat,
        key_text1,
        key_text2,
    );
    lemma_cancel_prefix(
        "&key="@,
        decimal(key1 as nat) + mode_text1,
        decimal(key2 as nat) + mode_text2,
    );
    assert(mode_text1[0] == '&');
    assert(mode_text2[0] == '&');
    crate::text::lemma_decimal_prefix_unique(key1 as nat, key2 as nat, mode_text1, mode_text2);
    lemma_cancel_prefix("&mode="@, decimal(mode1 as nat), decimal(mode2 as nat));
    assert(decimal(mode1 as nat) + Seq::<char>::empty() =~= decimal(mode1 as nat));
    assert(decimal(mode2 as nat) + Seq::<char>::empty() =~= decimal(mode2 as nat));
    crate::text::lemma_decimal_prefix_unique(
        mode1 as nat,
        mode2 as nat,
        Seq::empty(),
        Seq::empty(),
    );
}

/// Both command forms send the same three parameters to the same host and
/// path: a decoder handle's command lists `operation`, `key`, `mode`, while
/// the optional-parameter form given all three lists `key`, `operation`,
/// `mode`.
pub proof fn lemma_command_urls_agree(addr: Address, key: u16, operation: Operation, mode: Mode)
    ensures
        ({
            let p = query_params(Some(key), Some(operation), Some(mode));
            let base = "http://"@ + addr.text() + "/remoteControl/cmd?"@;
            &&& p.len() == 3
            &&& query_url(addr.spec_ip(), addr.spec_port(), Some(key), Some(operation), Some(mode))
                == base + p[0] + seq!['&'] + p[1] + seq!['&'] + p[2]
            &&& command_url(addr, operation_value(operation), key, mode_value(mode)) == base + p[1]
                + seq!['&'] + p[0] + seq!['&'] + p[2]
        }),
{
    reveal_strlit("/remoteControl/cmd?");
    reveal_strlit("/remoteControl/cmd");
    reveal_strlit("/remoteControl/cmd?operation=");
    reveal_strlit("operation=");
    reveal_strlit("&key=");
    reveal_strlit("key=");
    reveal_strlit("&mode=");
    reveal_strlit("mode=");
    let p = query_params(Some(key), Some(operation), Some(mode));
    let base = "http://"@ + addr.text() + "/remoteControl/cmd?"@;
    let pk = "key="@ + decimal(key as nat);
    let po = "operation="@ + decimal(operation_value(operation) as nat);
    let pm = "mode="@ + decimal(mode_value(mode) as nat);
    assert(p =~= seq![pk, po, pm]);
    let one = seq![pk];
    let two = seq![pk, po];
    assert(two.drop_last() =~= one);
    assert(p.drop_last() =~= two);
    assert(join_params(one) == pk);
    assert(join_params(two) == join_params(one) + seq!['&'] + po);
    assert(join_params(p) == join_params(two) + seq!['&'] + pm);
    assert(join_params(p) =~= pk + seq!['&'] + po + seq!['&'] + pm);
    assert("/remoteControl/cmd"@ + seq!['?'] =~= "/remoteControl/cmd?"@);
    assert(addr.text() =~= ip_text(addr.spec_ip()) + seq![':'] + decimal(addr.spec_port() as nat));
    assert(query_url(addr.spec_ip(), addr.spec_port(), Some(key), Some(operation), Some(mode))
        =~= base + p[0] + seq!['&'] + p[1] + seq!['&'] + p[2]);
    assert("/remoteControl/cmd?operation="@ =~= "/remoteControl/cmd?"@ + "operation="@);
    assert("&key="@ =~= seq!['&'] + "key="@);
    assert("&mode="@ =~= seq!['&'] + "mode="@);
    assert(command_url(addr, operation_value(operation), key, mode_value(mode)) =~= base + p[1]
        + seq!['&'] + p[0] + seq!['&'] + p[2]);
}

/// The `Mode` and `Operation` enums send the same parameters as the
/// decoder handle's commands: press, hold and release modes, the key
/// operation and the status operation.
pub proof fn lemma_mode_operation_parameters_agree()
    ensures
        mode_value(Mode::Press) == MODE_PRESS,
        mode_value(Mode::Hold) == MODE_HOLD,
        mode_value(Mode::Release) == MODE_RELEASE,
        operation_value(Operation::SendKey) == OPERATION_SEND_KEY,
        operation_value(Operation::ReadInfos) == OPERATION_READ_INFOS,
{
}

/// A scan of `a.b.c.x..=a.b.c.y` with `x <= y` covers `y - x + 1` addresses
/// for each port, and its target `k` is `a.b.c.(x + k / ports)` on port
/// `first port + k % ports`.
pub proof fn lemma_scan_of_subnet(search: DecoderSearch, first: [u8; 4], last: [u8; 4], k: int)
    requires
        search.spec_ip_first() == ip_number(first),
        search.spec_ip_last() == ip_number(last),
        first[0] == last[0],
        first[1] == last[1],
        first[2] == last[2],
        first[3] <= last[3],
        0 <= k < search.spec_target_count(),
    ensures
        search.ip_count() == last[3] - first[3] + 1,
        search.spec_target_count() == (last[3] - first[3] + 1) * search.port_count(),
        ip_octets(search.target_ip(k) as u32) =~= [
            first[0],
            first[1],
            first[2],
            (first[3] + k / (search.port_count() as int)) as u8,
        ],
        search.target_port(k) == search.spec_port_first() + k % (search.port_count() as int),
{
    crate::addr::lemma_ip_number_last_octet(first, last);
    lemma_scan_targets_in_block(search, k);
    let q = k / (search.port_count() as int);
    crate::addr::lemma_ip_octets_step(first, q);
}

/// Every target of a scan lies in the scanned block of addresses.
pub proof fn lemma_scan_targets_in_block(search: DecoderSearch, k: int)
    requires
        0 <= k < search.spec_target_count(),
    ensures
        search.spec_ip_first() <= search.target_ip(k) <= search.spec_ip_last(),
        search.spec_port_first() <= search.target_port(k) <= search.spec_port_last(),
{
    let ips = search.ip_count() as int;
    let ports = search.port_count() as int;
    assert(ips > 0 && ports > 0) by (nonlinear_arith)
        requires
            0 <= k < ips * ports,
            ips >= 0,
            ports >= 0,
    ;
    assert(0 <= k / ports < ips && 0 <= k % ports < ports) by (nonlinear_arith)
        requires
            0 <= k < ips * ports,
            ports > 0,
    ;
}

/// Every address of the scanned block is a target of the scan.
pub proof fn lemma_scan_covers_block(search: DecoderSearch, ip: u32, port: u16)
    requires
        search.spec_ip_first() <= ip <= search.spec_ip_last(),
        search.spec_port_first() <= port <= search.spec_port_last(),
    ensures
        exists|k: int|
            0 <= k < search.spec_target_count() && search.target_ip(k) == ip && search.target_port(
                k,
            ) == port,
{
    let ips = search.ip_count() as int;
    let ports = search.port_count() as int;
    let q = ip - search.spec_ip_first();
    let r = port - search.spec_port_first();
    let k = q * ports + r;
    assert(0 <= k < ips * ports && k / ports == q && k % ports == r) by (nonlinear_arith)
        requires
            0 <= q < ips,
            0 <= r < ports,
            k == q * ports + r,
    ;
    assert(search.target_ip(k) == ip && search.target_port(k) == port);
}

/// A scan visits its targets in order: IPv4 addresses ascending and, for
/// each address, ports ascending. In particular no address is probed twice.
pub proof fn lemma_scan_order(search: DecoderSearch, j: int, k: int)
    requires
        0 <= j < k < search.spec_target_count(),
    ensures
        search.target_ip(j) < search.target_ip(k) || (search.target_ip(j) == search.target_ip(k)
            && search.target_port(j) < search.target_port(k)),
{
    let ips = search.ip_count() as int;
    let ports = search.port_count() as int;
    assert(ports > 0) by (nonlinear_arith)
        requires
            0 <= k < ips * ports,
            ips >= 0,
            ports >= 0,
    ;
    assert(j / ports < k / ports || (j / ports == k / ports && j % ports < k % ports))
        by (nonlinear_arith)
        requires
            0 <= j < k,
            ports > 0,
    ;
}

} // verus!
