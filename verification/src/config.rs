//! Ports, addresses and the record of shared state.

use crate::db::{default_encoder_settings, is_default_settings, EncoderSettings};
use crate::rtmp::encoder::EncoderState;
use crate::rtmp::relay::{RelayHandle, RelayTable};
use crate::text::texts;
use vstd::prelude::*;
use vstd::string::*;
use vstd::utf8::*;

verus! {

/// The two ports the node listens on.
#[derive(Debug, Clone, Copy, PartialEq, Eq, Structural)]
pub struct PortInfo {
    pub rtmp_port: u16,
    pub file_port: u16,
}

/// What a user interface needs to show where the node listens.
#[derive(Debug, Clone)]
pub struct StartUpData {
    pub ports: PortInfo,
    pub ips: Vec<String>,
}

/// Whether a connection becomes the session or is turned away.
#[derive(Debug, Clone, Copy, PartialEq, Eq, Structural)]
pub enum Admission {
    /// No session was running: this connection is it.
    Accept,
    /// A session runs already: the socket is closed at once.
    Reject,
}

/// Which servers are up, and whether a publisher is being served.
#[derive(Debug, Clone, Copy, PartialEq, Eq, Structural)]
pub struct Readiness {
    pub rtmp_ready: bool,
    pub file_ready: bool,
    pub rtmp_active: bool,
}

impl Readiness {
    /// Nothing is up and nobody publishes.
    pub fn new() -> (readiness: Self)
        ensures
            readiness == (Readiness { rtmp_ready: false, file_ready: false, rtmp_active: false }),
    {
        Readiness { rtmp_ready: false, file_ready: false, rtmp_active: false }
    }

    /// Whether both servers are up.
    pub fn is_ready(&self) -> (ready: bool)
        ensures
            ready == (self.rtmp_ready && self.file_ready),
    {
        self.rtmp_ready && self.file_ready
    }

    /// The verdict on a connection that arrives while `active` says whether
    /// a session runs.
    pub open spec fn verdict(active: bool) -> Admission {
        if active {
            Admission::Reject
        } else {
            Admission::Accept
        }
    }

    /// Decides on a connection that was just accepted from the listener. It
    /// becomes the session unless one runs already; either way a session
    /// runs afterwards.
    pub fn try_enter(&mut self) -> (admission: Admission)
        ensures
            admission == Self::verdict(old(self).rtmp_active),
            final(self).rtmp_active,
            final(self).rtmp_ready == old(self).rtmp_ready,
            final(self).file_ready == old(self).file_ready,
    {
        let was_active = self.rtmp_active;
        self.rtmp_active = true;
        if was_active {
            Admission::Reject
        } else {
            Admission::Accept
        }
    }

    /// Notes that the session is over, however it ended.
    pub fn release(&mut self)
        ensures
            !final(self).rtmp_active,
            final(self).rtmp_ready == old(self).rtmp_ready,
            final(self).file_ready == old(self).file_ready,
    {
        self.rtmp_active = false;
    }
}

/// The verdicts on `count` connections that arrive one after another with
/// no session ending in between, the first of them while `active` says
/// whether a session runs.
pub open spec fn verdicts(active: bool, count: nat) -> Seq<Admission>
    decreases count,
{
    if count == 0 {
        Seq::empty()
    } else {
        seq![Readiness::verdict(active)] + verdicts(true, (count - 1) as nat)
    }
}

/// Of any number of connections that arrive while no session runs, the
/// first is accepted and every other one is rejected on arrival.
pub proof fn one_connection_is_admitted(count: nat)
    ensures
        verdicts(false, count).len() == count,
        forall|i: int|
            0 <= i < count ==> #[trigger] verdicts(false, count)[i] == if i == 0 {
                Admission::Accept
            } else {
                Admission::Reject
            },
{
    lemma_verdicts_while_active(count);
    if count > 0 {
        lemma_verdicts_while_active((count - 1) as nat);
    }
}

/// While a session runs every connection is rejected.
proof fn lemma_verdicts_while_active(count: nat)
    ensures
        verdicts(false, count).len() == count,
        verdicts(true, count).len() == count,
        forall|i: int| 0 <= i < count ==> #[trigger] verdicts(true, count)[i] == Admission::Reject,
    decreases count,
{
    if count > 0 {
        lemma_verdicts_while_active((count - 1) as nat);
    }
}

/// The RTMP port of a node that has none stored is the first free one from
/// here on.
pub const DEFAULT_RTMP_PORT: u16 = 1580;

/// The file-server port of a node that has none stored is the first free
/// one from here on.
pub const DEFAULT_FILE_PORT: u16 = 8787;

/// The first port from `start_port` on that `can_bind` accepts. Every port
/// before it was tried in ascending order and refused. `None` if every port
/// up to 65535 was refused.
pub fn find_available_port<F: Fn(u16) -> bool>(start_port: u16, can_bind: &F) -> (found: Option<u16>)
    requires
        forall|port: u16| call_requires(can_bind, (port,)),
    ensures
        match found {
            Some(port) => {
                &&& start_port <= port
                &&& call_ensures(can_bind, (port,), true)
                &&& forall|p: u16| start_port <= p < port ==> call_ensures(can_bind, (p,), false)
            },
            None => forall|p: u16| start_port <= p ==> call_ensures(can_bind, (p,), false),
        },
{
    let mut port: u16 = start_port;
    loop
        invariant
            start_port <= port,
            forall|p: u16| call_requires(can_bind, (p,)),
            forall|p: u16| start_port <= p < port ==> call_ensures(can_bind, (p,), false),
        decreases 0xFFFF - port,
    {
        if can_bind(port) {
            return Some(port);
        }
        if port == 0xFFFF {
            return None;
        }
        port = port + 1;
    }
}

/// Where the ports of the node come from.
#[derive(Debug, Clone, Copy, PartialEq, Eq, Structural)]
pub enum PortsDecision {
    /// They were stored by an earlier run and are used again.
    Stored(PortInfo),
    /// They were found free just now and are to be stored.
    Found(PortInfo),
    /// No free port was left for one of the two servers.
    Exhausted,
}

/// The ports of the node: those that are stored, or else the first free
/// RTMP port from 1580 on and the first free file-server port from 8787 on.
pub fn get_or_init_ports<F: Fn(u16) -> bool>(stored: Option<PortInfo>, can_bind: &F) -> (decision:
    PortsDecision)
    requires
        forall|port: u16| call_requires(can_bind, (port,)),
    ensures
        stored matches Some(ports) ==> decision == PortsDecision::Stored(ports),
        stored is None ==> match decision {
            PortsDecision::Found(ports) => {
                &&& DEFAULT_RTMP_PORT <= ports.rtmp_port
                &&& DEFAULT_FILE_PORT <= ports.file_port
                &&& call_ensures(can_bind, (ports.rtmp_port,), true)
                &&& call_ensures(can_bind, (ports.file_port,), true)
                &&& forall|p: u16|
                    DEFAULT_RTMP_PORT <= p < ports.rtmp_port ==> call_ensures(can_bind, (p,), false)
                &&& forall|p: u16|
                    DEFAULT_FILE_PORT <= p < ports.file_port ==> call_ensures(can_bind, (p,), false)
            },
            PortsDecision::Exhausted => {
                ||| forall|p: u16| DEFAULT_RTMP_PORT <= p ==> call_ensures(can_bind, (p,), false)
                ||| forall|p: u16| DEFAULT_FILE_PORT <= p ==> call_ensures(can_bind, (p,), false)
            },
            PortsDecision::Stored(_) => false,
        },
{
    match stored {
        Some(ports) => PortsDecision::Stored(ports),
        None => {
            let rtmp_port = match find_available_port(DEFAULT_RTMP_PORT, can_bind) {
                Some(port) => port,
                None => {
                    return PortsDecision::Exhausted;
                },
            };
            let file_port = match find_available_port(DEFAULT_FILE_PORT, can_bind) {
                Some(port) => port,
                None => {
                    return PortsDecision::Exhausted;
                },
            };
            PortsDecision::Found(PortInfo { rtmp_port, file_port })
        },
    }
}

/// At most this many addresses are shown.
pub const MAX_IPS: usize = 3;

/// One address of a network interface, as text, with its family.
#[derive(Debug, Clone)]
pub struct InterfaceAddress {
    pub is_ipv4: bool,
    pub text: String,
}

/// The IPv4 addresses among `found`, in their order, up to `limit` of them.
pub open spec fn first_ipv4(found: Seq<InterfaceAddress>, limit: nat) -> Seq<Seq<char>>
    decreases found.len(),
{
    if found.len() == 0 {
        Seq::empty()
    } else {
        let before = first_ipv4(found.drop_last(), limit);
        if found.last().is_ipv4 && before.len() < limit {
            before.push(found.last().text@)
        } else {
            before
        }
    }
}

/// Lists the addresses of this machine's interfaces with
/// `get_if_addrs::get_if_addrs`, each with the family and the text of
/// `Interface::ip`; `None` if the system refused. What is found depends on
/// the machine: nothing is claimed of it.
#[verifier::external_body]
fn interface_addresses() -> (found: Option<Vec<InterfaceAddress>>) {
    let interfaces = get_if_addrs::get_if_addrs().ok()?;
    Some(
        interfaces.iter().map(
            |interface| InterfaceAddress {
                is_ipv4: interface.ip().is_ipv4(),
                text: interface.ip().to_string(),
            },
        ).collect(),
    )
}

/// Picks the addresses to show: the first three IPv4 addresses.
pub fn select_addresses(found: &Vec<InterfaceAddress>) -> (ips: Vec<String>)
    ensures
        texts(ips@) == first_ipv4(found@, MAX_IPS as nat),
{
    let mut ips: Vec<String> = Vec::new();
    let mut i: usize = 0;
    assert(found@.subrange(0, 0) =~= Seq::<InterfaceAddress>::empty());
    while i < found.len()
        invariant
            i <= found.len(),
            texts(ips@) == first_ipv4(found@.subrange(0, i as int), MAX_IPS as nat),
        decreases found.len() - i,
    {
        let ghost before = ips@;
        assert(found@.subrange(0, i + 1).drop_last() =~= found@.subrange(0, i as int));
        if found[i].is_ipv4 && ips.len() < MAX_IPS {
            ips.push(found[i].text.clone());
            assert(texts(ips@) =~= texts(before).push(found@[i as int].text@));
        }
        i = i + 1;
    }
    assert(found@.subrange(0, found.len() as int) =~= found@);
    ips
}

/// The addresses under which this machine can be reached: up to three IPv4
/// addresses of its interfaces. `None` if they cannot be listed.
pub fn get_ip_addresses() -> (ips: Option<Vec<String>>)
    ensures
        ips matches Some(list) ==> list@.len() <= MAX_IPS,
{
    match interface_addresses() {
        Some(found) => {
            let list = select_addresses(&found);
            proof {
                lemma_first_ipv4_len(found@, MAX_IPS as nat);
            }
            Some(list)
        },
        None => None,
    }
}

proof fn lemma_first_ipv4_len(found: Seq<InterfaceAddress>, limit: nat)
    ensures
        first_ipv4(found, limit).len() <= limit,
    decreases found.len(),
{
    if found.len() > 0 {
        lemma_first_ipv4_len(found.drop_last(), limit);
    }
}

/// The state that the tasks of the node share. `P` and `T` are a relay's
/// process and writer task, `S` the sender that feeds a relay, `C` the
/// encoder's process and `W` the writable end of its input.
#[derive(Debug)]
pub struct AppState<P, T, S, C, W> {
    pub readiness: Readiness,
    pub source_active: bool,
    pub ports: PortInfo,
    pub relays: RelayTable<P, T, S>,
    pub encoder: EncoderState<C, W>,
    pub encoder_settings: EncoderSettings,
}

impl<P, T, S, C, W> AppState<P, T, S, C, W> {
    /// The state of a node that just started: nothing is up, nobody
    /// publishes, no relay runs, and the settings are the default ones.
    pub fn new(rtmp_port: u16, file_port: u16) -> (state: Self)
        ensures
            state.readiness == (Readiness {
                rtmp_ready: false,
                file_ready: false,
                rtmp_active: false,
            }),
            !state.source_active,
            state.ports == (PortInfo { rtmp_port, file_port }),
            state.relays.relays@ == Map::<i64, RelayHandle<P, T>>::empty(),
            state.relays.relay_channels@ == Map::<i64, S>::empty(),
            state.relays.wf(),
            state.encoder.process is None,
            state.encoder.stdin is None,
            state.encoder.sequence_headers@.len() == 0,
            is_default_settings(state.encoder_settings),
    {
        AppState {
            readiness: Readiness::new(),
            source_active: false,
            ports: PortInfo { rtmp_port, file_port },
            relays: RelayTable::new(),
            encoder: EncoderState::new(),
            encoder_settings: default_encoder_settings(),
        }
    }

    /// Whether both servers are up.
    pub fn is_ready(&self) -> (ready: bool)
        ensures
            ready == (self.readiness.rtmp_ready && self.readiness.file_ready),
    {
        self.readiness.is_ready()
    }

    /// Takes in what the store holds for this node: its ports, and its
    /// encoder settings if it has any. Without stored settings the default
    /// ones apply.
    pub fn configure(&mut self, ports: PortInfo, stored_settings: Option<EncoderSettings>)
        ensures
            final(self).ports == ports,
            match stored_settings {
                Some(settings) => final(self).encoder_settings == settings,
                None => is_default_settings(final(self).encoder_settings),
            },
            final(self).readiness == old(self).readiness,
            final(self).source_active == old(self).source_active,
            final(self).relays == old(self).relays,
            final(self).encoder == old(self).encoder,
    {
        self.ports = ports;
        self.encoder_settings = match stored_settings {
            Some(settings) => settings,
            None => default_encoder_settings(),
        };
    }

    /// Files the sender of relay `id`, in place of any earlier one.
    pub fn register_relay_channel(&mut self, id: i64, tx: S)
        ensures
            final(self).relays.relay_channels@ == old(self).relays.relay_channels@.insert(id, tx),
            final(self).relays.relays == old(self).relays.relays,
            final(self).readiness == old(self).readiness,
            final(self).source_active == old(self).source_active,
            final(self).ports == old(self).ports,
            final(self).encoder == old(self).encoder,
            final(self).encoder_settings == old(self).encoder_settings,
    {
        self.relays.register_relay_channel(id, tx);
    }

    /// Drops the sender of relay `id`, if there is one.
    pub fn unregister_relay_channel(&mut self, id: i64)
        ensures
            final(self).relays.relay_channels@ == old(self).relays.relay_channels@.remove(id),
            final(self).relays.relays == old(self).relays.relays,
            final(self).readiness == old(self).readiness,
            final(self).source_active == old(self).source_active,
            final(self).ports == old(self).ports,
            final(self).encoder == old(self).encoder,
            final(self).encoder_settings == old(self).encoder_settings,
    {
        self.relays.unregister_relay_channel(id);
    }
}

/// The directory, below the data directory, that holds the playlist and
/// its segments.
pub fn hls_output_dir_name() -> (name: &'static str)
    ensures
        name@ == "./hls_output"@,
{
    "./hls_output"
}

/// The directory, below the data directory, that holds the logs of the
/// child processes.
pub fn log_output_dir_name() -> (name: &'static str)
    ensures
        name@ == "./logs"@,
{
    "./logs"
}

/// The name of the playlist inside the HLS output directory.
pub fn hls_playlist_name() -> (name: &'static str)
    ensures
        name@ == "playlist.m3u8"@,
{
    "playlist.m3u8"
}

/// The name of the store's file inside the data directory.
pub fn database_file_name() -> (name: &'static str)
    ensures
        name@ == "app.sqlite"@,
{
    "app.sqlite"
}

/// The address of the store at `path`: opened for reading and writing, and
/// created if it is not there.
pub open spec fn database_url_text(path: Seq<char>) -> Seq<char> {
    "sqlite://"@ + path + "?mode=rwc"@
}

pub fn database_url(path: &str) -> (url: String)
    ensures
        url@ == database_url_text(path@),
{
    let mut url = String::from_str("sqlite://");
    url.append(path);
    url.append("?mode=rwc");
    url
}

/// How many bytes of a key stay readable.
pub const VISIBLE_KEY_BYTES: usize = 4;

/// `n` asterisks.
pub open spec fn stars(n: nat) -> Seq<char> {
    Seq::new(n, |i: int| '*')
}

/// Whether a key can be masked: the cut before its last four bytes must not
/// fall inside a character.
pub open spec fn maskable(key: Seq<char>) -> bool {
    let bytes = encode_utf8(key);
    bytes.len() > 4 ==> is_char_boundary(bytes, bytes.len() - 4)
}

/// A key with all but its last four bytes replaced, byte for byte, by
/// asterisks. A key of four bytes or fewer is replaced entirely.
pub open spec fn masked(key: Seq<char>) -> Seq<char> {
    let bytes = encode_utf8(key);
    if bytes.len() <= 4 {
        stars(bytes.len())
    } else {
        stars((bytes.len() - 4) as nat) + decode_utf8(
            bytes.subrange(bytes.len() - 4, bytes.len() as int),
        )
    }
}

/// Tells whether a key can be masked.
pub fn can_mask(key: &str) -> (possible: bool)
    ensures
        possible == maskable(key@),
{
    let len = key.as_bytes().len();
    len <= VISIBLE_KEY_BYTES || key.is_char_boundary(len - VISIBLE_KEY_BYTES)
}

/// Hides a stream key but for its last four bytes.
pub fn mask_key(key: &str) -> (shown: String)
    requires
        maskable(key@),
    ensures
        shown@ == masked(key@),
{
    broadcast use encode_utf8_decode_utf8;

    let len = key.as_bytes().len();
    let mut shown = String::new();
    let hidden: usize = if len <= VISIBLE_KEY_BYTES {
        len
    } else {
        len - VISIBLE_KEY_BYTES
    };
    let mut i: usize = 0;
    while i < hidden
        invariant
            i <= hidden,
            shown@ == stars(i as nat),
        decreases hidden - i,
    {
        proof {
            reveal_strlit("*");
        }
        shown.append("*");
        i = i + 1;
        assert(shown@ =~= stars(i as nat));
    }
    if len > VISIBLE_KEY_BYTES {
        let (_, visible) = key.split_at(len - VISIBLE_KEY_BYTES);
        shown.append(visible);
    }
    shown
}

/// An ASCII key can always be masked, and what stays readable is its last
/// four characters.
pub proof fn masked_ascii(key: Seq<char>)
    requires
        is_ascii_chars(key),
    ensures
        maskable(key),
        key.len() <= 4 ==> masked(key) == stars(key.len()),
        key.len() > 4 ==> masked(key) == stars((key.len() - 4) as nat) + key.subrange(
            key.len() - 4,
            key.len() as int,
        ),
{
    let bytes = encode_utf8(key);
    is_ascii_chars_encode_utf8(key);
    encode_utf8_valid_utf8(key);
    if key.len() > 4 {
        let cut = key.len() - 4;
        let tail = key.subrange(cut, key.len() as int);
        let b = bytes[cut];
        assert(key[cut] as u8 == b);
        assert(b < 128);
        assert(!is_continuation_byte(b)) by (bit_vector)
            requires
                b < 128,
        ;
        is_char_boundary_iff_not_is_continuation_byte(bytes, cut);
        assert(is_ascii_chars(tail));
        is_ascii_chars_encode_utf8(tail);
        assert(encode_utf8(tail) =~= bytes.subrange(cut, bytes.len() as int)) by {
            assert forall|i: int| 0 <= i < 4 implies encode_utf8(tail)[i] == bytes[cut + i] by {
                assert(tail[i] == key[cut + i]);
            }
        }
        encode_utf8_decode_utf8(tail);
    }
}

} // verus!
