//! A port scan as a state machine: the session decides what to announce and
//! what to report; the caller performs the connections, the waiting and the
//! message passing, and hands back what it observed.

use vstd::prelude::*;
use crate::ports::{get_service_name, service_name};
use crate::port_list::strictly_increasing;
use crate::text::{decimal, push_char, push_decimal, push_str_chars, push_two_digits, two_digits};

verus! {

/// Where a scan stands, as shown to the user.
#[derive(Clone, Debug)]
pub struct ScanProgress {
    /// The port being probed (the first port before any probe).
    pub current_port: u16,
    /// How many ports the scan covers.
    pub total_ports: u16,
    /// How many ports have been announced so far.
    pub scanned: u16,
    /// How many probed ports were found open.
    pub open_ports: u16,
    /// Whether the scan is running.
    pub is_scanning: bool,
    /// The name of the scanned host, or a label saying why there is none.
    pub hostname: String,
}

impl ScanProgress {
    /// The progress of a scan that has not started: every count is zero.
    pub fn idle() -> (p: ScanProgress)
        ensures
            p.current_port == 0,
            p.total_ports == 0,
            p.scanned == 0,
            p.open_ports == 0,
            !p.is_scanning,
            p.hostname@ == Seq::<char>::empty(),
    {
        ScanProgress {
            current_port: 0,
            total_ports: 0,
            scanned: 0,
            open_ports: 0,
            is_scanning: false,
            hostname: String::new(),
        }
    }

    /// A copy of this progress.
    pub fn duplicate(&self) -> (p: ScanProgress)
        ensures
            p == *self,
    {
        ScanProgress {
            current_port: self.current_port,
            total_ports: self.total_ports,
            scanned: self.scanned,
            open_ports: self.open_ports,
            is_scanning: self.is_scanning,
            hostname: self.hostname.clone(),
        }
    }
}

/// A port found open.
#[derive(Clone, Debug)]
pub struct ScanResult {
    /// The open port.
    pub port: u16,
    /// The name of the service usually found on that port.
    pub service: String,
    /// What the service sent first, or a note that it sent nothing.
    pub banner: String,
    /// When the port was found open, as `HH:MM:SS`.
    pub timestamp: String,
    /// Whether the port is open.
    pub is_open: bool,
}

impl ScanResult {
    /// A copy of this result.
    pub fn duplicate(&self) -> (r: ScanResult)
        ensures
            r == *self,
    {
        ScanResult {
            port: self.port,
            service: self.service.clone(),
            banner: self.banner.clone(),
            timestamp: self.timestamp.clone(),
            is_open: self.is_open,
        }
    }
}

/// What a running scan tells the interface.
#[derive(Clone, Debug)]
pub enum ScanMessage {
    /// The scan moved on.
    Progress(ScanProgress),
    /// A port was found open.
    Result(ScanResult),
    /// The scan is over.
    Complete,
    /// The scan failed.
    Error(String),
}

impl ScanMessage {
    /// A copy of this message.
    pub fn duplicate(&self) -> (m: ScanMessage)
        ensures
            m == *self,
    {
        match self {
            ScanMessage::Progress(p) => ScanMessage::Progress(p.duplicate()),
            ScanMessage::Result(r) => ScanMessage::Result(r.duplicate()),
            ScanMessage::Complete => ScanMessage::Complete,
            ScanMessage::Error(e) => ScanMessage::Error(e.clone()),
        }
    }
}

/// The text of the port-open note used when a service sends no banner.
pub open spec fn no_banner_note() -> Seq<char> {
    "Port ouvert, pas de bannière détectée"@
}

/// What decoding `bytes` as UTF-8, replacing each invalid sequence with
/// U+FFFD, gives.
pub uninterp spec fn utf8_lossy(bytes: Seq<u8>) -> Seq<char>;

/// Decodes `bytes` as UTF-8, replacing invalid sequences.
///
/// Trusted: wraps `String::from_utf8_lossy`. Its result depends on the bytes
/// alone and is named `utf8_lossy`; as documented, valid UTF-8 decodes to
/// exactly the characters it encodes. What it gives for invalid input (where
/// the replacement characters go) is left unsaid.
#[verifier::external_body]
fn decode_lossy(bytes: &[u8]) -> (s: String)
    ensures
        s@ == utf8_lossy(bytes@),
        vstd::utf8::valid_utf8(bytes@) ==> s@ == vstd::utf8::decode_utf8(bytes@),
{
    String::from_utf8_lossy(bytes).into_owned()
}

/// The banner shown for an open port, from the bytes first read from it: the
/// bytes decoded as UTF-8 when there are any, the no-banner note otherwise.
pub fn open_port_banner(received: &[u8]) -> (banner: String)
    ensures
        received@.len() > 0 ==> banner@ == utf8_lossy(received@),
        received@.len() > 0 && vstd::utf8::valid_utf8(received@) ==> banner@
            == vstd::utf8::decode_utf8(received@),
        received@.len() == 0 ==> banner@ == no_banner_note(),
{
    if received.len() > 0 {
        decode_lossy(received)
    } else {
        "Port ouvert, pas de bannière détectée".to_string()
    }
}

/// The `host:port` text a connection is made to.
pub open spec fn socket_address_text(host: Seq<char>, port: u16) -> Seq<char> {
    host + seq![':'] + decimal(port as nat)
}

/// The `host:port` text a connection is made to.
pub fn socket_address(host: &str, port: u16) -> (addr: String)
    ensures
        addr@ == socket_address_text(host@, port),
{
    let mut addr = String::new();
    push_str_chars(&mut addr, host);
    push_char(&mut addr, ':');
    push_decimal(&mut addr, port as u64);
    addr
}

/// The time of day of `now_secs` seconds after the epoch, as `HH:MM:SS`.
pub open spec fn clock_text_of(now_secs: nat) -> Seq<char> {
    two_digits((now_secs / 3600) % 24) + seq![':'] + two_digits((now_secs / 60) % 60) + seq![
        ':',
    ] + two_digits(now_secs % 60)
}

/// The time stamp given to a result found `now_secs` seconds after the epoch.
pub fn clock_text(now_secs: u64) -> (t: String)
    ensures
        t@ == clock_text_of(now_secs as nat),
{
    let mut t = String::new();
    push_two_digits(&mut t, (now_secs / 3600) % 24);
    push_char(&mut t, ':');
    push_two_digits(&mut t, (now_secs / 60) % 60);
    push_char(&mut t, ':');
    push_two_digits(&mut t, now_secs % 60);
    t
}

/// What became of the attempt to name the scanned host.
pub enum HostLookup {
    /// The target is not an IP address.
    InvalidAddress,
    /// The address has no name.
    Unresolved,
    /// The address is named so.
    Resolved(String),
}

/// The host label a scan reports for `lookup`.
pub open spec fn host_label_of(lookup: HostLookup) -> Seq<char> {
    match lookup {
        HostLookup::InvalidAddress => "Adresse invalide"@,
        HostLookup::Unresolved => "Non résolu"@,
        HostLookup::Resolved(name) => name@,
    }
}

/// The host label a scan reports: the host's name, or why there is none.
pub fn host_label(lookup: HostLookup) -> (label: String)
    ensures
        label@ == host_label_of(lookup),
{
    match lookup {
        HostLookup::InvalidAddress => "Adresse invalide".to_string(),
        HostLookup::Unresolved => "Non résolu".to_string(),
        HostLookup::Resolved(name) => name,
    }
}

/// A scan of a list of ports, one at a time, in increasing order.
pub struct ScanSession {
    ports: Vec<u16>,
    next: usize,
    probing: bool,
    finished: bool,
    progress: ScanProgress,
}

impl ScanSession {
    /// The ports the scan covers, in the order they are probed.
    pub closed spec fn ports_of(&self) -> Seq<u16> {
        self.ports@
    }

    /// How many ports have been announced: the position in `ports_of` of the
    /// next port to announce.
    pub closed spec fn next_index(&self) -> int {
        self.next as int
    }

    /// Whether a port was announced and awaits the outcome of its probe.
    pub closed spec fn is_probing(&self) -> bool {
        self.probing
    }

    /// Whether the scan is over.
    pub closed spec fn is_finished(&self) -> bool {
        self.finished
    }

    /// The progress the session reports.
    pub closed spec fn progress_of(&self) -> ScanProgress {
        self.progress
    }

    /// The session's invariant.
    pub closed spec fn wf(&self) -> bool {
        &&& strictly_increasing(self.ports@)
        &&& 0 < self.ports@.len() <= u16::MAX
        &&& self.next <= self.ports@.len()
        &&& self.progress.total_ports == self.ports@.len()
        &&& self.progress.scanned == self.next
        &&& self.progress.current_port == (if self.next == 0 {
            self.ports@[0]
        } else {
            self.ports@[self.next - 1]
        })
        &&& self.progress.open_ports + (if self.probing {
            1int
        } else {
            0
        }) <= self.progress.scanned
        &&& self.probing ==> !self.finished && self.next > 0
        &&& self.progress.is_scanning
    }

    /// Every well-formed session counts at most as many open ports as ports
    /// announced and announces at most the ports it covers; the ports left
    /// to announce are exactly the unannounced ones; the port it reports is
    /// one it covers; and its progress says the scan runs.
    pub proof fn lemma_progress_bounded(&self)
        requires
            self.wf(),
        ensures
            self.progress_of().open_ports <= self.progress_of().scanned
                <= self.progress_of().total_ports,
            self.progress_of().total_ports == self.ports_of().len(),
            self.ports_of().len() - self.next_index() == self.progress_of().total_ports
                - self.progress_of().scanned,
            self.ports_of().contains(self.progress_of().current_port),
            self.progress_of().is_scanning,
    {
        if self.next == 0 {
            assert(self.ports@[0] == self.progress.current_port);
        } else {
            assert(self.ports@[self.next - 1] == self.progress.current_port);
        }
    }

    /// Starts a scan of `ports` on the host labelled `hostname`, and gives the
    /// progress message to send first.
    pub fn start(ports: Vec<u16>, hostname: String) -> (r: (ScanSession, ScanMessage))
        requires
            strictly_increasing(ports@),
            0 < ports@.len() <= u16::MAX,
        ensures
            r.0.wf(),
            r.0.ports_of() == ports@,
            r.0.next_index() == 0,
            !r.0.is_probing(),
            !r.0.is_finished(),
            r.0.progress_of().current_port == ports@[0],
            r.0.progress_of().total_ports == ports@.len(),
            r.0.progress_of().scanned == 0,
            r.0.progress_of().open_ports == 0,
            r.0.progress_of().is_scanning,
            r.0.progress_of().hostname@ == hostname@,
            r.1 == ScanMessage::Progress(r.0.progress_of()),
    {
        let progress = ScanProgress {
            current_port: ports[0],
            total_ports: ports.len() as u16,
            scanned: 0,
            open_ports: 0,
            is_scanning: true,
            hostname,
        };
        let msg = ScanMessage::Progress(progress.duplicate());
        let session = ScanSession { ports, next: 0, probing: false, finished: false, progress };
        (session, msg)
    }

    /// The progress the session reports.
    pub fn progress(&self) -> (p: &ScanProgress)
        ensures
            *p == self.progress_of(),
    {
        &self.progress
    }

    /// Whether the scan is over.
    pub fn finished(&self) -> (b: bool)
        ensures
            b == self.is_finished(),
    {
        self.finished
    }

    /// Moves to the next port. When the scan is over, every port has been
    /// announced or a stop was requested, the scan ends and `Complete` is
    /// returned; otherwise the next port is announced by a progress message
    /// and must be probed.
    pub fn advance(&mut self, stop_requested: bool) -> (m: ScanMessage)
        requires
            old(self).wf(),
            !old(self).is_probing(),
        ensures
            final(self).wf(),
            final(self).ports_of() == old(self).ports_of(),
            final(self).progress_of().hostname == old(self).progress_of().hostname,
            final(self).progress_of().open_ports == old(self).progress_of().open_ports,
            final(self).progress_of().total_ports == old(self).progress_of().total_ports,
            final(self).progress_of().is_scanning,
            (old(self).is_finished() || stop_requested || old(self).next_index() == old(
                self,
            ).ports_of().len()) ==> {
                &&& m == ScanMessage::Complete
                &&& final(self).is_finished()
                &&& !final(self).is_probing()
                &&& final(self).next_index() == old(self).next_index()
                &&& final(self).progress_of() == old(self).progress_of()
            },
            !(old(self).is_finished() || stop_requested || old(self).next_index() == old(
                self,
            ).ports_of().len()) ==> {
                &&& final(self).is_probing()
                &&& !final(self).is_finished()
                &&& final(self).next_index() == old(self).next_index() + 1
                &&& final(self).progress_of().current_port == old(self).ports_of()[old(
                    self,
                ).next_index()]
                &&& final(self).progress_of().scanned == old(self).next_index() + 1
                &&& m == ScanMessage::Progress(final(self).progress_of())
            },
    {
        if self.finished || stop_requested || self.next == self.ports.len() {
            self.finished = true;
            return ScanMessage::Complete;
        }
        let port = self.ports[self.next];
        self.progress.current_port = port;
        self.progress.scanned = (self.next + 1) as u16;
        self.next = self.next + 1;
        self.probing = true;
        ScanMessage::Progress(self.progress.duplicate())
    }

    /// Records the outcome of probing the announced port: `banner` is what an
    /// open port answered, `None` for a closed port, and `timestamp` the time
    /// of the probe. An open port is counted and reported.
    pub fn record_probe(&mut self, banner: Option<String>, timestamp: String) -> (m: Option<
        ScanMessage,
    >)
        requires
            old(self).wf(),
            old(self).is_probing(),
        ensures
            final(self).wf(),
            !final(self).is_probing(),
            !final(self).is_finished(),
            final(self).ports_of() == old(self).ports_of(),
            final(self).next_index() == old(self).next_index(),
            final(self).progress_of().current_port == old(self).progress_of().current_port,
            final(self).progress_of().scanned == old(self).progress_of().scanned,
            final(self).progress_of().total_ports == old(self).progress_of().total_ports,
            final(self).progress_of().hostname == old(self).progress_of().hostname,
            final(self).progress_of().is_scanning,
            banner is None ==> m is None && final(self).progress_of().open_ports == old(
                self,
            ).progress_of().open_ports,
            banner matches Some(b) ==> {
                &&& final(self).progress_of().open_ports == old(self).progress_of().open_ports + 1
                &&& m matches Some(ScanMessage::Result(r)) && r.port == old(
                    self,
                ).progress_of().current_port && r.service@ == service_name(r.port) && r.banner
                    == b && r.timestamp == timestamp && r.is_open
            },
    {
        self.probing = false;
        match banner {
            None => None,
            Some(b) => {
                let port = self.progress.current_port;
                self.progress.open_ports = self.progress.open_ports + 1;
                Some(
                    ScanMessage::Result(
                        ScanResult {
                            port,
                            service: get_service_name(port),
                            banner: b,
                            timestamp,
                            is_open: true,
                        },
                    ),
                )
            },
        }
    }
}

/// The ports `first..=last`, in increasing order.
pub fn port_range(first: u16, last: u16) -> (ports: Vec<u16>)
    requires
        first <= last,
    ensures
        ports@.len() == last - first + 1,
        forall|i: int| 0 <= i < ports@.len() ==> ports@[i] == first + i,
        strictly_increasing(ports@),
{
    let mut ports: Vec<u16> = Vec::new();
    let mut p: u16 = first;
    loop
        invariant_except_break
            ports@.len() == p - first,
        invariant
            first <= p <= last,
            forall|i: int| 0 <= i < ports@.len() ==> ports@[i] == first + i,
        ensures
            ports@.len() == last - first + 1,
            forall|i: int| 0 <= i < ports@.len() ==> ports@[i] == first + i,
        decreases last - p,
    {
        ports.push(p);
        if p == last {
            break;
        }
        p = p + 1;
    }
    ports
}

} // verus!
