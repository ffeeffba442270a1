//! The state of the graphical scanner: its settings, the results gathered
//! from scan messages, and what its buttons do to them.

use vstd::prelude::*;
use crate::ports::{gui_guide_ports, gui_port_guide, is_guide_for};
use crate::results::{is_stable_port_sort, sort_by_port};
use crate::port_list::{list_covers, list_valid, parse_port_list, strictly_increasing};
use crate::scan::{port_range, ScanMessage, ScanProgress, ScanResult};
use crate::text::{parse_unsigned, parse_unsigned_max};

verus! {

/// The value of a numeric setting: the text parsed as an unsigned integer
/// no larger than `max`, or `default` when it does not parse.
pub open spec fn setting_value(text: Seq<char>, max: nat, default: nat) -> nat {
    match parse_unsigned(text, max) {
        Some(v) => v,
        None => default,
    }
}

/// The port a setting names, or `default` when it names none.
pub fn port_setting(text: &str, default: u16) -> (port: u16)
    ensures
        port == setting_value(text@, u16::MAX as nat, default as nat),
{
    match parse_unsigned_max(text, u16::MAX as u64) {
        Some(v) => v as u16,
        None => default,
    }
}

/// The number of milliseconds a setting names, or `default` when it names
/// none.
pub fn millis_setting(text: &str, default: u64) -> (millis: u64)
    ensures
        millis == setting_value(text@, u64::MAX as nat, default as nat),
{
    match parse_unsigned_max(text, u64::MAX) {
        Some(v) => v,
        None => default,
    }
}

/// What a scan needs to run: the target, the ports and the timeout to use.
pub struct ScanRequest {
    /// The host to scan.
    pub target: String,
    /// The ports to scan, in increasing order.
    pub ports: Vec<u16>,
    /// How long to wait for each connection, in milliseconds.
    pub timeout_ms: u64,
}

/// The part of the state that scan messages change: the results, the
/// progress and whether a scan runs.
pub type ScanState = (Seq<ScanResult>, ScanProgress, bool);

/// Whether `results` already holds a result for `port` found at `timestamp`.
pub open spec fn has_result(results: Seq<ScanResult>, port: u16, timestamp: Seq<char>) -> bool {
    exists|i: int| 0 <= i < results.len() && (#[trigger] results[i]).port == port && results[i].timestamp@ == timestamp
}

/// No two results share a port and a time stamp.
pub open spec fn results_distinct(results: Seq<ScanResult>) -> bool {
    forall|i: int, j: int|
        0 <= i < j < results.len() ==> !((#[trigger] results[i]).port == (#[trigger] results[j]).port
            && results[i].timestamp@ == results[j].timestamp@)
}

/// The state after receiving `m`.
pub open spec fn after_message(s: ScanState, m: ScanMessage) -> ScanState {
    match m {
        ScanMessage::Progress(p) => (s.0, p, s.2),
        ScanMessage::Result(r) => if r.is_open && !has_result(s.0, r.port, r.timestamp@) {
            (s.0.push(r), s.1, s.2)
        } else {
            s
        },
        _ => (s.0, ScanProgress { is_scanning: false, ..s.1 }, false),
    }
}

/// The state after receiving `ms`, in order.
pub open spec fn after_messages(s: ScanState, ms: Seq<ScanMessage>) -> ScanState
    decreases ms.len(),
{
    if ms.len() == 0 {
        s
    } else {
        after_message(after_messages(s, ms.drop_last()), ms.last())
    }
}

/// The state of the graphical scanner.
pub struct PortHunterApp {
    /// The host to scan, as typed.
    pub target_ip: String,
    /// The first port of the range, as typed.
    pub start_port: String,
    /// The last port of the range, as typed.
    pub end_port: String,
    /// The connection timeout in milliseconds, as typed.
    pub timeout_ms: String,
    /// The open ports found so far.
    pub scan_results: Vec<ScanResult>,
    /// Where the current or last scan stands.
    pub scan_progress: ScanProgress,
    /// Whether a scan runs.
    pub is_scanning: bool,
    /// The tab shown.
    pub active_tab: usize,
    /// Whether only open ports are listed.
    pub show_only_open: bool,
    /// The guide of common ports.
    pub port_guide: Vec<(u16, String)>,
}

impl Default for PortHunterApp {
    fn default() -> (app: Self)
        ensures
            app.target_ip@ == "192.168.1.1"@,
            app.start_port@ == "1"@,
            app.end_port@ == "1024"@,
            app.timeout_ms@ == "1000"@,
            app.scan_results@.len() == 0,
            app.scan_progress.current_port == 0,
            app.scan_progress.total_ports == 0,
            app.scan_progress.scanned == 0,
            app.scan_progress.open_ports == 0,
            !app.scan_progress.is_scanning,
            app.scan_progress.hostname@.len() == 0,
            !app.is_scanning,
            app.active_tab == 0,
            app.show_only_open,
            is_guide_for(app.port_guide@, gui_guide_ports()),
    {
        PortHunterApp {
            target_ip: "192.168.1.1".to_string(),
            start_port: "1".to_string(),
            end_port: "1024".to_string(),
            timeout_ms: "1000".to_string(),
            scan_results: Vec::new(),
            scan_progress: ScanProgress::idle(),
            is_scanning: false,
            active_tab: 0,
            show_only_open: true,
            port_guide: gui_port_guide(),
        }
    }
}

impl PortHunterApp {
    /// The part of the state that scan messages change.
    pub open spec fn scan_state(&self) -> ScanState {
        (self.scan_results@, self.scan_progress, self.is_scanning)
    }

    /// The first port the settings name (1 when they name none).
    pub open spec fn first_port_setting(&self) -> nat {
        setting_value(self.start_port@, u16::MAX as nat, 1)
    }

    /// The last port the settings name (1024 when they name none).
    pub open spec fn last_port_setting(&self) -> nat {
        setting_value(self.end_port@, u16::MAX as nat, 1024)
    }

    /// Whether the settings name a range whose size fits a port count.
    pub open spec fn range_setting_fits(&self) -> bool {
        self.first_port_setting() <= self.last_port_setting() && self.last_port_setting()
            - self.first_port_setting() + 1 <= u16::MAX
    }

    /// Whether the settings ask for port `p` to be scanned: when the first
    /// port field holds a well-formed port list, the ports it names;
    /// otherwise the range from the first port to the last.
    pub open spec fn scan_covers(&self, p: int) -> bool {
        if list_valid(self.start_port@) {
            list_covers(self.start_port@, p)
        } else {
            self.first_port_setting() <= p <= self.last_port_setting()
        }
    }

    /// Whether the settings name a non-empty set of ports whose size fits a
    /// port count: a port list that leaves some port out, or an increasing
    /// range of at most 65535 ports.
    pub open spec fn settings_fit(&self) -> bool {
        if list_valid(self.start_port@) {
            exists|p: u16| !list_covers(self.start_port@, p as int)
        } else {
            self.range_setting_fits()
        }
    }

    /// The ports the settings ask for, in increasing order.
    pub fn scan_ports(&self) -> (ports: Vec<u16>)
        requires
            self.settings_fit(),
        ensures
            strictly_increasing(ports@),
            0 < ports@.len() <= u16::MAX,
            forall|p: u16| #[trigger] ports@.contains(p) <==> self.scan_covers(p as int),
    {
        match parse_port_list(self.start_port.as_str()) {
            Some(v) => {
                proof {
                    let q = choose|p: u16| !list_covers(self.start_port@, p as int);
                }
                v
            },
            None => {
                let first = port_setting(self.start_port.as_str(), 1);
                let last = port_setting(self.end_port.as_str(), 1024);
                let v = port_range(first, last);
                assert forall|p: u16| #[trigger] v@.contains(p) <==> self.scan_covers(p as int) by {
                    if first <= p <= last {
                        assert(v@[p - first] == p);
                    }
                }
                v
            },
        }
    }

    /// Everything but the scan results, progress and running flag is unchanged.
    pub open spec fn same_settings(&self, other: &PortHunterApp) -> bool {
        &&& self.target_ip == other.target_ip
        &&& self.start_port == other.start_port
        &&& self.end_port == other.end_port
        &&& self.timeout_ms == other.timeout_ms
        &&& self.active_tab == other.active_tab
        &&& self.show_only_open == other.show_only_open
        &&& self.port_guide == other.port_guide
    }

    /// Stops the running scan: the state no longer counts as scanning.
    pub fn stop_scan(&mut self)
        ensures
            final(self).same_settings(old(self)),
            final(self).scan_results == old(self).scan_results,
            !final(self).is_scanning,
            final(self).scan_progress == (ScanProgress { is_scanning: false, ..old(self).scan_progress }),
    {
        self.is_scanning = false;
        self.scan_progress.is_scanning = false;
    }

    /// Starts a scan from the settings, unless one runs. The results found
    /// earlier are kept. Returns what the scan needs to run, or `None` when a
    /// scan already runs (and nothing changes).
    pub fn start_scan(&mut self) -> (request: Option<ScanRequest>)
        requires
            !old(self).is_scanning ==> old(self).settings_fit(),
        ensures
            final(self).same_settings(old(self)),
            final(self).scan_results == old(self).scan_results,
            old(self).is_scanning ==> request is None && final(self).scan_progress == old(
                self,
            ).scan_progress && final(self).is_scanning,
            !old(self).is_scanning ==> old(self).scan_started(*final(self), request),
    {
        if self.is_scanning {
            return None;
        }
        let ports = self.scan_ports();
        let timeout_ms = millis_setting(self.timeout_ms.as_str(), 1000);
        let target = self.target_ip.clone();
        self.is_scanning = true;
        self.scan_progress = ScanProgress {
            current_port: ports[0],
            total_ports: ports.len() as u16,
            scanned: 0,
            open_ports: 0,
            is_scanning: true,
            hostname: String::new(),
        };
        Some(ScanRequest { target, ports, timeout_ms })
    }

    /// `after` and `request` are what starting a scan from these settings
    /// gives: a request for the target, the ports the settings ask for in
    /// increasing order and the timeout, and a running scan whose progress
    /// stands at the first of those ports.
    pub open spec fn scan_started(&self, after: PortHunterApp, request: Option<ScanRequest>) -> bool {
        &&& after.is_scanning
        &&& request matches Some(r) && {
            &&& r.target@ == self.target_ip@
            &&& strictly_increasing(r.ports@)
            &&& 0 < r.ports@.len() <= u16::MAX
            &&& (forall|p: u16| #[trigger] r.ports@.contains(p) <==> self.scan_covers(p as int))
            &&& r.timeout_ms == setting_value(self.timeout_ms@, u64::MAX as nat, 1000)
            &&& after.scan_progress.current_port == r.ports@[0]
            &&& after.scan_progress.total_ports == r.ports@.len()
        }
        &&& after.scan_progress.scanned == 0
        &&& after.scan_progress.open_ports == 0
        &&& after.scan_progress.is_scanning
        &&& after.scan_progress.hostname@.len() == 0
    }

    /// Whether the results hold one for `port` found at `timestamp`.
    fn holds_result(&self, port: u16, timestamp: &String) -> (b: bool)
        ensures
            b == has_result(self.scan_results@, port, timestamp@),
    {
        let n = self.scan_results.len();
        for i in 0..n
            invariant
                n == self.scan_results@.len(),
                forall|j: int|
                    0 <= j < i ==> !((#[trigger] self.scan_results@[j]).port == port
                        && self.scan_results@[j].timestamp@ == timestamp@),
        {
            let r = &self.scan_results[i];
            if r.port == port && r.timestamp == *timestamp {
                return true;
            }
        }
        false
    }

    /// Takes in one scan message: a progress replaces the progress, an open
    /// port not yet listed (same port and time stamp) is added, and the end
    /// or failure of the scan stops it.
    pub fn apply_message(&mut self, m: ScanMessage)
        ensures
            final(self).same_settings(old(self)),
            final(self).scan_state() == after_message(old(self).scan_state(), m),
    {
        match m {
            ScanMessage::Progress(p) => {
                self.scan_progress = p;
            },
            ScanMessage::Result(r) => {
                if r.is_open && !self.holds_result(r.port, &r.timestamp) {
                    self.scan_results.push(r);
                }
            },
            _ => {
                self.is_scanning = false;
                self.scan_progress.is_scanning = false;
            },
        }
    }

    /// Takes in the scan messages received since the last update, in order.
    pub fn update_from_scan_messages(&mut self, messages: Vec<ScanMessage>)
        ensures
            final(self).same_settings(old(self)),
            final(self).scan_state() == after_messages(old(self).scan_state(), messages@),
    {
        let n = messages.len();
        for i in 0..n
            invariant
                n == messages@.len(),
                self.same_settings(old(self)),
                self.scan_state() == after_messages(old(self).scan_state(), messages@.take(i as int)),
        {
            assert(messages@.take(i + 1).drop_last() =~= messages@.take(i as int));
            let m = messages[i].duplicate();
            self.apply_message(m);
        }
        assert(messages@.take(n as int) =~= messages@);
    }

    /// The results in the order they are listed: stably sorted by port.
    pub fn sorted_results(&self) -> (sorted: Vec<ScanResult>)
        ensures
            sorted@.len() == self.scan_results@.len(),
            is_stable_port_sort(sorted@, self.scan_results@),
    {
        sort_by_port(&self.scan_results)
    }

    /// Clears the results and the progress.
    pub fn reset(&mut self)
        ensures
            final(self).same_settings(old(self)),
            final(self).is_scanning == old(self).is_scanning,
            final(self).scan_results@.len() == 0,
            final(self).scan_progress.current_port == 0,
            final(self).scan_progress.total_ports == 0,
            final(self).scan_progress.scanned == 0,
            final(self).scan_progress.open_ports == 0,
            !final(self).scan_progress.is_scanning,
            final(self).scan_progress.hostname@.len() == 0,
    {
        self.scan_results.clear();
        self.scan_progress = ScanProgress::idle();
    }

    /// Starts a fresh scan: unless one runs, clears the results and starts a
    /// scan from the settings.
    pub fn new_scan(&mut self) -> (request: Option<ScanRequest>)
        requires
            !old(self).is_scanning ==> old(self).settings_fit(),
        ensures
            final(self).same_settings(old(self)),
            old(self).is_scanning ==> request is None && final(self).scan_state() == old(
                self,
            ).scan_state(),
            !old(self).is_scanning ==> {
                &&& final(self).scan_results@.len() == 0
                &&& old(self).scan_started(*final(self), request)
            },
    {
        if self.is_scanning {
            return None;
        }
        self.scan_results.clear();
        self.start_scan()
    }
}

/// Taking in a message keeps the results free of duplicates (same port and
/// time stamp) and made of open ports only.
pub proof fn lemma_message_keeps_results_distinct(s: ScanState, m: ScanMessage)
    requires
        results_distinct(s.0),
        forall|i: int| 0 <= i < s.0.len() ==> (#[trigger] s.0[i]).is_open,
    ensures
        results_distinct(after_message(s, m).0),
        forall|i: int| 0 <= i < after_message(s, m).0.len() ==> (#[trigger] after_message(s, m).0[i]).is_open,
{
    if let ScanMessage::Result(r) = m {
        if r.is_open && !has_result(s.0, r.port, r.timestamp@) {
            let t = s.0.push(r);
            assert forall|i: int, j: int| 0 <= i < j < t.len() implies !((#[trigger] t[i]).port == (#[trigger] t[j]).port
                && t[i].timestamp@ == t[j].timestamp@) by {
                if j == t.len() - 1 {
                    assert(s.0[i] == t[i]);
                }
            }
        }
    }
}

/// Taking in any messages keeps the results free of duplicates and made of
/// open ports only; results are never removed.
pub proof fn lemma_messages_keep_results_distinct(s: ScanState, ms: Seq<ScanMessage>)
    requires
        results_distinct(s.0),
        forall|i: int| 0 <= i < s.0.len() ==> (#[trigger] s.0[i]).is_open,
    ensures
        results_distinct(after_messages(s, ms).0),
        forall|i: int| 0 <= i < after_messages(s, ms).0.len() ==> (#[trigger] after_messages(s, ms).0[i]).is_open,
        s.0.is_prefix_of(after_messages(s, ms).0),
    decreases ms.len(),
{
    if ms.len() > 0 {
        lemma_messages_keep_results_distinct(s, ms.drop_last());
        lemma_message_keeps_results_distinct(after_messages(s, ms.drop_last()), ms.last());
    }
}

/// Once the state no longer counts a scan as running (after a stop, the end
/// of a scan or its failure), no message can make it count one again.
pub proof fn lemma_stopped_stays_stopped(s: ScanState, ms: Seq<ScanMessage>)
    requires
        !s.2,
    ensures
        !after_messages(s, ms).2,
    decreases ms.len(),
{
    if ms.len() > 0 {
        lemma_stopped_stays_stopped(s, ms.drop_last());
    }
}

/// What each message does to the state. A progress replaces the progress.
/// An open result is appended exactly when no listed result has both its
/// port and its time stamp (results of other ports found in the same second,
/// or of the same port at another time, are kept); otherwise, and for a
/// closed port, nothing changes. The end or failure of the scan stops it and
/// keeps the results and the rest of the progress.
pub proof fn lemma_message_effects(s: ScanState, m: ScanMessage)
    ensures
        m matches ScanMessage::Progress(p) ==> after_message(s, m) == (s.0, p, s.2),
        m matches ScanMessage::Result(r) ==> {
            &&& (r.is_open && (forall|i: int|
                0 <= i < s.0.len() ==> !((#[trigger] s.0[i]).port == r.port && s.0[i].timestamp@
                    == r.timestamp@))) ==> after_message(s, m) == (s.0.push(r), s.1, s.2)
            &&& (!r.is_open || (exists|i: int|
                0 <= i < s.0.len() && (#[trigger] s.0[i]).port == r.port && s.0[i].timestamp@
                    == r.timestamp@)) ==> after_message(s, m) == s
        },
        (m is Complete || m is Error) ==> {
            &&& after_message(s, m).0 == s.0
            &&& !after_message(s, m).2
            &&& !after_message(s, m).1.is_scanning
            &&& after_message(s, m).1.current_port == s.1.current_port
            &&& after_message(s, m).1.total_ports == s.1.total_ports
            &&& after_message(s, m).1.scanned == s.1.scanned
            &&& after_message(s, m).1.open_ports == s.1.open_ports
            &&& after_message(s, m).1.hostname == s.1.hostname
        },
{
}

/// Taking in a batch of messages is taking in each of them, in order: no
/// message is skipped, and a batch split in two gives the same state as the
/// whole batch.
pub proof fn lemma_messages_in_order(s: ScanState, a: Seq<ScanMessage>, b: Seq<ScanMessage>, m: ScanMessage)
    ensures
        after_messages(s, Seq::empty()) == s,
        after_messages(s, seq![m]) == after_message(s, m),
        after_messages(s, a.push(m)) == after_message(after_messages(s, a), m),
        after_messages(s, a + b) == after_messages(after_messages(s, a), b),
    decreases b.len(),
{
    assert(seq![m].drop_last() =~= Seq::<ScanMessage>::empty());
    assert(a.push(m).drop_last() =~= a);
    if b.len() == 0 {
        assert(a + b =~= a);
    } else {
        lemma_messages_in_order(s, a, b.drop_last(), m);
        assert((a + b).drop_last() =~= a + b.drop_last());
        assert((a + b).last() == b.last());
    }
}

} // verus!
