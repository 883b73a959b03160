use vstd::prelude::*;
use crate::device::{CODE_ALREADY_INITIALIZED, CODE_OK};
use crate::text::{contains_text, lower_of, lowercase, occurs_in};

verus! {

/// Pause after terminating the session, before the first port is probed.
pub const PROBE_SETTLE_MS: u32 = 500;
/// Pause after selecting a port, before initializing on it.
pub const PORT_SETTLE_MS: u32 = 300;
/// Pause after closing a probe that found the reader.
pub const FOUND_SETTLE_MS: u32 = 500;
/// Pause after closing a probe that found nothing.
pub const MISS_SETTLE_MS: u32 = 100;

pub const KEYWORD_IDBIO: &'static str = "idbio";
pub const KEYWORD_FINGERPRINT: &'static str = "fingerprint";
pub const KEYWORD_BIOMETRIC: &'static str = "biometric";
pub const KEYWORD_DIGITAL: &'static str = "digital";
pub const KEYWORD_NITGEN: &'static str = "nitgen";
pub const KEYWORD_SUPREMA: &'static str = "suprema";

/// A serial port that the system reports, with the best label found for it.
pub struct CandidatePort {
    pub system_path: String,
    pub port_name: String,
    pub friendly_name: String,
}

/// Builds a candidate; without a label of its own a port is labelled by its
/// system path.
pub fn candidate_port(system_path: String, port_name: String, label: Option<String>) -> (r:
    CandidatePort)
    ensures
        r.system_path@ == system_path@,
        r.port_name@ == port_name@,
        r.friendly_name@ == match label {
            Some(l) => l@,
            None => system_path@,
        },
{
    let friendly_name = match label {
        Some(l) => l,
        None => system_path.clone(),
    };
    CandidatePort { system_path, port_name, friendly_name }
}

/// Whether a lowercased label holds one of the keywords.
pub open spec fn holds_keyword(lower: Seq<char>) -> bool {
    ||| occurs_in(KEYWORD_IDBIO@, lower)
    ||| occurs_in(KEYWORD_FINGERPRINT@, lower)
    ||| occurs_in(KEYWORD_BIOMETRIC@, lower)
    ||| occurs_in(KEYWORD_DIGITAL@, lower)
    ||| occurs_in(KEYWORD_NITGEN@, lower)
    ||| occurs_in(KEYWORD_SUPREMA@, lower)
}

/// Whether a device label names a fingerprint reader: some keyword occurs in
/// it, letter case aside.
pub open spec fn names_reader(label: Seq<char>) -> bool {
    holds_keyword(lower_of(label))
}

/// Whether an already lowercased label holds one of the keywords.
pub fn lowered_names_reader(lower: &str) -> (r: bool)
    ensures
        r == holds_keyword(lower@),
{
    contains_text(lower, KEYWORD_IDBIO) || contains_text(lower, KEYWORD_FINGERPRINT)
        || contains_text(lower, KEYWORD_BIOMETRIC) || contains_text(lower, KEYWORD_DIGITAL)
        || contains_text(lower, KEYWORD_NITGEN) || contains_text(lower, KEYWORD_SUPREMA)
}

pub fn label_names_reader(label: &str) -> (r: bool)
    ensures
        r == names_reader(label@),
{
    let lower = lowercase(label);
    lowered_names_reader(lower.as_str())
}

/// A port name that can be handed to the device: it holds no NUL character.
pub open spec fn usable_name(name: Seq<char>) -> bool {
    !name.contains('\0')
}

pub fn is_usable_name(name: &str) -> (r: bool)
    ensures
        r == usable_name(name@),
{
    let n = name.unicode_len();
    let mut i: usize = 0;
    while i < n
        invariant
            n == name@.len(),
            i <= n,
            forall|k: int| 0 <= k < i ==> name@[k] != '\0',
        decreases n - i,
    {
        if name.get_char(i) == '\0' {
            return false;
        }
        i += 1;
    }
    true
}

pub open spec fn reader_label() -> spec_fn(Seq<char>) -> bool {
    |l: Seq<char>| names_reader(l)
}

pub open spec fn usable() -> spec_fn(Seq<char>) -> bool {
    |n: Seq<char>| usable_name(n)
}

/// The first index from `i` on whose element satisfies `p`.
pub open spec fn first_where(s: Seq<Seq<char>>, i: int, p: spec_fn(Seq<char>) -> bool) -> Option<
    int,
>
    decreases s.len() - i,
{
    if i < 0 || i >= s.len() {
        None
    } else if p(s[i]) {
        Some(i)
    } else {
        first_where(s, i + 1, p)
    }
}

pub proof fn lemma_first_where(s: Seq<Seq<char>>, i: int, p: spec_fn(Seq<char>) -> bool)
    requires
        0 <= i,
    ensures
        match first_where(s, i, p) {
            Some(j) => i <= j < s.len() && p(s[j]) && forall|k: int| i <= k < j ==> !p(#[trigger] s[k]),
            None => forall|k: int| i <= k < s.len() ==> !p(#[trigger] s[k]),
        },
    decreases s.len() - i,
{
    if i < s.len() && !p(s[i]) {
        lemma_first_where(s, i + 1, p);
    }
}

pub open spec fn labels_view(ports: Seq<CandidatePort>) -> Seq<Seq<char>> {
    ports.map_values(|c: CandidatePort| c.friendly_name@)
}

pub open spec fn names_view(ports: Seq<CandidatePort>) -> Seq<Seq<char>> {
    ports.map_values(|c: CandidatePort| c.port_name@)
}

/// The first port, in the system's order, whose label names a reader.
pub fn select_by_keyword(ports: &Vec<CandidatePort>) -> (r: Option<usize>)
    ensures
        r == (match first_where(labels_view(ports@), 0, reader_label()) {
            Some(j) => Some(j as usize),
            None => None,
        }),
        match r {
            Some(j) => j < ports@.len() && names_reader(ports@[j as int].friendly_name@) && forall|
                k: int,
            | 0 <= k < j ==> !names_reader(#[trigger] ports@[k].friendly_name@),
            None => forall|k: int|
                0 <= k < ports@.len() ==> !names_reader(#[trigger] ports@[k].friendly_name@),
        },
{
    let ghost labels = labels_view(ports@);
    let ghost p = reader_label();
    let mut i: usize = 0;
    while i < ports.len()
        invariant
            i <= ports@.len(),
            labels == labels_view(ports@),
            p == reader_label(),
            first_where(labels, 0, p) == first_where(labels, i as int, p),
            forall|k: int| 0 <= k < i ==> !names_reader(#[trigger] ports@[k].friendly_name@),
        decreases ports@.len() - i,
    {
        assert(labels[i as int] == ports@[i as int].friendly_name@);
        if label_names_reader(ports[i].friendly_name.as_str()) {
            return Some(i);
        }
        i += 1;
    }
    None
}

/// Where a port discovery stands, and which reply it waits for.
#[derive(Clone, Copy, Debug, PartialEq, Eq, Structural)]
pub enum ProbePhase {
    Start,
    /// Waits for the session to be terminated before probing.
    Clearing,
    /// Waits for the code of selecting the port at `index`.
    SettingPort { index: usize },
    /// Waits for the code of `init` on the port at `index`.
    Initializing { index: usize },
    /// Waits for the probe of the port at `index` to be closed; `found`
    /// when the device answered there.
    Closing { index: usize, found: bool },
    Finished,
}

/// What the outside world reports back after a probing command.
#[derive(Clone, Copy, Debug, PartialEq, Eq, Structural)]
pub enum ProbeEvent {
    /// `Terminate` was performed.
    Done,
    /// Selecting the port returned this code.
    PortSet(i32),
    /// `init` returned this code.
    Initialized(i32),
}

pub enum ProbeOp {
    /// Terminate the session, ignoring its code; answer with `Done`.
    Terminate,
    /// Select this serial port; answer with `PortSet`.
    SetPort(String),
    /// Initialize the device; answer with `Initialized`.
    Init,
    /// Discovery is over: the port of the reader, if one was found.
    Finish(Option<String>),
}

pub enum ProbeOpView {
    Terminate,
    SetPort(Seq<char>),
    Init,
    Finish(Option<Seq<char>>),
}

/// Wait `pause_ms` milliseconds, then perform `op`.
pub struct ProbeCommand {
    pub pause_ms: u32,
    pub op: ProbeOp,
}

pub struct ProbeCommandView {
    pub pause_ms: u32,
    pub op: ProbeOpView,
}

impl View for ProbeCommand {
    type V = ProbeCommandView;

    open spec fn view(&self) -> ProbeCommandView {
        ProbeCommandView {
            pause_ms: self.pause_ms,
            op: match &self.op {
                ProbeOp::Terminate => ProbeOpView::Terminate,
                ProbeOp::SetPort(n) => ProbeOpView::SetPort(n@),
                ProbeOp::Init => ProbeOpView::Init,
                ProbeOp::Finish(Some(n)) => ProbeOpView::Finish(Some(n@)),
                ProbeOp::Finish(None) => ProbeOpView::Finish(None),
            },
        }
    }
}

pub open spec fn probe_cmd(pause_ms: u32, op: ProbeOpView) -> ProbeCommandView {
    ProbeCommandView { pause_ms, op }
}

pub struct DiscoveryView {
    pub phase: ProbePhase,
    /// The ports' names, in the system's order.
    pub names: Seq<Seq<char>>,
    /// The ports' labels, in the same order.
    pub labels: Seq<Seq<char>>,
}

pub open spec fn discovery_inv(d: DiscoveryView) -> bool {
    &&& d.names.len() == d.labels.len()
    &&& match d.phase {
        ProbePhase::SettingPort { index } => index < d.names.len(),
        ProbePhase::Initializing { index } => index < d.names.len(),
        ProbePhase::Closing { index, .. } => index < d.names.len(),
        _ => true,
    }
}

pub open spec fn probe_expects(phase: ProbePhase, ev: ProbeEvent) -> bool {
    match phase {
        ProbePhase::Clearing | ProbePhase::Closing { .. } => ev is Done,
        ProbePhase::SettingPort { .. } => ev is PortSet,
        ProbePhase::Initializing { .. } => ev is Initialized,
        _ => false,
    }
}

pub open spec fn probe_finish(d: DiscoveryView, pause_ms: u32, port: Option<Seq<char>>) -> (
    DiscoveryView,
    ProbeCommandView,
) {
    (DiscoveryView { phase: ProbePhase::Finished, ..d }, probe_cmd(pause_ms, ProbeOpView::Finish(port)))
}

/// Discovery starts with the labels: the first port whose label names a
/// reader is taken at once. Only when none does are the ports probed, after
/// terminating the session.
pub open spec fn probe_begin(d: DiscoveryView) -> (DiscoveryView, ProbeCommandView) {
    match first_where(d.labels, 0, reader_label()) {
        Some(i) => probe_finish(d, 0, Some(d.names[i])),
        None => if d.names.len() == 0 {
            probe_finish(d, 0, None)
        } else {
            (DiscoveryView { phase: ProbePhase::Clearing, ..d }, probe_cmd(0, ProbeOpView::Terminate))
        },
    }
}

/// Probe the first port from `i` on whose name can be handed to the device;
/// when none is left, discovery fails.
pub open spec fn probe_from(d: DiscoveryView, i: int, pause_ms: u32) -> (
    DiscoveryView,
    ProbeCommandView,
) {
    match first_where(d.names, i, usable()) {
        Some(j) => (
            DiscoveryView { phase: ProbePhase::SettingPort { index: j as usize }, ..d },
            probe_cmd(pause_ms, ProbeOpView::SetPort(d.names[j])),
        ),
        None => probe_finish(d, pause_ms, None),
    }
}

pub open spec fn probe_next(d: DiscoveryView, ev: ProbeEvent) -> (DiscoveryView, ProbeCommandView) {
    match (d.phase, ev) {
        (ProbePhase::Clearing, ProbeEvent::Done) => probe_from(d, 0, PROBE_SETTLE_MS),
        (ProbePhase::SettingPort { index }, ProbeEvent::PortSet(code)) => if code == CODE_OK {
            (
                DiscoveryView { phase: ProbePhase::Initializing { index }, ..d },
                probe_cmd(PORT_SETTLE_MS, ProbeOpView::Init),
            )
        } else {
            probe_from(d, index + 1, 0)
        },
        (ProbePhase::Initializing { index }, ProbeEvent::Initialized(code)) => (
            DiscoveryView {
                phase: ProbePhase::Closing {
                    index,
                    found: code == CODE_OK || code == CODE_ALREADY_INITIALIZED,
                },
                ..d
            },
            probe_cmd(0, ProbeOpView::Terminate),
        ),
        (ProbePhase::Closing { index, found }, ProbeEvent::Done) => if found {
            probe_finish(d, FOUND_SETTLE_MS, Some(d.names[index as int]))
        } else {
            probe_from(d, index + 1, MISS_SETTLE_MS)
        },
        _ => arbitrary(),
    }
}

/// Finds the serial port of the reader among the candidates: by label first,
/// by probing each port in turn when no label tells.
pub struct PortDiscovery {
    phase: ProbePhase,
    ports: Vec<CandidatePort>,
}

impl View for PortDiscovery {
    type V = DiscoveryView;

    closed spec fn view(&self) -> DiscoveryView {
        DiscoveryView {
            phase: self.phase,
            names: names_view(self.ports@),
            labels: labels_view(self.ports@),
        }
    }
}

impl PortDiscovery {
    pub fn new(ports: Vec<CandidatePort>) -> (r: PortDiscovery)
        ensures
            r@ == (DiscoveryView {
                phase: ProbePhase::Start,
                names: names_view(ports@),
                labels: labels_view(ports@),
            }),
            discovery_inv(r@),
    {
        PortDiscovery { phase: ProbePhase::Start, ports }
    }

    pub fn phase(&self) -> (r: ProbePhase)
        ensures
            r == self@.phase,
    {
        self.phase
    }

    /// Whether the discovery waits for this event.
    pub fn expects(&self, ev: ProbeEvent) -> (r: bool)
        ensures
            r == probe_expects(self@.phase, ev),
    {
        match self.phase {
            ProbePhase::Clearing | ProbePhase::Closing { .. } => matches!(ev, ProbeEvent::Done),
            ProbePhase::SettingPort { .. } => matches!(ev, ProbeEvent::PortSet(_)),
            ProbePhase::Initializing { .. } => matches!(ev, ProbeEvent::Initialized(_)),
            _ => false,
        }
    }

    /// The first command.
    pub fn start(&mut self) -> (r: ProbeCommand)
        requires
            discovery_inv(old(self)@),
            old(self)@.phase == ProbePhase::Start,
        ensures
            (final(self)@, r@) == probe_begin(old(self)@),
            discovery_inv(final(self)@),
    {
        proof {
            lemma_first_where(self@.labels, 0, reader_label());
        }
        let n = self.ports.len();
        assert(self@.labels.len() == n);
        match select_by_keyword(&self.ports) {
            Some(i) => {
                let name = self.ports[i].port_name.clone();

                self.phase = ProbePhase::Finished;
                ProbeCommand { pause_ms: 0, op: ProbeOp::Finish(Some(name)) }
            },
            None => {
                if self.ports.len() == 0 {
                    self.phase = ProbePhase::Finished;
                    ProbeCommand { pause_ms: 0, op: ProbeOp::Finish(None) }
                } else {
                    self.phase = ProbePhase::Clearing;
                    ProbeCommand { pause_ms: 0, op: ProbeOp::Terminate }
                }
            },
        }
    }

    /// The command that follows `ev`.
    pub fn step(&mut self, ev: ProbeEvent) -> (r: ProbeCommand)
        requires
            discovery_inv(old(self)@),
            probe_expects(old(self)@.phase, ev),
        ensures
            (final(self)@, r@) == probe_next(old(self)@, ev),
            discovery_inv(final(self)@),
    {
        let n = self.ports.len();
        assert(self@.names.len() == n);
        match (self.phase, ev) {
            (ProbePhase::Clearing, ProbeEvent::Done) => self.probe_from(0, PROBE_SETTLE_MS),
            (ProbePhase::SettingPort { index }, ProbeEvent::PortSet(code)) => {
                if code == CODE_OK {
                    self.phase = ProbePhase::Initializing { index };
                    ProbeCommand { pause_ms: PORT_SETTLE_MS, op: ProbeOp::Init }
                } else {
                    self.probe_from(index + 1, 0)
                }
            },
            (ProbePhase::Initializing { index }, ProbeEvent::Initialized(code)) => {
                self.phase = ProbePhase::Closing {
                    index,
                    found: code == CODE_OK || code == CODE_ALREADY_INITIALIZED,
                };
                ProbeCommand { pause_ms: 0, op: ProbeOp::Terminate }
            },
            (ProbePhase::Closing { index, found }, ProbeEvent::Done) => {
                if found {
                    let name = self.ports[index].port_name.clone();
                    self.phase = ProbePhase::Finished;
                    ProbeCommand { pause_ms: FOUND_SETTLE_MS, op: ProbeOp::Finish(Some(name)) }
                } else {
                    self.probe_from(index + 1, MISS_SETTLE_MS)
                }
            },
            _ => unreached(),
        }
    }

    fn probe_from(&mut self, start: usize, pause_ms: u32) -> (r: ProbeCommand)
        requires
            discovery_inv(old(self)@),
            start <= old(self)@.names.len(),
        ensures
            (final(self)@, r@) == probe_from(old(self)@, start as int, pause_ms),
            discovery_inv(final(self)@),
    {
        let ghost names = self@.names;
        let ghost ports0 = self.ports@;
        let ghost p = usable();
        let mut i: usize = start;
        while i < self.ports.len()
            invariant
                start <= i <= self.ports@.len(),
                names == old(self)@.names,
                names == names_view(self.ports@),
                self.ports@ == ports0,
                ports0 == old(self).ports@,
                p == usable(),
                first_where(names, start as int, p) == first_where(names, i as int, p),
            decreases self.ports@.len() - i,
        {
            assert(names[i as int] == self.ports@[i as int].port_name@);
            if is_usable_name(self.ports[i].port_name.as_str()) {
                let name = self.ports[i].port_name.clone();
                self.phase = ProbePhase::SettingPort { index: i };
                return ProbeCommand { pause_ms, op: ProbeOp::SetPort(name) };
            }
            i += 1;
        }
        self.phase = ProbePhase::Finished;
        ProbeCommand { pause_ms, op: ProbeOp::Finish(None) }
    }
}

} // verus!
