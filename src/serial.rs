use vstd::prelude::*;
use crate::framing::{frame_lines, split_lines, texts};
use crate::protocol::{decode_lossy, lossy_utf8, ProtocolTrait};

verus! {

/// Serial line configuration used whenever a port is opened.
#[derive(Debug, Clone, Copy, PartialEq, Eq, Structural)]
pub struct SerialSettings {
    pub baud_rate: u32,
}

impl Default for SerialSettings {
    fn default() -> (r: SerialSettings)
        ensures
            r.baud_rate == 0,
    {
        SerialSettings { baud_rate: 0 }
    }
}

/// An open port handle, with the identifier it was opened by and the name it
/// resolved to.
pub struct OpenPort<P> {
    pub handle: P,
    /// The name the port resolved to.
    pub name: String,
    /// The identifier the port was opened by.
    pub path: String,
}

/// The link state: settings, the one open port (if any), the bound decoder
/// (if any) and the log of received lines.
pub struct SerialData<P, D> {
    pub settings: SerialSettings,
    pub content: Vec<String>,
    pub connected_port: Option<OpenPort<P>>,
    pub protocol: Option<D>,
}

/// Failures reported to the caller of a link operation.
#[derive(Debug, PartialEq, Eq)]
pub enum LinkError {
    /// Opening `port` failed for the given underlying `cause`.
    OpenFailed { port: String, cause: String },
    /// An operation needed an open port and there was none.
    NoPortConnected,
}

/// What one bounded read of the open port gave.
#[derive(Debug, PartialEq, Eq)]
pub enum ReadOutcome {
    /// Bytes were read.
    Data(Vec<u8>),
    /// The read timed out with nothing to read.
    TimedOut,
    /// The device went away (broken pipe or another disconnect-class error).
    Disconnected,
    /// Any other I/O error, with its description.
    Failed(String),
}

/// What a poll step asks its runner to publish.
#[derive(Debug, PartialEq, Eq)]
pub enum PollEvent {
    /// Nothing to publish.
    Idle,
    /// One received-line event per line, in this order.
    Lines(Vec<String>),
    /// The link went from connected to disconnected.
    Disconnected,
    /// A non-fatal read error to report.
    Fault(String),
}

/// An attached serial device as enumerated by the system.
pub struct PortEntry {
    pub name: String,
    /// The device is a USB-class port.
    pub usb: bool,
}

/// The names of the USB-class ports, in enumeration order.
pub open spec fn usb_names(ports: Seq<PortEntry>) -> Seq<Seq<char>>
    decreases ports.len(),
{
    if ports.len() == 0 {
        Seq::empty()
    } else {
        let rest = usb_names(ports.drop_last());
        if ports.last().usb {
            rest.push(ports.last().name@)
        } else {
            rest
        }
    }
}

/// The identifiers of the USB-class ports among the enumerated ones, in order.
pub fn get_ports(ports: &Vec<PortEntry>) -> (r: Vec<String>)
    ensures
        texts(r@) == usb_names(ports@),
{
    let mut r: Vec<String> = Vec::new();
    let mut i: usize = 0;
    while i < ports.len()
        invariant
            i <= ports@.len(),
            texts(r@) == usb_names(ports@.subrange(0, i as int)),
        decreases ports@.len() - i,
    {
        let ghost before = r@;
        assert(ports@.subrange(0, i + 1).drop_last() =~= ports@.subrange(0, i as int));
        if ports[i].usb {
            r.push(ports[i].name.clone());
            assert(texts(r@) =~= texts(before).push(ports@[i as int].name@));
        }
        i = i + 1;
    }
    assert(ports@.subrange(0, i as int) =~= ports@);
    r
}

/// The abstract link: configured rate, the resolved name of the open port
/// (`None` when disconnected) and the message log.
pub struct LinkView {
    pub baud_rate: u32,
    pub port: Option<Seq<char>>,
    pub log: Seq<Seq<char>>,
}

/// A read outcome with the received bytes already decoded to text.
pub enum ReadView {
    Text(Seq<char>),
    TimedOut,
    Disconnected,
    Failed(Seq<char>),
}

/// The abstract event of a poll step.
pub enum EventView {
    Idle,
    Lines(Seq<Seq<char>>),
    Disconnected,
    Fault(Seq<char>),
}

pub open spec fn event_view(e: PollEvent) -> EventView {
    match e {
        PollEvent::Idle => EventView::Idle,
        PollEvent::Lines(v) => EventView::Lines(texts(v@)),
        PollEvent::Disconnected => EventView::Disconnected,
        PollEvent::Fault(s) => EventView::Fault(s@),
    }
}

/// The read outcome seen through the text that its bytes decoded to.
pub open spec fn read_view(r: ReadOutcome, text: Seq<char>) -> ReadView {
    match r {
        ReadOutcome::Data(_) => ReadView::Text(text),
        ReadOutcome::TimedOut => ReadView::TimedOut,
        ReadOutcome::Disconnected => ReadView::Disconnected,
        ReadOutcome::Failed(s) => ReadView::Failed(s@),
    }
}

/// The name reported for a port whose driver gives none.
pub open spec fn unknown_port_name() -> Seq<char> {
    "Unknown"@
}

/// The name under which a freshly opened port is recorded.
pub open spec fn resolved_name(reported: Option<Seq<char>>) -> Seq<char> {
    match reported {
        Some(n) => n,
        None => unknown_port_name(),
    }
}

/// `r` is the error of a failed open of `port` for `cause`.
pub open spec fn open_failure(r: Result<String, LinkError>, port: Seq<char>, cause: Seq<char>) -> bool {
    match r {
        Err(LinkError::OpenFailed { port: p, cause: c }) => p@ == port && c@ == cause,
        _ => false,
    }
}

/// Dropping the port handle.
pub open spec fn closed(m: LinkView) -> LinkView {
    LinkView { port: None, ..m }
}

/// Recording an open attempt: the resolved name on success, disconnected on failure.
/// Whatever was open before is gone either way.
pub open spec fn attached(m: LinkView, opened: Option<Seq<char>>) -> LinkView {
    LinkView { port: opened, ..m }
}

/// Changing the rate: the setting is stored and an open port is closed, to
/// be reopened under the same name at the new rate.
pub open spec fn rate_changed(m: LinkView, rate: u32) -> LinkView {
    LinkView { baud_rate: rate, port: None, ..m }
}

/// Emptying the message log.
pub open spec fn cleared(m: LinkView) -> LinkView {
    LinkView { log: Seq::empty(), ..m }
}

/// Opening each port in turn, each open preceded by dropping what was open.
pub open spec fn open_each(m: LinkView, outcomes: Seq<Option<Seq<char>>>) -> LinkView
    decreases outcomes.len(),
{
    if outcomes.len() == 0 {
        m
    } else {
        attached(closed(open_each(m, outcomes.drop_last())), outcomes.last())
    }
}

/// One poll step over the abstract link.
pub open spec fn poll(m: LinkView, r: ReadView) -> (LinkView, EventView) {
    if m.port is None {
        (m, EventView::Idle)
    } else {
        match r {
            ReadView::Text(t) => (
                LinkView { log: m.log + frame_lines(t), ..m },
                EventView::Lines(frame_lines(t)),
            ),
            ReadView::TimedOut => (m, EventView::Idle),
            ReadView::Disconnected => (closed(m), EventView::Disconnected),
            ReadView::Failed(e) => (m, EventView::Fault(e)),
        }
    }
}

/// The outcome of an open attempt, as the name it resolved to or `None` on failure.
pub open spec fn open_view<P>(outcome: Result<(P, Option<String>), String>) -> Option<Seq<char>> {
    match outcome {
        Ok((_, n)) => Some(resolved_name(
            match n {
                Some(s) => Some(s@),
                None => None,
            },
        )),
        Err(_) => None,
    }
}

/// After any sequence of opens the link holds exactly the port of the last
/// open (none if it failed): every earlier port has been superseded, and the
/// rate and the log are untouched.
pub proof fn lemma_open_supersedes(m: LinkView, outcomes: Seq<Option<Seq<char>>>)
    requires
        outcomes.len() > 0,
    ensures
        open_each(m, outcomes).port == outcomes.last(),
        open_each(m, outcomes).baud_rate == m.baud_rate,
        open_each(m, outcomes).log == m.log,
    decreases outcomes.len(),
{
    if outcomes.len() > 1 {
        lemma_open_supersedes(m, outcomes.drop_last());
    } else {
        assert(open_each(m, outcomes.drop_last()) == m);
    }
}

/// Changing the rate while connected drops the port, and the reopen that
/// follows leaves either the newly opened port at the new rate or no port
/// at all: never the old port, never two.
pub proof fn lemma_rate_change_reopens(m: LinkView, rate: u32, reopened: Option<Seq<char>>)
    requires
        m.port is Some,
    ensures
        rate_changed(m, rate).port is None,
        attached(rate_changed(m, rate), reopened).baud_rate == rate,
        attached(rate_changed(m, rate), reopened).port == reopened,
        attached(rate_changed(m, rate), reopened).log == m.log,
{
}

/// Changing the rate while disconnected only stores the rate.
pub proof fn lemma_rate_change_disconnected(m: LinkView, rate: u32)
    requires
        m.port is None,
    ensures
        rate_changed(m, rate) == (LinkView { baud_rate: rate, ..m }),
{
}

/// A disconnect seen by the poll loop closes the link and publishes one
/// disconnection event; every later step, whatever it is handed, changes
/// nothing and publishes nothing.
pub proof fn lemma_disconnect_once(m: LinkView, later: ReadView)
    requires
        m.port is Some,
    ensures
        poll(m, ReadView::Disconnected) == (closed(m), EventView::Disconnected),
        closed(m).port is None,
        poll(closed(m), later) == (closed(m), EventView::Idle),
{
}

/// Decoded text is appended to the log line by line, in order, and each
/// line is published once, in the same order.
pub proof fn lemma_poll_appends_lines(m: LinkView, text: Seq<char>)
    requires
        m.port is Some,
    ensures
        poll(m, ReadView::Text(text)).0.log == m.log + frame_lines(text),
        poll(m, ReadView::Text(text)).1 == EventView::Lines(frame_lines(text)),
        poll(m, ReadView::Text(text)).0.port == m.port,
{
}

/// Once cleared, the log reads back empty, and clearing again changes nothing.
pub proof fn lemma_clear_reads_empty(m: LinkView)
    ensures
        cleared(m).log.len() == 0,
        cleared(cleared(m)) == cleared(m),
        cleared(m).port == m.port,
{
}

impl<P, D> View for SerialData<P, D> {
    type V = LinkView;

    open spec fn view(&self) -> LinkView {
        LinkView {
            baud_rate: self.settings.baud_rate,
            port: match self.connected_port {
                Some(p) => Some(p.name@),
                None => None,
            },
            log: texts(self.content@),
        }
    }
}

impl<P, D> SerialData<P, D> {
    /// A disconnected link with the given settings, no decoder and an empty log.
    pub fn new(settings: SerialSettings) -> (r: Self)
        ensures
            r@ == (LinkView { baud_rate: settings.baud_rate, port: None, log: Seq::empty() }),
            r.settings == settings,
            r.protocol is None,
            r.connected_port is None,
    {
        let r = SerialData { settings, content: Vec::new(), connected_port: None, protocol: None };
        assert(texts(r.content@) =~= Seq::empty());
        r
    }

    pub fn is_connected(&self) -> (r: bool)
        ensures
            r == self@.port is Some,
    {
        self.connected_port.is_some()
    }

    /// Drops the open port, if any.
    pub fn close_port(&mut self)
        ensures
            final(self)@ == closed(old(self)@),
            final(self).connected_port is None,
            final(self).protocol == old(self).protocol,
            final(self).settings == old(self).settings,
    {
        self.connected_port = None;
    }

    /// Records the outcome of opening `port` at the configured rate. On
    /// success the new handle is kept and its resolved name returned; on
    /// failure the link is left disconnected and the error names `port` and
    /// the cause. A port still held from before is dropped either way.
    pub fn attach_port(&mut self, port: &str, outcome: Result<(P, Option<String>), String>) -> (r:
        Result<String, LinkError>)
        ensures
            final(self)@ == attached(old(self)@, open_view(outcome)),
            final(self).protocol == old(self).protocol,
            final(self).settings == old(self).settings,
            match outcome {
                Ok((handle, _)) => {
                    &&& r is Ok
                    &&& open_view(outcome) == Some(r->Ok_0@)
                    &&& final(self).connected_port is Some
                    &&& final(self).connected_port->Some_0.handle == handle
                    &&& final(self).connected_port->Some_0.path@ == port@
                },
                Err(cause) => {
                    &&& open_failure(r, port@, cause@)
                    &&& final(self).connected_port is None
                },
            },
    {
        self.connected_port = None;
        match outcome {
            Ok((handle, reported)) => {
                let name = match reported {
                    Some(n) => n,
                    None => {
                        String::from_str("Unknown")
                    },
                };
                let answer = name.clone();
                self.connected_port = Some(OpenPort { handle, name, path: port.to_owned() });
                Ok(answer)
            },
            Err(cause) => Err(LinkError::OpenFailed { port: port.to_owned(), cause }),
        }
    }
    /// Stores the new rate. A port that is open is closed, and the identifier
    /// it was opened by is returned so that it can be reopened at the new
    /// rate; with no port open only the setting changes and nothing is to be
    /// opened.
    pub fn set_baud_rate(&mut self, baud_rate: u32) -> (reopen: Option<String>)
        ensures
            final(self)@ == rate_changed(old(self)@, baud_rate),
            final(self).settings.baud_rate == baud_rate,
            final(self).protocol == old(self).protocol,
            final(self).connected_port is None,
            final(self).content == old(self).content,
            match old(self).connected_port {
                Some(p) => reopen is Some && reopen->Some_0@ == p.path@,
                None => reopen is None,
            },
    {
        self.settings.baud_rate = baud_rate;
        let reopen = match &self.connected_port {
            Some(p) => Some(p.path.clone()),
            None => None,
        };
        self.connected_port = None;
        reopen
    }

    /// The resolved name of the open port, or empty text when disconnected.
    pub fn get_active_port(&self) -> (r: String)
        ensures
            r@ == match self@.port {
                Some(n) => n,
                None => Seq::<char>::empty(),
            },
    {
        match &self.connected_port {
            Some(p) => p.name.clone(),
            None => String::new(),
        }
    }

    /// The line to write for `message`: the message followed by a line feed,
    /// or `NoPortConnected` when no port is open.
    pub fn outgoing_line(&self, message: &str) -> (r: Result<String, LinkError>)
        ensures
            self@.port is None <==> r == Err::<String, LinkError>(LinkError::NoPortConnected),
            self@.port is Some ==> r is Ok && r->Ok_0@ == message@.push('\n'),
    {
        if self.connected_port.is_none() {
            return Err(LinkError::NoPortConnected);
        }
        let line = message.to_owned().concat("\n");
        proof {
            reveal_strlit("\n");
            assert(line@ =~= message@.push('\n'));
        }
        Ok(line)
    }

    /// A copy of the message log, oldest first.
    pub fn get_serial_content(&self) -> (r: Vec<String>)
        ensures
            texts(r@) == self@.log,
    {
        let mut r: Vec<String> = Vec::new();
        let mut i: usize = 0;
        while i < self.content.len()
            invariant
                i <= self.content@.len(),
                texts(r@) == texts(self.content@.subrange(0, i as int)),
            decreases self.content@.len() - i,
        {
            r.push(self.content[i].clone());
            assert(texts(self.content@.subrange(0, i + 1)) =~= texts(self.content@.subrange(0, i as int)).push(self.content@[i as int]@));
            assert(texts(r@) =~= texts(self.content@.subrange(0, i + 1)));
            i = i + 1;
        }
        assert(self.content@.subrange(0, i as int) =~= self.content@);
        r
    }

    /// Empties the message log.
    pub fn clear_serial_content(&mut self)
        ensures
            final(self)@ == cleared(old(self)@),
            final(self).connected_port == old(self).connected_port,
            final(self).protocol == old(self).protocol,
            final(self).settings == old(self).settings,
    {
        self.content = Vec::new();
        assert(texts(self.content@) =~= Seq::empty());
    }

    /// Binds a decoder, or unbinds it with `None` (raw lossy UTF-8 is then used).
    pub fn set_protocol(&mut self, protocol: Option<D>)
        ensures
            final(self)@ == old(self)@,
            final(self).connected_port == old(self).connected_port,
            final(self).content == old(self).content,
            final(self).protocol == protocol,
            final(self).settings == old(self).settings,
    {
        self.protocol = protocol;
    }

    /// Frames `text` into lines and appends them to the log; returns them.
    pub fn record_text(&mut self, text: &str) -> (lines: Vec<String>)
        ensures
            texts(lines@) == frame_lines(text@),
            final(self)@ == (LinkView { log: old(self)@.log + frame_lines(text@), ..old(self)@ }),
            final(self).connected_port == old(self).connected_port,
            final(self).protocol == old(self).protocol,
            final(self).settings == old(self).settings,
    {
        let lines = split_lines(text);
        let mut i: usize = 0;
        let ghost start = self.content@;
        while i < lines.len()
            invariant
                i <= lines@.len(),
                texts(self.content@) == texts(start) + texts(lines@.subrange(0, i as int)),
                self.connected_port == old(self).connected_port,
                self.protocol == old(self).protocol,
                self.settings == old(self).settings,
            decreases lines@.len() - i,
        {
            let ghost before = self.content@;
            self.content.push(lines[i].clone());
            assert(texts(lines@.subrange(0, i + 1)) =~= texts(lines@.subrange(0, i as int)).push(lines@[i as int]@));
            assert(texts(self.content@) =~= texts(before).push(lines@[i as int]@));
            i = i + 1;
        }
        assert(lines@.subrange(0, i as int) =~= lines@);
        lines
    }
}

impl<P, D: ProtocolTrait> SerialData<P, D> {
    /// The text a received chunk decodes to: the bound decoder's, or lossy
    /// UTF-8 when none is bound.
    pub open spec fn decoded_text(&self, bytes: Seq<u8>) -> Seq<char> {
        match self.protocol {
            Some(d) => d.decoded(bytes),
            None => lossy_utf8(bytes),
        }
    }

    /// The text a read outcome carries once decoded (empty when it carries no bytes).
    pub open spec fn outcome_text(&self, outcome: ReadOutcome) -> Seq<char> {
        match outcome {
            ReadOutcome::Data(b) => self.decoded_text(b@),
            _ => Seq::empty(),
        }
    }

    /// Decodes a received chunk with the bound decoder, or as lossy UTF-8
    /// when none is bound.
    pub fn decode(&self, bytes: &[u8]) -> (r: String)
        ensures
            r@ == self.decoded_text(bytes@),
    {
        match &self.protocol {
            Some(d) => d.parse_to_string(bytes),
            None => decode_lossy(bytes),
        }
    }

    /// One iteration of the poll loop, given what the read of the open port
    /// gave. With no port open nothing changes and nothing is published
    /// (and no read should have been made).
    pub fn poll_step(&mut self, outcome: ReadOutcome) -> (event: PollEvent)
        ensures
            poll(old(self)@, read_view(outcome, old(self).outcome_text(outcome))) == (
                final(self)@,
                event_view(event),
            ),
            event is Disconnected ==> final(self).connected_port is None,
            !(event is Disconnected) ==> final(self).connected_port == old(self).connected_port,
            final(self).protocol == old(self).protocol,
            final(self).settings == old(self).settings,
    {
        if self.connected_port.is_none() {
            assert(poll(old(self)@, read_view(outcome, self.outcome_text(outcome))) == (self@, event_view(PollEvent::Idle)));
            return PollEvent::Idle;
        }
        match outcome {
            ReadOutcome::Data(bytes) => {
                let text = self.decode(bytes.as_slice());
                let lines = self.record_text(text.as_str());
                let event = PollEvent::Lines(lines);
                assert(poll(old(self)@, read_view(outcome, text@)) == (self@, event_view(event)));
                event
            },
            ReadOutcome::TimedOut => {
                assert(poll(old(self)@, read_view(outcome, Seq::empty())) == (self@, event_view(PollEvent::Idle)));
                PollEvent::Idle
            },
            ReadOutcome::Disconnected => {
                self.connected_port = None;
                assert(poll(old(self)@, read_view(outcome, Seq::empty())) == (self@, event_view(PollEvent::Disconnected)));
                PollEvent::Disconnected
            },
            ReadOutcome::Failed(e) => {
                let event = PollEvent::Fault(e);
                assert(poll(old(self)@, read_view(outcome, Seq::empty())) == (self@, event_view(event)));
                event
            },
        }
    }
}

} // verus!
