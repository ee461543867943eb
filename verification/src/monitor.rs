use vstd::prelude::*;
use vstd::string::StringExecFns;

use crate::scan::chars_of;
use crate::scan::contains_chars;
use crate::scan::contains_pattern;

verus! {

/// One notification from the child's execution machinery: a chunk of a
/// standard stream, termination with an optional exit code, or a variant the
/// monitor does not recognize and ignores.
pub enum OutputEvent {
    Stdout(Vec<u8>),
    Stderr(Vec<u8>),
    Terminated(Option<i32>),
    Other,
}

/// The mathematical shape of an event.
#[verifier::ext_equal]
pub enum EventModel {
    Stdout(Seq<u8>),
    Stderr(Seq<u8>),
    Terminated(Option<i32>),
    Other,
}

impl View for OutputEvent {
    type V = EventModel;

    open spec fn view(&self) -> EventModel {
        match self {
            OutputEvent::Stdout(b) => EventModel::Stdout(b@),
            OutputEvent::Stderr(b) => EventModel::Stderr(b@),
            OutputEvent::Terminated(code) => EventModel::Terminated(*code),
            OutputEvent::Other => EventModel::Other,
        }
    }
}

/// One log entry the monitor asks its caller to emit. The caller only prints;
/// every decision about level and wording is made (and verified) here, except
/// the exit-code formatting, which stays with the caller.
pub enum MonitorAction {
    Info(String),
    Error(String),
    Critical(String),
    Exited(Option<i32>),
}

/// The mathematical shape of a log entry.
#[verifier::ext_equal]
pub enum ActionModel {
    Info(Seq<char>),
    Error(Seq<char>),
    Critical(Seq<char>),
    Exited(Option<i32>),
}

impl View for MonitorAction {
    type V = ActionModel;

    open spec fn view(&self) -> ActionModel {
        match self {
            MonitorAction::Info(s) => ActionModel::Info(s@),
            MonitorAction::Error(s) => ActionModel::Error(s@),
            MonitorAction::Critical(s) => ActionModel::Critical(s@),
            MonitorAction::Exited(code) => ActionModel::Exited(*code),
        }
    }
}

/// What a stderr chunk is scanned for: an exact, case-sensitive substring.
pub open spec fn conflict_pattern() -> Seq<char> {
    "address already in use"@
}

/// The decoding `String::from_utf8_lossy` performs: UTF-8, with invalid
/// sequences replaced rather than rejected. A function of the bytes alone.
pub uninterp spec fn lossy_text(bytes: Seq<u8>) -> Seq<char>;

/// Relies on `String::from_utf8_lossy`: decodes a byte chunk as UTF-8 text,
/// replacing invalid sequences; its result depends on the bytes alone.
#[verifier::external_body]
fn decode_lossy(bytes: &Vec<u8>) -> (r: String)
    ensures
        r@ == lossy_text(bytes@),
{
    String::from_utf8_lossy(bytes.as_slice()).into_owned()
}

/// The informational line owed for a stdout chunk.
pub open spec fn stdout_line(b: Seq<u8>) -> Seq<char> {
    "Python: "@ + lossy_text(b)
}

/// The error line owed for a stderr chunk.
pub open spec fn stderr_line(b: Seq<u8>) -> Seq<char> {
    "Python Error: "@ + lossy_text(b)
}

/// The critical diagnostic owed when a stderr chunk reports the port conflict.
pub open spec fn conflict_text() -> Seq<char> {
    "CRITICAL: Port 8000 is occupied. Please ensure no other PS Analyzer instance is running."@
}

/// The log entries owed for a single event.
pub open spec fn event_actions(e: EventModel) -> Seq<ActionModel> {
    match e {
        EventModel::Stdout(b) => seq![ActionModel::Info(stdout_line(b))],
        EventModel::Stderr(b) => if contains_pattern(lossy_text(b), conflict_pattern()) {
            seq![ActionModel::Error(stderr_line(b)), ActionModel::Critical(conflict_text())]
        } else {
            seq![ActionModel::Error(stderr_line(b))]
        },
        EventModel::Terminated(code) => seq![ActionModel::Exited(code)],
        EventModel::Other => Seq::<ActionModel>::empty(),
    }
}

/// The log owed for a whole stream: events are consumed in order, and nothing
/// past the first termination event is consumed.
pub open spec fn monitor_log(evs: Seq<EventModel>) -> Seq<ActionModel>
    decreases evs.len(),
{
    if evs.len() == 0 {
        Seq::<ActionModel>::empty()
    } else if evs[0] is Terminated {
        event_actions(evs[0])
    } else {
        event_actions(evs[0]) + monitor_log(evs.drop_first())
    }
}

/// The models of a vector of events.
pub open spec fn events_model(s: Seq<OutputEvent>) -> Seq<EventModel> {
    s.map_values(|e: OutputEvent| e@)
}

/// The models of a vector of log entries.
pub open spec fn actions_model(s: Seq<MonitorAction>) -> Seq<ActionModel> {
    s.map_values(|a: MonitorAction| a@)
}

/// Consumes the child's event stream one event at a time, classifies each,
/// and stops for good once the child reports termination.
pub struct EventMonitor {
    pub stopped: bool,
}

impl EventMonitor {
    /// A monitor that has consumed nothing yet.
    pub fn new() -> (m: EventMonitor)
        ensures
            !m.stopped,
    {
        EventMonitor { stopped: false }
    }

    /// Classifies one event and returns the log entries owed for it. Decoding
    /// trouble is absorbed by replacement, and the port-conflict diagnostic is
    /// observational only: the single way the monitor stops is a termination
    /// event.
    pub fn step(&mut self, event: &OutputEvent) -> (acts: Vec<MonitorAction>)
        requires
            !old(self).stopped,
        ensures
            actions_model(acts@) == event_actions(event@),
            final(self).stopped == (event@ is Terminated),
    {
        let mut acts: Vec<MonitorAction> = Vec::new();
        match event {
            OutputEvent::Stdout(line) => {
                let decoded = decode_lossy(line);
                let mut msg = String::from_str("Python: ");
                msg.append(decoded.as_str());
                acts.push(MonitorAction::Info(msg));
                proof {
                    assert(actions_model(acts@) =~~= event_actions(event@));
                }
            },
            OutputEvent::Stderr(line) => {
                let decoded = decode_lossy(line);
                let text = chars_of(decoded.as_str());
                let pat = chars_of("address already in use");
                let found = contains_chars(&text, &pat);
                let mut msg = String::from_str("Python Error: ");
                msg.append(decoded.as_str());
                acts.push(MonitorAction::Error(msg));
                if found {
                    acts.push(MonitorAction::Critical(String::from_str(
                        "CRITICAL: Port 8000 is occupied. Please ensure no other PS Analyzer instance is running.",
                    )));
                }
                proof {
                    assert(actions_model(acts@) =~~= event_actions(event@));
                }
            },
            OutputEvent::Terminated(code) => {
                acts.push(MonitorAction::Exited(*code));
                self.stopped = true;
                proof {
                    assert(actions_model(acts@) =~~= event_actions(event@));
                }
            },
            OutputEvent::Other => {
                proof {
                    assert(actions_model(acts@) =~~= event_actions(event@));
                }
            },
        }
        acts
    }

    /// Consumes a recorded stream: steps through the events in order and
    /// stops strictly after the first termination event, whatever follows it.
    pub fn run(&mut self, events: &Vec<OutputEvent>) -> (log: Vec<MonitorAction>)
        requires
            !old(self).stopped,
        ensures
            actions_model(log@) == monitor_log(events_model(events@)),
    {
        let ghost evs = events_model(events@);
        let mut log: Vec<MonitorAction> = Vec::new();
        let mut i: usize = 0;
        while i < events.len() && !self.stopped
            invariant
                0 <= i <= events@.len(),
                evs == events_model(events@),
                evs.len() == events@.len(),
                !self.stopped ==> actions_model(log@) == monitor_log(evs.take(i as int)),
                !self.stopped ==> forall|j: int| 0 <= j < i ==> !(evs[j] is Terminated),
                self.stopped ==> actions_model(log@) == monitor_log(evs),
            decreases events@.len() - i,
        {
            let ghost log0 = log@;
            let mut acts = self.step(&events[i]);
            let ghost acts0 = acts@;
            log.append(&mut acts);
            proof {
                assert(events@[i as int]@ == evs[i as int]);
                assert(actions_model(log@) =~= actions_model(log0) + actions_model(acts0));
                lemma_monitor_log_snoc(evs, i as int);
                if self.stopped {
                    lemma_stops_after_terminated(evs, i as int);
                }
            }
            i = i + 1;
        }
        proof {
            if !self.stopped {
                assert(evs.take(i as int) =~= evs);
            }
        }
        log
    }
}

/// Law: the critical port-conflict diagnostic is owed for a stderr chunk if
/// and only if the chunk's decoded text holds the exact, case-sensitive
/// pattern.
pub proof fn lemma_conflict_diagnostic_iff(b: Seq<u8>)
    ensures
        event_actions(EventModel::Stderr(b)).contains(ActionModel::Critical(conflict_text()))
            <==> contains_pattern(lossy_text(b), conflict_pattern()),
{
    let acts = event_actions(EventModel::Stderr(b));
    if contains_pattern(lossy_text(b), conflict_pattern()) {
        assert(acts[1] == ActionModel::Critical(conflict_text()));
    } else {
        assert(forall|i: int|
            0 <= i < acts.len() ==> acts[i] != ActionModel::Critical(conflict_text()));
    }
}

/// Appending one more event to a prefix that holds no termination event
/// extends the owed log by exactly that event's entries.
proof fn lemma_monitor_log_snoc(evs: Seq<EventModel>, i: int)
    requires
        0 <= i < evs.len(),
        forall|j: int| 0 <= j < i ==> !(evs[j] is Terminated),
    ensures
        monitor_log(evs.take(i + 1)) == monitor_log(evs.take(i)) + event_actions(evs[i]),
    decreases i,
{
    assert(evs.take(i + 1)[0] == evs[0]);
    if i == 0 {
        assert(evs.take(0).len() == 0);
        assert(monitor_log(evs.take(0)) == Seq::<ActionModel>::empty());
        assert(evs.take(1).len() == 1);
        if !(evs[0] is Terminated) {
            assert(evs.take(1).drop_first().len() == 0);
            assert(monitor_log(evs.take(1).drop_first()) == Seq::<ActionModel>::empty());
        }
        assert(monitor_log(evs.take(1)) =~= monitor_log(evs.take(0)) + event_actions(evs[0]));
    } else {
        assert(!(evs[0] is Terminated));
        assert(evs.take(i)[0] == evs[0]);
        assert(evs.take(i + 1).drop_first() =~= evs.drop_first().take(i));
        assert(evs.take(i).drop_first() =~= evs.drop_first().take(i - 1));
        assert forall|j: int| 0 <= j < i - 1 implies !(evs.drop_first()[j] is Terminated) by {
            assert(evs.drop_first()[j] == evs[j + 1]);
        }
        lemma_monitor_log_snoc(evs.drop_first(), i - 1);
        assert(evs.drop_first()[i - 1] == evs[i]);
        assert(monitor_log(evs.take(i + 1)) =~= monitor_log(evs.take(i)) + event_actions(evs[i]));
    }
}

/// Law: the monitor stops strictly after consuming a termination event — the
/// owed log of a stream holding one equals the owed log of its prefix that
/// ends with the first such event, whatever (erroneously) follows it.
pub proof fn lemma_stops_after_terminated(evs: Seq<EventModel>, i: int)
    requires
        0 <= i < evs.len(),
        evs[i] is Terminated,
    ensures
        monitor_log(evs) == monitor_log(evs.take(i + 1)),
    decreases i,
{
    assert(evs.take(i + 1)[0] == evs[0]);
    if evs[0] is Terminated {
        assert(monitor_log(evs) == event_actions(evs[0]));
        assert(monitor_log(evs.take(i + 1)) == event_actions(evs[0]));
    } else {
        assert(i > 0);
        lemma_stops_after_terminated(evs.drop_first(), i - 1);
        assert(evs.drop_first()[i - 1] == evs[i]);
        assert(evs.take(i + 1).drop_first() =~= evs.drop_first().take(i));
        assert(monitor_log(evs) =~= monitor_log(evs.take(i + 1)));
    }
}

} // verus!
