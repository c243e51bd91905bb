//! The bridge: carries the results of the quiz server over to the display.
//!
//! [`BridgeSession`] decides and the host program acts. The program carries out
//! [`BridgeSession::action`] and hands the outcome to [`BridgeSession::handle`], until the session
//! fails; after a pause it starts the next one.
#[allow(unused_imports)]
use crate::chain::Chain;
#[allow(unused_imports)]
use crate::firmware::{Event, Handles, Link, State};
use crate::gatt::{CONTROL_BLINK_START, CONTROL_BLINK_STOP, CONTROL_CHAR, VOTES_CHAR};
use vstd::prelude::*;
use vstd::string::StringExecFns;

verus! {

/// How long to look for the display before giving up.
pub const SCAN_WINDOW_SECS: u64 = 30;

/// How long connecting may take.
pub const CONNECT_TIMEOUT_SECS: u64 = 10;

/// Pause between a failed session and the next one.
pub const RETRY_BACKOFF_SECS: u64 = 2;

/// How long the quiz server may take to answer.
pub const HTTP_TIMEOUT_SECS: u64 = 3;

/// What the quiz server tells about the current question.
#[derive(Debug, Clone, Copy, PartialEq, Eq)]
pub struct Results {
    /// Vote percentages of A, B, C and D.
    pub votes: [u8; 4],
    /// The correct option.
    pub correct: u8,
    /// Whether the audience may know it.
    pub revealed: bool,
}

// --- looking for the display ---

/// What may come up while looking for the display.
#[derive(Debug)]
pub enum ScanEvent {
    /// A device advertised, under this name if it gave one.
    Seen(Option<String>),
    /// Anything else, a device that is out of reach again included.
    Unrelated,
    /// There will be no more events.
    StreamEnded,
    /// The scan window is over.
    WindowElapsed,
}

/// Why no display was found.
#[derive(Debug, Clone, Copy, PartialEq, Eq)]
pub enum ScanError {
    /// The adapter would not scan.
    StartFailed,
    /// The adapter would not report events.
    NoEvents,
    /// The events ended before the scan window did.
    StreamEnded,
    /// The display did not advertise within the scan window.
    NotFound,
}

/// What to make of a scan event.
#[derive(Debug, Clone, Copy, PartialEq, Eq)]
pub enum ScanVerdict {
    /// Wait for the next one.
    KeepScanning,
    /// This is the display.
    Found,
    /// Give up.
    GiveUp(ScanError),
}

/// What to make of a scan event when the display goes by the name `target`.
pub open spec fn scan_verdict(target: Seq<char>, event: ScanEvent) -> ScanVerdict {
    match event {
        ScanEvent::Seen(Some(name)) => if name@ == target {
            ScanVerdict::Found
        } else {
            ScanVerdict::KeepScanning
        },
        ScanEvent::Seen(None) => ScanVerdict::KeepScanning,
        ScanEvent::Unrelated => ScanVerdict::KeepScanning,
        ScanEvent::StreamEnded => ScanVerdict::GiveUp(ScanError::StreamEnded),
        ScanEvent::WindowElapsed => ScanVerdict::GiveUp(ScanError::NotFound),
    }
}

/// Judge a scan event when looking for the device named `target`.
pub fn judge_scan(target: &String, event: &ScanEvent) -> (verdict: ScanVerdict)
    ensures
        verdict == scan_verdict(target@, *event),
{
    match event {
        ScanEvent::Seen(Some(name)) => if *name == *target {
            ScanVerdict::Found
        } else {
            ScanVerdict::KeepScanning
        },
        ScanEvent::Seen(None) => ScanVerdict::KeepScanning,
        ScanEvent::Unrelated => ScanVerdict::KeepScanning,
        ScanEvent::StreamEnded => ScanVerdict::GiveUp(ScanError::StreamEnded),
        ScanEvent::WindowElapsed => ScanVerdict::GiveUp(ScanError::NotFound),
    }
}

/// How a scan ended: with the display, or with the reason why not.
pub type ScanEnd = Result<(), ScanError>;

/// Where a scan stands.
#[derive(Debug, Clone, Copy, PartialEq, Eq)]
pub enum ScanStep {
    Starting,
    Subscribing,
    Watching,
    Stopping(ScanEnd),
    Ended(ScanEnd),
}

/// What the host program is to do next about a scan.
#[derive(Debug, Clone, Copy, PartialEq, Eq)]
pub enum ScanAction {
    /// Tell the adapter to scan.
    Start,
    /// Ask the adapter for its events.
    Subscribe,
    /// Wait for the next event, or the end of the scan window.
    AwaitEvent,
    /// Tell the adapter to stop scanning.
    Stop,
    /// Report how the scan ended.
    Finish(ScanEnd),
}

/// What the host program reports back about a scan.
#[derive(Debug)]
pub enum ScanOutcome {
    /// The action succeeded.
    Done,
    /// The action failed.
    Failed,
    /// This event came up.
    Event(ScanEvent),
}

/// A scan for the display.
#[derive(Debug)]
pub struct Scan {
    /// Name under which the display advertises.
    pub target: String,
    pub step: ScanStep,
}

impl Scan {
    /// What the host program is to do next at this point of the scan.
    pub open spec fn spec_action(self) -> ScanAction {
        match self.step {
            ScanStep::Starting => ScanAction::Start,
            ScanStep::Subscribing => ScanAction::Subscribe,
            ScanStep::Watching => ScanAction::AwaitEvent,
            ScanStep::Stopping(_) => ScanAction::Stop,
            ScanStep::Ended(end) => ScanAction::Finish(end),
        }
    }

    /// The step after an outcome. One that does not answer the action at hand changes nothing.
    pub open spec fn step_after(self, outcome: ScanOutcome) -> ScanStep {
        match (self.step, outcome) {
            (ScanStep::Starting, ScanOutcome::Done) => ScanStep::Subscribing,
            (ScanStep::Starting, ScanOutcome::Failed) => ScanStep::Ended(
                Err(ScanError::StartFailed),
            ),
            (ScanStep::Subscribing, ScanOutcome::Done) => ScanStep::Watching,
            (ScanStep::Subscribing, ScanOutcome::Failed) => ScanStep::Ended(
                Err(ScanError::NoEvents),
            ),
            (ScanStep::Watching, ScanOutcome::Event(event)) => match scan_verdict(
                self.target@,
                event,
            ) {
                ScanVerdict::KeepScanning => ScanStep::Watching,
                ScanVerdict::Found => ScanStep::Stopping(Ok(())),
                ScanVerdict::GiveUp(error) => ScanStep::Stopping(Err(error)),
            },
            (ScanStep::Stopping(end), ScanOutcome::Done) => ScanStep::Ended(end),
            (ScanStep::Stopping(end), ScanOutcome::Failed) => ScanStep::Ended(end),
            (step, _) => step,
        }
    }

    /// The scan after an outcome.
    pub open spec fn after(self, outcome: ScanOutcome) -> Scan {
        Scan { step: self.step_after(outcome), ..self }
    }

    /// The scan after a run of outcomes.
    pub open spec fn run(self, outcomes: Seq<ScanOutcome>) -> Scan
        decreases outcomes.len(),
    {
        if outcomes.len() == 0 {
            self
        } else {
            self.run(outcomes.drop_last()).after(outcomes.last())
        }
    }

    /// How often the adapter was told to stop scanning in a run of outcomes.
    pub open spec fn stops(self, outcomes: Seq<ScanOutcome>) -> nat
        decreases outcomes.len(),
    {
        if outcomes.len() == 0 {
            0
        } else {
            let before = self.run(outcomes.drop_last());
            let stopped = before.step is Stopping && !(outcomes.last() is Event);
            self.stops(outcomes.drop_last()) + if stopped {
                1nat
            } else {
                0
            }
        }
    }

    /// Whether the adapter scanned and reported its events at some point of a run of outcomes.
    pub open spec fn watched(self, outcomes: Seq<ScanOutcome>) -> bool
        decreases outcomes.len(),
    {
        ||| self.run(outcomes).step is Watching
        ||| outcomes.len() > 0 && self.watched(outcomes.drop_last())
    }

    /// A scan for the device that advertises as `target`.
    pub fn new(target: String) -> (scan: Self)
        ensures
            scan == (Scan { target, step: ScanStep::Starting }),
    {
        Scan { target, step: ScanStep::Starting }
    }

    /// What the host program is to do next.
    pub fn action(&self) -> (action: ScanAction)
        ensures
            action == self.spec_action(),
    {
        match self.step {
            ScanStep::Starting => ScanAction::Start,
            ScanStep::Subscribing => ScanAction::Subscribe,
            ScanStep::Watching => ScanAction::AwaitEvent,
            ScanStep::Stopping(_) => ScanAction::Stop,
            ScanStep::Ended(end) => ScanAction::Finish(end),
        }
    }

    /// Take note of the outcome of the action at hand.
    pub fn handle(&mut self, outcome: &ScanOutcome)
        ensures
            *final(self) == old(self).after(*outcome),
    {
        match (self.step, outcome) {
            (ScanStep::Starting, ScanOutcome::Done) => {
                self.step = ScanStep::Subscribing;
            },
            (ScanStep::Starting, ScanOutcome::Failed) => {
                self.step = ScanStep::Ended(Err(ScanError::StartFailed));
            },
            (ScanStep::Subscribing, ScanOutcome::Done) => {
                self.step = ScanStep::Watching;
            },
            (ScanStep::Subscribing, ScanOutcome::Failed) => {
                self.step = ScanStep::Ended(Err(ScanError::NoEvents));
            },
            (ScanStep::Watching, ScanOutcome::Event(event)) => {
                match judge_scan(&self.target, event) {
                    ScanVerdict::KeepScanning => {},
                    ScanVerdict::Found => {
                        self.step = ScanStep::Stopping(Ok(()));
                    },
                    ScanVerdict::GiveUp(error) => {
                        self.step = ScanStep::Stopping(Err(error));
                    },
                }
            },
            (ScanStep::Stopping(end), ScanOutcome::Done) => {
                self.step = ScanStep::Ended(end);
            },
            (ScanStep::Stopping(end), ScanOutcome::Failed) => {
                self.step = ScanStep::Ended(end);
            },
            (_, _) => {},
        }
    }
}

// --- a session with the display ---

/// Why a session ended.
#[derive(Debug, Clone, Copy, PartialEq, Eq)]
pub enum SessionError {
    Scan(ScanError),
    ConnectTimedOut,
    ConnectFailed,
    DiscoverFailed,
    VotesCharMissing,
    ControlCharMissing,
    Disconnected,
    WriteVotesFailed,
    WriteBlinkStartFailed,
    WriteBlinkStopFailed,
}

/// What to tell the user when the display was not found. `quoted` is its name in quotation marks.
pub open spec fn not_found_text(quoted: Seq<char>) -> Seq<char> {
    "device "@ + quoted + " not found within 30 seconds"@
}

/// What to tell the user when the display was not found. `quoted` is its name in quotation marks.
pub fn not_found_message(quoted: &str) -> (text: String)
    ensures
        text@ == not_found_text(quoted@),
{
    let mut text: String = "device ".to_owned();
    text.append(quoted);
    text.append(" not found within 30 seconds");
    text
}

impl SessionError {
    /// What to tell the user about the end of a session with the device whose name, in quotation
    /// marks, is `quoted`.
    pub open spec fn text(self, quoted: Seq<char>) -> Seq<char> {
        match self {
            SessionError::Scan(ScanError::StartFailed) => "start_scan"@,
            SessionError::Scan(ScanError::NoEvents) => "subscribe to events"@,
            SessionError::Scan(ScanError::StreamEnded) => "event stream ended unexpectedly"@,
            SessionError::Scan(ScanError::NotFound) => not_found_text(quoted),
            SessionError::ConnectTimedOut => "BLE connect timed out after 10s"@,
            SessionError::ConnectFailed => "BLE connect"@,
            SessionError::DiscoverFailed => "discover services"@,
            SessionError::VotesCharMissing => "votes characteristic not found"@,
            SessionError::ControlCharMissing => "control characteristic not found"@,
            SessionError::Disconnected => "peripheral disconnected"@,
            SessionError::WriteVotesFailed => "write votes characteristic"@,
            SessionError::WriteBlinkStartFailed => "write blink start"@,
            SessionError::WriteBlinkStopFailed => "write blink stop"@,
        }
    }

    /// What to tell the user about the end of a session with the device whose name, in quotation
    /// marks, is `quoted`.
    pub fn message(&self, quoted: &str) -> (text: String)
        ensures
            text@ == self.text(quoted@),
    {
        match self {
            SessionError::Scan(ScanError::StartFailed) => "start_scan".to_owned(),
            SessionError::Scan(ScanError::NoEvents) => "subscribe to events".to_owned(),
            SessionError::Scan(
                ScanError::StreamEnded,
            ) => "event stream ended unexpectedly".to_owned(),
            SessionError::Scan(ScanError::NotFound) => not_found_message(quoted),
            SessionError::ConnectTimedOut => "BLE connect timed out after 10s".to_owned(),
            SessionError::ConnectFailed => "BLE connect".to_owned(),
            SessionError::DiscoverFailed => "discover services".to_owned(),
            SessionError::VotesCharMissing => "votes characteristic not found".to_owned(),
            SessionError::ControlCharMissing => "control characteristic not found".to_owned(),
            SessionError::Disconnected => "peripheral disconnected".to_owned(),
            SessionError::WriteVotesFailed => "write votes characteristic".to_owned(),
            SessionError::WriteBlinkStartFailed => "write blink start".to_owned(),
            SessionError::WriteBlinkStopFailed => "write blink stop".to_owned(),
        }
    }
}

/// Where a session stands.
#[derive(Debug, Clone, Copy, PartialEq, Eq)]
pub enum Step {
    Scanning,
    Connecting,
    Discovering,
    Checking,
    Fetching,
    /// Writing the votes of these results.
    WritingVotes(Results),
    /// Making this option blink, or none.
    WritingControl(Option<u8>),
    Sleeping,
    Failed(SessionError),
}

/// What the host program is to do next.
#[derive(Debug, Clone, Copy, PartialEq, Eq)]
pub enum Action {
    /// Look for the display.
    Scan,
    /// Connect to it, within the connect timeout.
    Connect,
    /// Discover its services and list their characteristics.
    Discover,
    /// See whether it is still connected.
    CheckConnection,
    /// Ask the quiz server for the results.
    FetchResults,
    /// Write votes to a characteristic, given by its place in the list. They are `fresh` if they
    /// differ from those written last.
    WriteVotes { characteristic: usize, votes: [u8; 4], fresh: bool },
    /// Write a control command to a characteristic, given by its place in the list.
    WriteControl { characteristic: usize, command: [u8; 2] },
    /// Wait for the poll interval.
    Sleep,
    /// Report the error and end the session.
    Fail(SessionError),
}

/// What the host program reports back.
#[derive(Debug, Clone, Copy, PartialEq, Eq)]
pub enum Outcome<'a> {
    /// The action succeeded, and that is all there is to say.
    Done,
    /// The action failed.
    Failed,
    /// The action took too long.
    TimedOut,
    /// No display was found.
    ScanFailed(ScanError),
    /// The UUIDs of the display's characteristics.
    Characteristics(&'a [u128]),
    /// Whether the display is still connected.
    Connected(bool),
    /// The results of the quiz server.
    Results(Results),
}

/// A session with the display.
#[derive(Debug, Clone, Copy, PartialEq, Eq)]
pub struct BridgeSession {
    pub step: Step,
    /// Place of the votes characteristic in the list, once it is known.
    pub votes_char: usize,
    /// Place of the control characteristic in the list, once it is known.
    pub control_char: usize,
    /// The votes written last.
    pub last_votes: Option<[u8; 4]>,
    /// The option that the display was last told to blink.
    pub last_blink_target: Option<u8>,
}

impl Results {
    /// The option that ought to blink: the correct one, once it is revealed and if it is on the
    /// display.
    pub open spec fn blinking(self) -> Option<u8> {
        if self.revealed && self.correct < 4 {
            Some(self.correct)
        } else {
            None
        }
    }

    /// The option that ought to blink.
    pub fn blink_target(&self) -> (target: Option<u8>)
        ensures
            target == self.blinking(),
            target is Some <==> self.revealed && self.correct < 4,
            target matches Some(option) ==> option == self.correct,
    {
        if self.revealed && self.correct < 4 {
            Some(self.correct)
        } else {
            None
        }
    }
}

/// The control command that makes this option blink, or none.
pub open spec fn blink_command(target: Option<u8>) -> [u8; 2] {
    match target {
        Some(option) => [CONTROL_BLINK_START, option],
        None => [CONTROL_BLINK_STOP, 0],
    }
}

/// The first place of a UUID in a list.
pub open spec fn first_place(uuids: Seq<u128>, uuid: u128) -> Option<usize>
    decreases uuids.len(),
{
    if uuids.len() == 0 {
        None
    } else {
        match first_place(uuids.drop_last(), uuid) {
            Some(place) => Some(place),
            None => if uuids.last() == uuid {
                Some((uuids.len() - 1) as usize)
            } else {
                None
            },
        }
    }
}

/// Find a characteristic by its UUID.
pub fn find_characteristic(uuids: &[u128], uuid: u128) -> (place: Option<usize>)
    ensures
        place == first_place(uuids@, uuid),
{
    let mut i: usize = 0;
    let mut place: Option<usize> = None;
    assert(uuids@.take(0) =~= seq![]);
    while i < uuids.len()
        invariant
            i <= uuids@.len(),
            place == first_place(uuids@.take(i as int), uuid),
        decreases uuids@.len() - i,
    {
        assert(uuids@.take(i + 1).drop_last() =~= uuids@.take(i as int));
        if place.is_none() && uuids[i] == uuid {
            place = Some(i);
        }
        i += 1;
    }
    assert(uuids@.take(i as int) =~= uuids@);
    place
}

impl BridgeSession {
    /// What the host program is to do next at this point of the session.
    pub open spec fn spec_action(self) -> Action {
        match self.step {
            Step::Scanning => Action::Scan,
            Step::Connecting => Action::Connect,
            Step::Discovering => Action::Discover,
            Step::Checking => Action::CheckConnection,
            Step::Fetching => Action::FetchResults,
            Step::WritingVotes(results) => Action::WriteVotes {
                characteristic: self.votes_char,
                votes: results.votes,
                fresh: self.last_votes != Some(results.votes),
            },
            Step::WritingControl(target) => Action::WriteControl {
                characteristic: self.control_char,
                command: blink_command(target),
            },
            Step::Sleeping => Action::Sleep,
            Step::Failed(error) => Action::Fail(error),
        }
    }

    /// The session once its error is known.
    pub open spec fn failed(self, error: SessionError) -> BridgeSession {
        BridgeSession { step: Step::Failed(error), ..self }
    }

    /// The session once the display's characteristics are known.
    pub open spec fn discovered(self, uuids: Seq<u128>) -> BridgeSession {
        match (first_place(uuids, VOTES_CHAR), first_place(uuids, CONTROL_CHAR)) {
            (None, _) => self.failed(SessionError::VotesCharMissing),
            (Some(_), None) => self.failed(SessionError::ControlCharMissing),
            (Some(votes_char), Some(control_char)) => BridgeSession {
                step: Step::Checking,
                votes_char,
                control_char,
                ..self
            },
        }
    }

    /// The session once the votes of these results are written: the display is told what blinks
    /// only if that changed.
    pub open spec fn votes_written(self, results: Results) -> BridgeSession {
        BridgeSession {
            step: if results.blinking() != self.last_blink_target {
                Step::WritingControl(results.blinking())
            } else {
                Step::Sleeping
            },
            last_votes: Some(results.votes),
            ..self
        }
    }

    /// The session after an outcome. One that does not answer the action at hand changes nothing.
    pub open spec fn after(self, outcome: Outcome) -> BridgeSession {
        match (self.step, outcome) {
            (Step::Scanning, Outcome::Done) => BridgeSession { step: Step::Connecting, ..self },
            (Step::Scanning, Outcome::ScanFailed(error)) => self.failed(SessionError::Scan(error)),
            (Step::Connecting, Outcome::Done) => BridgeSession { step: Step::Discovering, ..self },
            (Step::Connecting, Outcome::TimedOut) => self.failed(SessionError::ConnectTimedOut),
            (Step::Connecting, Outcome::Failed) => self.failed(SessionError::ConnectFailed),
            (Step::Discovering, Outcome::Characteristics(uuids)) => self.discovered(uuids@),
            (Step::Discovering, Outcome::Failed) => self.failed(SessionError::DiscoverFailed),
            (Step::Checking, Outcome::Connected(true)) => BridgeSession {
                step: Step::Fetching,
                ..self
            },
            (Step::Checking, Outcome::Connected(false)) => self.failed(SessionError::Disconnected),
            (Step::Checking, Outcome::Failed) => self.failed(SessionError::Disconnected),
            (Step::Fetching, Outcome::Results(results)) => BridgeSession {
                step: Step::WritingVotes(results),
                ..self
            },
            (Step::Fetching, Outcome::Failed) => BridgeSession { step: Step::Sleeping, ..self },
            (Step::WritingVotes(results), Outcome::Done) => self.votes_written(results),
            (Step::WritingVotes(_), Outcome::Failed) => self.failed(SessionError::WriteVotesFailed),
            (Step::WritingControl(target), Outcome::Done) => BridgeSession {
                step: Step::Sleeping,
                last_blink_target: target,
                ..self
            },
            (Step::WritingControl(Some(_)), Outcome::Failed) => self.failed(
                SessionError::WriteBlinkStartFailed,
            ),
            (Step::WritingControl(None), Outcome::Failed) => self.failed(
                SessionError::WriteBlinkStopFailed,
            ),
            (Step::Sleeping, Outcome::Done) => BridgeSession { step: Step::Checking, ..self },
            (_, _) => self,
        }
    }

    /// A new session, which knows nothing of what the display shows.
    pub fn new() -> (session: Self)
        ensures
            session == (BridgeSession {
                step: Step::Scanning,
                votes_char: 0,
                control_char: 0,
                last_votes: None,
                last_blink_target: None,
            }),
    {
        BridgeSession {
            step: Step::Scanning,
            votes_char: 0,
            control_char: 0,
            last_votes: None,
            last_blink_target: None,
        }
    }

    /// What the host program is to do next.
    pub fn action(&self) -> (action: Action)
        ensures
            action == self.spec_action(),
    {
        match self.step {
            Step::Scanning => Action::Scan,
            Step::Connecting => Action::Connect,
            Step::Discovering => Action::Discover,
            Step::Checking => Action::CheckConnection,
            Step::Fetching => Action::FetchResults,
            Step::WritingVotes(results) => Action::WriteVotes {
                characteristic: self.votes_char,
                votes: results.votes,
                fresh: !same_votes(self.last_votes, results.votes),
            },
            Step::WritingControl(target) => Action::WriteControl {
                characteristic: self.control_char,
                command: match target {
                    Some(option) => [CONTROL_BLINK_START, option],
                    None => [CONTROL_BLINK_STOP, 0],
                },
            },
            Step::Sleeping => Action::Sleep,
            Step::Failed(error) => Action::Fail(error),
        }
    }

    /// Take note of the outcome of the action at hand.
    pub fn handle(&mut self, outcome: Outcome)
        ensures
            *final(self) == old(self).after(outcome),
    {
        match (self.step, outcome) {
            (Step::Scanning, Outcome::Done) => {
                self.step = Step::Connecting;
            },
            (Step::Scanning, Outcome::ScanFailed(error)) => self.fail(SessionError::Scan(error)),
            (Step::Connecting, Outcome::Done) => {
                self.step = Step::Discovering;
            },
            (Step::Connecting, Outcome::TimedOut) => self.fail(SessionError::ConnectTimedOut),
            (Step::Connecting, Outcome::Failed) => self.fail(SessionError::ConnectFailed),
            (Step::Discovering, Outcome::Characteristics(uuids)) => self.discover(uuids),
            (Step::Discovering, Outcome::Failed) => self.fail(SessionError::DiscoverFailed),
            (Step::Checking, Outcome::Connected(connected)) => {
                if connected {
                    self.step = Step::Fetching;
                } else {
                    self.fail(SessionError::Disconnected);
                }
            },
            (Step::Checking, Outcome::Failed) => self.fail(SessionError::Disconnected),
            (Step::Fetching, Outcome::Results(results)) => {
                self.step = Step::WritingVotes(results);
            },
            (Step::Fetching, Outcome::Failed) => {
                self.step = Step::Sleeping;
            },
            (Step::WritingVotes(results), Outcome::Done) => {
                let target: Option<u8> = results.blink_target();
                self.last_votes = Some(results.votes);
                self.step = if same_option(target, self.last_blink_target) {
                    Step::Sleeping
                } else {
                    Step::WritingControl(target)
                };
            },
            (Step::WritingVotes(_), Outcome::Failed) => self.fail(SessionError::WriteVotesFailed),
            (Step::WritingControl(target), Outcome::Done) => {
                self.last_blink_target = target;
                self.step = Step::Sleeping;
            },
            (Step::WritingControl(Some(_)), Outcome::Failed) => self.fail(
                SessionError::WriteBlinkStartFailed,
            ),
            (Step::WritingControl(None), Outcome::Failed) => self.fail(
                SessionError::WriteBlinkStopFailed,
            ),
            (Step::Sleeping, Outcome::Done) => {
                self.step = Step::Checking;
            },
            (_, _) => {},
        }
    }

    /// End the session.
    fn fail(&mut self, error: SessionError)
        ensures
            *final(self) == old(self).failed(error),
    {
        self.step = Step::Failed(error);
    }

    /// Look the two characteristics up.
    fn discover(&mut self, uuids: &[u128])
        ensures
            *final(self) == old(self).discovered(uuids@),
    {
        match find_characteristic(uuids, VOTES_CHAR) {
            None => self.fail(SessionError::VotesCharMissing),
            Some(votes_char) => match find_characteristic(uuids, CONTROL_CHAR) {
                None => self.fail(SessionError::ControlCharMissing),
                Some(control_char) => {
                    self.step = Step::Checking;
                    self.votes_char = votes_char;
                    self.control_char = control_char;
                },
            },
        }
    }
}

/// Whether two options are the same one, or both absent.
fn same_option(a: Option<u8>, b: Option<u8>) -> (same: bool)
    ensures
        same == (a == b),
{
    match (a, b) {
        (Some(x), Some(y)) => x == y,
        (None, None) => true,
        (_, _) => false,
    }
}

/// Whether these are the votes written last.
fn same_votes(last: Option<[u8; 4]>, votes: [u8; 4]) -> (same: bool)
    ensures
        same == (last == Some(votes)),
{
    match last {
        Some(old_votes) => {
            let same: bool = old_votes[0] == votes[0] && old_votes[1] == votes[1] && old_votes[2]
                == votes[2] && old_votes[3] == votes[3];
            assert(same ==> old_votes =~= votes);
            same
        },
        None => false,
    }
}

/// Whether an HTTP status reports success.
pub fn status_is_success(status: u16) -> (success: bool)
    ensures
        success == (200 <= status < 300),
        success <==> status / 100 == 2,
{
    200 <= status && status < 300
}

// --- laws of the bridge ---

/// Looking a UUID up gives its first place if it is in the list, and nothing if it is not.
pub proof fn law_first_place(uuids: Seq<u128>, uuid: u128)
    requires
        uuids.len() <= usize::MAX,
    ensures
        first_place(uuids, uuid) is Some <==> uuids.contains(uuid),
        first_place(uuids, uuid) matches Some(place) ==> {
            &&& place < uuids.len()
            &&& uuids[place as int] == uuid
            &&& forall|i: int| 0 <= i < place ==> uuids[i] != uuid
        },
    decreases uuids.len(),
{
    if uuids.len() > 0 {
        let shorter = uuids.drop_last();
        law_first_place(shorter, uuid);
        assert(uuids.last() == uuids[uuids.len() - 1]);
        if uuids.contains(uuid) && uuids.last() != uuid {
            let i = choose|i: int| 0 <= i < uuids.len() && uuids[i] == uuid;
            assert(shorter[i] == uuid);
        }
        if shorter.contains(uuid) {
            let i = choose|i: int| 0 <= i < shorter.len() && shorter[i] == uuid;
            assert(uuids[i] == uuid);
        }
        assert forall|i: int| 0 <= i < shorter.len() implies shorter[i] == uuids[i] by {}
        if first_place(shorter, uuid) is None {
            assert forall|i: int| 0 <= i < shorter.len() implies uuids[i] != uuid by {
                assert(shorter[i] == uuids[i]);
            }
        }
    }
}

/// A display is found exactly when something advertises under the wanted name.
pub proof fn law_found_by_name(target: Seq<char>, event: ScanEvent)
    ensures
        scan_verdict(target, event) == ScanVerdict::Found <==> (event matches ScanEvent::Seen(
            Some(name),
        ) && name@ == target),
{
}

/// The adapter is told to stop scanning exactly once if it scanned and reported its events, and not
/// at all if starting or subscribing failed: so it is when a scan has ended, and never more before.
pub proof fn law_scan_stopped_once(scan: Scan, outcomes: Seq<ScanOutcome>)
    requires
        scan.step == ScanStep::Starting,
    ensures
        scan.run(outcomes).step is Ended ==> scan.stops(outcomes) == if scan.watched(outcomes) {
            1nat
        } else {
            0
        },
        !(scan.run(outcomes).step is Ended) ==> scan.stops(outcomes) == 0,
        scan.run(outcomes).step is Watching || scan.run(outcomes).step is Stopping ==> scan.watched(
            outcomes,
        ),
        scan.run(outcomes).step is Starting || scan.run(outcomes).step is Subscribing
            ==> !scan.watched(outcomes),
        scan.run(outcomes).step matches ScanStep::Stopping(end) ==> end != ScanEnd::Err(
            ScanError::StartFailed,
        ) && end != ScanEnd::Err(ScanError::NoEvents),
        scan.run(outcomes).step matches ScanStep::Ended(end) ==> (scan.watched(outcomes) <==> end
            != ScanEnd::Err(ScanError::StartFailed) && end != ScanEnd::Err(ScanError::NoEvents)),
    decreases outcomes.len(),
{
    if outcomes.len() > 0 {
        law_scan_stopped_once(scan, outcomes.drop_last());
    }
}

/// A scan that ended with the display saw it advertise under the wanted name.
pub proof fn law_found_was_seen(scan: Scan, outcomes: Seq<ScanOutcome>)
    requires
        scan.step == ScanStep::Starting,
        scan.run(outcomes).step == ScanStep::Stopping(Ok(())) || scan.run(outcomes).step
            == ScanStep::Ended(Ok(())),
    ensures
        exists|i: int|
            0 <= i < outcomes.len() && (#[trigger] outcomes[i] matches ScanOutcome::Event(event)
                && scan_verdict(scan.target@, event) == ScanVerdict::Found),
    decreases outcomes.len(),
{
    lemma_scan_target(scan, outcomes.drop_last());
    let before = scan.run(outcomes.drop_last());
    if before.step == ScanStep::Stopping(Ok(())) || before.step == ScanStep::Ended(Ok(())) {
        law_found_was_seen(scan, outcomes.drop_last());
        let i = choose|i: int|
            0 <= i < outcomes.drop_last().len() && (#[trigger] outcomes.drop_last()[i] matches
                ScanOutcome::Event(event) && scan_verdict(scan.target@, event)
                == ScanVerdict::Found);
        assert(outcomes[i] == outcomes.drop_last()[i]);
    } else {
        assert(outcomes[outcomes.len() - 1] == outcomes.last());
    }
}

proof fn lemma_scan_target(scan: Scan, outcomes: Seq<ScanOutcome>)
    ensures
        scan.run(outcomes).target == scan.target,
    decreases outcomes.len(),
{
    if outcomes.len() > 0 {
        lemma_scan_target(scan, outcomes.drop_last());
    }
}

/// A poll that reaches both sides writes the votes of the results, changed or not, to the votes
/// characteristic.
pub proof fn law_every_poll_writes_votes(session: BridgeSession, results: Results)
    requires
        session.step == Step::Checking,
    ensures
        session.after(Outcome::Connected(true)).after(
            Outcome::Results(results),
        ).spec_action() matches Action::WriteVotes { characteristic, votes, .. }
            && characteristic == session.votes_char && votes == results.votes,
{
}

/// The session after one undisturbed poll, up to the pause: the connection stands, the server
/// answers, and every write succeeds.
pub open spec fn polled(session: BridgeSession, results: Results) -> BridgeSession {
    let written = session.after(Outcome::Connected(true)).after(Outcome::Results(results)).after(
        Outcome::Done,
    );
    if written.step is WritingControl {
        written.after(Outcome::Done)
    } else {
        written
    }
}

/// The firmware's state after the writes of one undisturbed poll.
pub open spec fn shown(
    state: State,
    handles: Handles,
    session: BridgeSession,
    results: Results,
) -> State {
    let written = session.after(Outcome::Connected(true)).after(Outcome::Results(results)).after(
        Outcome::Done,
    );
    let voted = state.write(handles, handles.votes, results.votes@);
    match written.spec_action() {
        Action::WriteControl { command, .. } => voted.write(handles, handles.control, command@),
        _ => voted,
    }
}

/// The bridge keeps the display in step with the quiz server. If what blinks on the display is
/// what the bridge last asked for, as it is when both have just connected, then after a poll the
/// display has the votes of the results, blinks the correct option exactly if it is revealed, and
/// still agrees with the bridge.
pub proof fn law_bridge_drives_display(
    session: BridgeSession,
    results: Results,
    state: State,
    handles: Handles,
)
    requires
        session.step == Step::Checking,
        state.wf(),
        handles.votes != handles.control,
        state.blink_target == session.last_blink_target,
    ensures
        polled(session, results).step == Step::Sleeping,
        polled(session, results).last_blink_target == results.blinking(),
        polled(session, results).last_votes == Some(results.votes),
        shown(state, handles, session, results).votes == results.votes,
        shown(state, handles, session, results).blink_target == results.blinking(),
        results.revealed && results.correct < 4 ==> shown(
            state,
            handles,
            session,
            results,
        ).blink_target == Some(results.correct),
        !(results.revealed && results.correct < 4) ==> shown(
            state,
            handles,
            session,
            results,
        ).blink_target is None,
        shown(state, handles, session, results).wf(),
        shown(state, handles, session, results).link == state.link,
{
    assert([results.votes[0], results.votes[1], results.votes[2], results.votes[3]]
        =~= results.votes);
}

/// What a poll brings reaches the LEDs: once the display has worked off the writes of the poll, its
/// modules show the picture of the results, whatever they showed before, and are configured as
/// they were.
pub proof fn law_poll_reaches_the_leds(
    session: BridgeSession,
    results: Results,
    state: State,
    handles: Handles,
    chain: Chain,
    votes: &[u8],
    command: &[u8],
)
    requires
        session.step == Step::Checking,
        state.wf(),
        state.link == Link::Serving,
        handles.votes != handles.control,
        chain.wf(),
        votes@ == results.votes@,
        command@ == blink_command(results.blinking())@,
    ensures
        ({
            let write_votes = Event::Write { handle: handles.votes, data: votes };
            let write_command = Event::Write { handle: handles.control, data: command };
            let voted = state.after(handles, write_votes);
            let drawn = chain.run(state.drawn(handles, write_votes));
            if results.blinking() != session.last_blink_target {
                &&& shown(state, handles, session, results) == voted.after(handles, write_command)
                &&& drawn.run(voted.drawn(handles, write_command)).shows(
                    shown(state, handles, session, results).picture(),
                )
                &&& chain.configured() ==> drawn.run(
                    voted.drawn(handles, write_command),
                ).configured()
            } else {
                &&& shown(state, handles, session, results) == voted
                &&& drawn.shows(shown(state, handles, session, results).picture())
                &&& chain.configured() ==> drawn.configured()
            }
        }),
{
    let write_votes = Event::Write { handle: handles.votes, data: votes };
    let write_command = Event::Write { handle: handles.control, data: command };
    let voted = state.after(handles, write_votes);
    crate::firmware::law_redraw_repairs(state, handles, write_votes, chain);
    if results.blinking() != session.last_blink_target {
        crate::firmware::law_redraw_repairs(
            voted,
            handles,
            write_command,
            chain.run(state.drawn(handles, write_votes)),
        );
    }
}

/// A session and a firmware that have just connected agree that nothing blinks, however the
/// display was left.
pub proof fn law_fresh_connections_agree(session: BridgeSession, uuids: &[u128], state: State)
    requires
        session.step == Step::Scanning,
        session.last_blink_target is None,
        state.link == Link::Attaching,
    ensures
        session.after(Outcome::Done).after(Outcome::Done).after(
            Outcome::Characteristics(uuids),
        ).last_blink_target == state.step_done().blink_target,
{
}

/// A control command goes out only when what ought to blink changes, and it is one that the
/// display understands.
pub proof fn law_control_only_on_change(session: BridgeSession, results: Results)
    requires
        session.step == Step::WritingVotes(results),
    ensures
        session.after(Outcome::Done).step is WritingControl <==> results.blinking()
            != session.last_blink_target,
        session.after(Outcome::Done).spec_action() matches Action::WriteControl { command, .. }
            ==> State::valid_control(command[0], command[1]),
{
}

/// While the quiz server does not answer, the bridge waits and asks again, and forgets nothing.
pub proof fn law_server_trouble_is_survived(session: BridgeSession)
    requires
        session.step == Step::Fetching,
    ensures
        session.after(Outcome::Failed).after(Outcome::Done) == (BridgeSession {
            step: Step::Checking,
            ..session
        }),
        session.after(Outcome::Failed).spec_action() == Action::Sleep,
{
}

/// Trouble with the display, once there is a connection to it, ends the session.
pub proof fn law_display_trouble_ends_session(session: BridgeSession)
    ensures
        session.step == Step::Checking ==> session.after(
            Outcome::Connected(false),
        ).spec_action() == Action::Fail(SessionError::Disconnected),
        session.step is Checking || session.step is WritingVotes || session.step is WritingControl
            ==> session.after(Outcome::Failed).spec_action() is Fail,
{
}

/// A session that has failed stays failed, so the next one starts from nothing.
pub proof fn law_failure_is_final(session: BridgeSession, outcome: Outcome)
    requires
        session.step is Failed,
    ensures
        session.after(outcome) == session,
{
}

// --- laws of the bridge, over what goes in and what comes out ---

/// The option asked to blink is the correct one, and it is asked for exactly if it is revealed and
/// one of the four.
pub proof fn law_correct_answer_blinks(results: Results)
    ensures
        results.blinking() is Some <==> results.revealed && results.correct < 4,
        results.blinking() matches Some(option) ==> option == results.correct,
{
}

/// The command for a target is one that makes the firmware blink that target: command 1 with the
/// option, or command 2.
pub proof fn law_command_for_target(target: Option<u8>, state: State, handles: Handles)
    requires
        target matches Some(option) ==> option < 4,
        handles.votes != handles.control,
    ensures
        state.write(handles, handles.control, blink_command(target)@).blink_target == target,
        state.write(handles, handles.control, blink_command(target)@).votes == state.votes,
        target matches Some(option) ==> blink_command(target)@ == seq![1u8, option],
        target is None ==> blink_command(target)@ == seq![2u8, 0u8],
{
    if let Some(option) = target {
        assert(blink_command(target)@ =~= seq![1u8, option]);
    } else {
        assert(blink_command(target)@ =~= seq![2u8, 0u8]);
    }
}

impl BridgeSession {
    /// The session after a run of outcomes.
    pub open spec fn run(self, outcomes: Seq<Outcome>) -> BridgeSession
        decreases outcomes.len(),
    {
        if outcomes.len() == 0 {
            self
        } else {
            self.run(outcomes.drop_last()).after(outcomes.last())
        }
    }
}

/// Discovery succeeds exactly if both characteristics are in the list, and gives the first place
/// of each; otherwise the session fails and says which one is missing, the votes characteristic
/// first.
pub proof fn law_discovery_finds_both(session: BridgeSession, uuids: &[u128])
    requires
        session.step == Step::Discovering,
        uuids@.len() <= usize::MAX,
    ensures
        ({
            let after = session.after(Outcome::Characteristics(uuids));
            &&& uuids@.contains(VOTES_CHAR) && uuids@.contains(CONTROL_CHAR) <==> after.step
                == Step::Checking
            &&& after.step == Step::Checking ==> {
                &&& after.votes_char < uuids@.len()
                &&& after.control_char < uuids@.len()
                &&& uuids@[after.votes_char as int] == VOTES_CHAR
                &&& uuids@[after.control_char as int] == CONTROL_CHAR
                &&& forall|i: int| 0 <= i < after.votes_char ==> uuids@[i] != VOTES_CHAR
                &&& forall|i: int| 0 <= i < after.control_char ==> uuids@[i] != CONTROL_CHAR
            }
            &&& !uuids@.contains(VOTES_CHAR) ==> after.step == Step::Failed(
                SessionError::VotesCharMissing,
            )
            &&& uuids@.contains(VOTES_CHAR) && !uuids@.contains(CONTROL_CHAR) ==> after.step
                == Step::Failed(SessionError::ControlCharMissing)
            &&& after.last_votes == session.last_votes
            &&& after.last_blink_target == session.last_blink_target
        }),
{
    law_first_place(uuids@, VOTES_CHAR);
    law_first_place(uuids@, CONTROL_CHAR);
}

/// Whatever happens after discovery, votes are written to the characteristic with the votes UUID
/// and commands to the one with the control UUID.
pub proof fn law_writes_go_where_they_belong(
    session: BridgeSession,
    uuids: &[u128],
    outcomes: Seq<Outcome>,
)
    requires
        session.step == Step::Discovering,
        uuids@.len() <= usize::MAX,
    ensures
        ({
            let found = session.after(Outcome::Characteristics(uuids));
            let later = found.run(outcomes);
            &&& !(later.step is Scanning) && !(later.step is Connecting) && !(
            later.step is Discovering)
            &&& !(later.step is Failed) ==> {
                &&& later.votes_char < uuids@.len()
                &&& later.control_char < uuids@.len()
                &&& uuids@[later.votes_char as int] == VOTES_CHAR
                &&& uuids@[later.control_char as int] == CONTROL_CHAR
            }
            &&& later.votes_char == found.votes_char
            &&& later.control_char == found.control_char
            &&& later.spec_action() matches Action::WriteVotes { characteristic, .. }
                ==> characteristic == found.votes_char && characteristic < uuids@.len()
                && uuids@[characteristic as int] == VOTES_CHAR
            &&& later.spec_action() matches Action::WriteControl { characteristic, .. }
                ==> characteristic == found.control_char && characteristic < uuids@.len()
                && uuids@[characteristic as int] == CONTROL_CHAR
        }),
    decreases outcomes.len(),
{
    law_discovery_finds_both(session, uuids);
    if outcomes.len() > 0 {
        law_writes_go_where_they_belong(session, uuids, outcomes.drop_last());
    }
}

/// What the program is told to do at each step, and that writes carry the votes of the results and
/// the command for the target.
pub proof fn law_actions_by_step(session: BridgeSession)
    ensures
        session.step is Scanning <==> session.spec_action() is Scan,
        session.step is Connecting <==> session.spec_action() is Connect,
        session.step is Discovering <==> session.spec_action() is Discover,
        session.step is Checking <==> session.spec_action() is CheckConnection,
        session.step is Fetching <==> session.spec_action() is FetchResults,
        session.step is Sleeping <==> session.spec_action() is Sleep,
        session.step matches Step::Failed(error) ==> session.spec_action() == Action::Fail(error),
        session.step matches Step::WritingVotes(results) ==> (
        session.spec_action() matches Action::WriteVotes { characteristic, votes, fresh }
            && characteristic == session.votes_char && votes == results.votes && (fresh <==> (
        session.last_votes matches Some(last) ==> last != results.votes))),
        session.step matches Step::WritingControl(Some(option)) ==> (
        session.spec_action() matches Action::WriteControl { characteristic, command }
            && characteristic == session.control_char && command[0] == 1 && command[1] == option),
        session.step matches Step::WritingControl(None) ==> (
        session.spec_action() matches Action::WriteControl { characteristic, command }
            && characteristic == session.control_char && command[0] == 2 && command[1] == 0),
{
}

/// Setting a session up goes from scanning to connecting to discovering, and each step that fails
/// ends the session with an error of its own.
pub proof fn law_session_set_up(session: BridgeSession, error: ScanError)
    ensures
        session.step is Scanning ==> {
            &&& session.after(Outcome::Done) == (BridgeSession {
                step: Step::Connecting,
                ..session
            })
            &&& session.after(Outcome::ScanFailed(error)).step == Step::Failed(
                SessionError::Scan(error),
            )
        },
        session.step is Connecting ==> {
            &&& session.after(Outcome::Done) == (BridgeSession {
                step: Step::Discovering,
                ..session
            })
            &&& session.after(Outcome::TimedOut).step == Step::Failed(SessionError::ConnectTimedOut)
            &&& session.after(Outcome::Failed).step == Step::Failed(SessionError::ConnectFailed)
        },
        session.step is Discovering ==> session.after(Outcome::Failed).step == Step::Failed(
            SessionError::DiscoverFailed,
        ),
{
}

/// A poll checks the connection, asks for the results, writes their votes, tells the display what
/// blinks if that is not what it was told last, and sleeps. On the way the session remembers what
/// was written, and nothing else about it changes.
pub proof fn law_poll_step_by_step(session: BridgeSession, results: Results)
    ensures
        session.step is Checking ==> session.after(Outcome::Connected(true)) == (BridgeSession {
            step: Step::Fetching,
            ..session
        }),
        session.step is Fetching ==> session.after(Outcome::Results(results)) == (BridgeSession {
            step: Step::WritingVotes(results),
            ..session
        }),
        session.step == Step::WritingVotes(results) ==> {
            let answer = results.revealed && results.correct < 4;
            let told = if answer {
                session.last_blink_target == Some(results.correct)
            } else {
                session.last_blink_target is None
            };
            let after = session.after(Outcome::Done);
            &&& told ==> after.step is Sleeping
            &&& !told && answer ==> after.step == Step::WritingControl(Some(results.correct))
            &&& !told && !answer ==> after.step == Step::WritingControl(None)
            &&& after.last_votes == Some(results.votes)
            &&& after.last_blink_target == session.last_blink_target
            &&& after.votes_char == session.votes_char
            &&& after.control_char == session.control_char
        },
        session.step matches Step::WritingControl(target) ==> session.after(Outcome::Done) == (
        BridgeSession { step: Step::Sleeping, last_blink_target: target, ..session }),
        session.step is Sleeping ==> session.after(Outcome::Done) == (BridgeSession {
            step: Step::Checking,
            ..session
        }),
{
}

/// Failures while polling: only the quiz server may fail; a lost connection and a failed write end
/// the session, each with an error of its own.
pub proof fn law_poll_failures(session: BridgeSession)
    ensures
        session.step is Fetching ==> session.after(Outcome::Failed) == (BridgeSession {
            step: Step::Sleeping,
            ..session
        }),
        session.step is Checking ==> session.after(Outcome::Connected(false)).step == Step::Failed(
            SessionError::Disconnected,
        ) && session.after(Outcome::Failed).step == Step::Failed(SessionError::Disconnected),
        session.step is WritingVotes ==> session.after(Outcome::Failed).step == Step::Failed(
            SessionError::WriteVotesFailed,
        ),
        session.step matches Step::WritingControl(Some(_)) ==> session.after(Outcome::Failed).step
            == Step::Failed(SessionError::WriteBlinkStartFailed),
        session.step matches Step::WritingControl(None) ==> session.after(Outcome::Failed).step
            == Step::Failed(SessionError::WriteBlinkStopFailed),
{
}

/// An outcome that does not answer the action at hand changes nothing.
pub proof fn law_foreign_outcomes_ignored(session: BridgeSession, outcome: Outcome)
    requires
        outcome is Done ==> session.step is Discovering || session.step is Checking
            || session.step is Fetching || session.step is Failed,
        outcome is Failed ==> session.step is Scanning || session.step is Sleeping
            || session.step is Failed,
        outcome is TimedOut ==> !(session.step is Connecting),
        outcome is ScanFailed ==> !(session.step is Scanning),
        outcome is Characteristics ==> !(session.step is Discovering),
        outcome is Connected ==> !(session.step is Checking),
        outcome is Results ==> !(session.step is Fetching),
    ensures
        session.after(outcome) == session,
{
}

/// Votes count as fresh in a poll exactly if they differ from those of the poll before.
pub proof fn law_fresh_votes_differ(session: BridgeSession, first: Results, second: Results)
    requires
        session.step == Step::Checking,
    ensures
        polled(session, first).after(Outcome::Done).after(Outcome::Connected(true)).after(
            Outcome::Results(second),
        ).spec_action() matches Action::WriteVotes { fresh, .. } && (fresh <==> first.votes
            != second.votes),
{
}

/// After an undisturbed poll every LED is as the results have it: the bar of each option's vote,
/// with lit and dark rows swapped on the correct option while it is revealed and in its second
/// frame, and the letter cut out.
pub proof fn law_poll_lights_the_leds(
    session: BridgeSession,
    results: Results,
    state: State,
    handles: Handles,
    chain: Chain,
    module: int,
    row: u8,
    col: u8,
)
    requires
        session.step == Step::Checking,
        state.wf(),
        handles.votes != handles.control,
        state.blink_target == session.last_blink_target,
        chain.configured(),
        chain.shows(shown(state, handles, session, results).picture()),
        0 <= module < 4,
        1 <= row <= 8,
        col < 8,
    ensures
        ({
            let option = crate::display::OPTION_FOR_MODULE[module];
            let in_bar = row + crate::display::bar_height(results.votes[option as int]) > 8;
            let swapped = results.revealed && results.correct == option && shown(
                state,
                handles,
                session,
                results,
            ).blink_phase == 1;
            let in_letter = crate::display::col_lit(
                crate::display::LETTERS[option as int][row - 1],
                col,
            );
            chain.led(module, row, col) == ((in_bar != swapped) != in_letter)
        }),
{
    law_bridge_drives_display(session, results, state, handles);
    crate::firmware::law_picture_on_leds(
        shown(state, handles, session, results),
        chain,
        module,
        row,
        col,
    );
    crate::display::law_options_read_backwards(module);
}

/// A revealed answer starts to blink in its inverted frame, so that it is seen at once.
pub proof fn law_new_answer_starts_inverted(
    session: BridgeSession,
    results: Results,
    state: State,
    handles: Handles,
)
    requires
        session.step == Step::Checking,
        handles.votes != handles.control,
        results.revealed && results.correct < 4,
        session.last_blink_target != Some(results.correct),
    ensures
        shown(state, handles, session, results).blink_phase == 1,
        shown(state, handles, session, results).blink_target == Some(results.correct),
{
}

/// What is made of each scan event, by the event alone and the wanted name: the scan goes on until
/// the name is seen, and is given up when the events end or the time is over.
pub proof fn law_scan_events_judged(target: Seq<char>, event: ScanEvent)
    ensures
        event is StreamEnded ==> scan_verdict(target, event) == ScanVerdict::GiveUp(
            ScanError::StreamEnded,
        ),
        event is WindowElapsed ==> scan_verdict(target, event) == ScanVerdict::GiveUp(
            ScanError::NotFound,
        ),
        event is Unrelated ==> scan_verdict(target, event) == ScanVerdict::KeepScanning,
        event matches ScanEvent::Seen(name) ==> (scan_verdict(target, event) == if name is Some
            && name->0@ == target {
            ScanVerdict::Found
        } else {
            ScanVerdict::KeepScanning
        }),
{
}

/// A scan starts, subscribes and watches, in this order; what it comes to while watching is what it
/// reports, whether or not the adapter stops in good order.
pub proof fn law_scan_step_by_step(scan: Scan, outcome: ScanOutcome)
    ensures
        scan.after(outcome).target == scan.target,
        scan.step is Starting <==> scan.spec_action() is Start,
        scan.step is Subscribing <==> scan.spec_action() is Subscribe,
        scan.step is Watching <==> scan.spec_action() is AwaitEvent,
        scan.step is Stopping <==> scan.spec_action() is Stop,
        scan.step matches ScanStep::Ended(end) ==> scan.spec_action() == ScanAction::Finish(end)
            && scan.after(outcome) == scan,
        scan.step is Starting ==> {
            &&& outcome is Done ==> scan.after(outcome).step is Subscribing
            &&& outcome is Failed ==> scan.after(outcome).step == ScanStep::Ended(
                ScanEnd::Err(ScanError::StartFailed),
            )
            &&& outcome is Event ==> scan.after(outcome) == scan
        },
        scan.step is Subscribing ==> {
            &&& outcome is Done ==> scan.after(outcome).step is Watching
            &&& outcome is Failed ==> scan.after(outcome).step == ScanStep::Ended(
                ScanEnd::Err(ScanError::NoEvents),
            )
            &&& outcome is Event ==> scan.after(outcome) == scan
        },
        scan.step is Watching ==> match outcome {
            ScanOutcome::Event(ScanEvent::StreamEnded) => scan.after(outcome).step
                == ScanStep::Stopping(ScanEnd::Err(ScanError::StreamEnded)),
            ScanOutcome::Event(ScanEvent::WindowElapsed) => scan.after(outcome).step
                == ScanStep::Stopping(ScanEnd::Err(ScanError::NotFound)),
            ScanOutcome::Event(ScanEvent::Seen(Some(name))) => if name@ == scan.target@ {
                scan.after(outcome).step == ScanStep::Stopping(ScanEnd::Ok(()))
            } else {
                scan.after(outcome) == scan
            },
            _ => scan.after(outcome) == scan,
        },
        scan.step matches ScanStep::Stopping(end) ==> if outcome is Event {
            scan.after(outcome) == scan
        } else {
            scan.after(outcome).step == ScanStep::Ended(end)
        },
{
}

/// The text for a display that was not found holds its name, between what comes before and after;
/// so different names give different texts.
pub proof fn law_not_found_names_the_device(quoted: Seq<char>)
    ensures
        ({
            let text = SessionError::Scan(ScanError::NotFound).text(quoted);
            &&& text.len() == quoted.len() + 35
            &&& text.take(7) == "device "@
            &&& text.subrange(7, 7 + quoted.len() as int) == quoted
            &&& text.skip(7 + quoted.len() as int) == " not found within 30 seconds"@
        }),
{
    reveal_strlit("device ");
    reveal_strlit(" not found within 30 seconds");
    let text = not_found_text(quoted);
    assert(text.take(7) =~= "device "@);
    assert(text.subrange(7, 7 + quoted.len() as int) =~= quoted);
    assert(text.skip(7 + quoted.len() as int) =~= " not found within 30 seconds"@);
}

/// Only the text for a display that was not found depends on its name.
pub proof fn law_other_texts_name_no_device(
    error: SessionError,
    quoted: Seq<char>,
    other: Seq<char>,
)
    requires
        error != SessionError::Scan(ScanError::NotFound),
    ensures
        error.text(quoted) == error.text(other),
{
}

/// A session that ends keeps what it knew.
pub proof fn law_failing_forgets_nothing(session: BridgeSession, outcome: Outcome)
    requires
        session.after(outcome).step is Failed,
    ensures
        session.after(outcome) == (BridgeSession { step: session.after(outcome).step, ..session }),
{
}

} // verus!
