//! The firmware's control flow: advertise, accept a central, serve its writes, start over.
//!
//! [`Firmware`] decides and the board acts. The board carries out [`Firmware::command`], hands the
//! outcome to [`Firmware::handle`], works off the display operations that this queued, and
//! acknowledges the event if told to.
#[allow(unused_imports)]
use crate::chain::Chain;
#[allow(unused_imports)]
use crate::display;
use crate::display::{BusOp, QuizDisplay};
use crate::gatt::{CONTROL_BLINK_START, CONTROL_BLINK_STOP, CONTROL_CLEAR};
use vstd::prelude::*;

verus! {

/// Milliseconds between the frames of the blink animation: bar and inverse alternate once a second.
pub const BLINK_PHASE_MS: u64 = 500;

/// Attribute handles under which the GATT server knows its two characteristics.
#[derive(Debug, Clone, Copy, PartialEq, Eq)]
pub struct Handles {
    pub votes: u16,
    pub control: u16,
}

/// Where the firmware stands with its central.
#[derive(Debug, Clone, Copy, PartialEq, Eq)]
pub enum Link {
    Advertising,
    Accepting,
    Attaching,
    Serving,
}

/// What the firmware remembers.
#[derive(Debug, Clone, Copy, PartialEq, Eq)]
pub struct State {
    pub link: Link,
    /// The latest vote percentages. They outlive a connection.
    pub votes: [u8; 4],
    /// The option that blinks, if one does. Each connection starts without.
    pub blink_target: Option<u8>,
    /// The frame of the blink animation, 0 or 1.
    pub blink_phase: u8,
}

/// What the board is to do next.
#[derive(Debug, Clone, Copy, PartialEq, Eq)]
pub enum Command {
    /// Start advertising.
    Advertise,
    /// Wait for a central to connect.
    Accept,
    /// Attach the GATT server to the connection.
    AttachServer,
    /// Wait for the connection's next event.
    AwaitEvent,
    /// Wait for the connection's next event, but no longer than this many milliseconds.
    AwaitEventFor(u64),
}

/// What the board reports back.
#[derive(Debug, Clone, Copy, PartialEq, Eq)]
pub enum Event<'a> {
    /// Advertising, accepting or attaching succeeded.
    StepDone,
    /// Advertising, accepting or attaching failed.
    StepFailed,
    /// The wait for an event ran out.
    BlinkTimeout,
    /// The central wrote to an attribute.
    Write { handle: u16, data: &'a [u8] },
    /// Another GATT request of the central.
    OtherGatt,
    /// The central is gone.
    Disconnected,
    /// Anything else that happened on the connection.
    OtherConnection,
}

impl State {
    /// A state the firmware can be in: the animation has two frames, and only options that are on
    /// the display blink.
    pub open spec fn wf(self) -> bool {
        &&& self.blink_phase < 2
        &&& self.blink_target matches Some(target) ==> target < 4
    }

    /// The bar bitmaps that belong on the display in this state.
    pub open spec fn picture(self) -> [u8; 4] {
        match self.blink_target {
            Some(target) => display::blink_bars(self.votes, target as usize, self.blink_phase),
            None => display::bars(self.votes),
        }
    }

    /// What the board is to do next in this state.
    pub open spec fn command(self) -> Command {
        match self.link {
            Link::Advertising => Command::Advertise,
            Link::Accepting => Command::Accept,
            Link::Attaching => Command::AttachServer,
            Link::Serving => if self.blink_target is Some {
                Command::AwaitEventFor(BLINK_PHASE_MS)
            } else {
                Command::AwaitEvent
            },
        }
    }

    /// The state after a step of setting up a connection succeeded.
    pub open spec fn step_done(self) -> State {
        match self.link {
            Link::Advertising => State { link: Link::Accepting, ..self },
            Link::Accepting => State { link: Link::Attaching, ..self },
            Link::Attaching => State {
                link: Link::Serving,
                blink_target: None,
                blink_phase: 0,
                ..self
            },
            Link::Serving => self,
        }
    }

    /// Whether a control command with this parameter does something.
    pub open spec fn valid_control(command: u8, param: u8) -> bool {
        ||| command == CONTROL_CLEAR
        ||| command == CONTROL_BLINK_START && param < 4
        ||| command == CONTROL_BLINK_STOP
    }

    /// The state after a control command.
    pub open spec fn control(self, command: u8, param: u8) -> State {
        if !State::valid_control(command, param) {
            self
        } else if command == CONTROL_CLEAR {
            State { votes: [0, 0, 0, 0], blink_target: None, ..self }
        } else if command == CONTROL_BLINK_START {
            State { blink_target: Some(param), blink_phase: 1, ..self }
        } else {
            State { blink_target: None, ..self }
        }
    }

    /// Whether a write to the firmware's attributes does something.
    pub open spec fn valid_write(handles: Handles, handle: u16, data: Seq<u8>) -> bool {
        if handle == handles.votes {
            data.len() == 4
        } else if handle == handles.control {
            data.len() == 2 && State::valid_control(data[0], data[1])
        } else {
            false
        }
    }

    /// The state after the central wrote `data` to an attribute.
    pub open spec fn write(self, handles: Handles, handle: u16, data: Seq<u8>) -> State {
        if !State::valid_write(handles, handle, data) {
            self
        } else if handle == handles.votes {
            State { votes: [data[0], data[1], data[2], data[3]], ..self }
        } else {
            self.control(data[0], data[1])
        }
    }

    /// The state after the blink timer ran out.
    pub open spec fn tick(self) -> State {
        if self.blink_target is Some {
            State { blink_phase: (1 - self.blink_phase) as u8, ..self }
        } else {
            self
        }
    }

    /// The state after an event.
    pub open spec fn after(self, handles: Handles, event: Event) -> State {
        match (self.link, event) {
            (Link::Serving, Event::BlinkTimeout) => self.tick(),
            (Link::Serving, Event::Write { handle, data }) => self.write(handles, handle, data@),
            (Link::Serving, Event::Disconnected) => State { link: Link::Advertising, ..self },
            (Link::Serving, _) => self,
            (_, Event::StepDone) => self.step_done(),
            (_, Event::StepFailed) => State { link: Link::Advertising, ..self },
            (_, _) => self,
        }
    }

    /// Whether an event makes the firmware redraw the display.
    pub open spec fn redraws(self, handles: Handles, event: Event) -> bool {
        &&& self.link == Link::Serving
        &&& match event {
            Event::BlinkTimeout => self.blink_target is Some,
            Event::Write { handle, data } => State::valid_write(handles, handle, data@),
            _ => false,
        }
    }

    /// The display operations that an event causes.
    pub open spec fn drawn(self, handles: Handles, event: Event) -> Seq<BusOp> {
        if self.redraws(handles, event) {
            display::render_ops(self.after(handles, event).picture())
        } else {
            seq![]
        }
    }

    /// Whether the central is owed a reply to an event: any GATT request, sensible or not.
    pub open spec fn acknowledges(self, event: Event) -> bool {
        self.link == Link::Serving && (event is Write || event is OtherGatt)
    }
}

/// The firmware: its state, and the display it draws on.
#[derive(Debug)]
pub struct Firmware {
    handles: Handles,
    state: State,
    display: QuizDisplay,
}

impl Firmware {
    /// What the firmware remembers.
    pub closed spec fn spec_state(&self) -> State {
        self.state
    }

    /// The attribute handles of its GATT server.
    pub closed spec fn spec_handles(&self) -> Handles {
        self.handles
    }

    /// The display operations that the board has yet to carry out.
    pub closed spec fn pending(&self) -> Seq<BusOp> {
        self.display@
    }

    /// The firmware after power-on: about to advertise, with no votes.
    pub fn new(handles: Handles, display: QuizDisplay) -> (firmware: Self)
        ensures
            firmware.spec_handles() == handles,
            firmware.pending() == display@,
            firmware.spec_state() == (State {
                link: Link::Advertising,
                votes: [0, 0, 0, 0],
                blink_target: None,
                blink_phase: 0,
            }),
            firmware.spec_state().wf(),
    {
        let votes: [u8; 4] = [0u8; 4];
        assert(votes =~= [0u8, 0u8, 0u8, 0u8]);
        Firmware {
            handles,
            state: State { link: Link::Advertising, votes, blink_target: None, blink_phase: 0 },
            display,
        }
    }

    /// What the firmware remembers.
    pub fn state(&self) -> (state: State)
        ensures
            state == self.spec_state(),
    {
        self.state
    }

    /// What the board is to do next.
    pub fn command(&self) -> (command: Command)
        ensures
            command == self.spec_state().command(),
    {
        match self.state.link {
            Link::Advertising => Command::Advertise,
            Link::Accepting => Command::Accept,
            Link::Attaching => Command::AttachServer,
            Link::Serving => match self.state.blink_target {
                Some(_) => Command::AwaitEventFor(BLINK_PHASE_MS),
                None => Command::AwaitEvent,
            },
        }
    }

    /// Hand the queued display operations over to the board.
    pub fn take_pending(&mut self) -> (ops: Vec<BusOp>)
        ensures
            ops@ == old(self).pending(),
            final(self).pending() == Seq::<BusOp>::empty(),
            final(self).spec_state() == old(self).spec_state(),
            final(self).spec_handles() == old(self).spec_handles(),
    {
        self.display.take_pending()
    }

    /// Take note of an event. The result says whether the event is to be acknowledged, once the
    /// queued display operations are done.
    pub fn handle(&mut self, event: Event) -> (acknowledge: bool)
        requires
            old(self).spec_state().wf(),
        ensures
            final(self).spec_handles() == old(self).spec_handles(),
            final(self).spec_state() == old(self).spec_state().after(
                old(self).spec_handles(),
                event,
            ),
            final(self).spec_state().wf(),
            final(self).pending() == old(self).pending() + old(self).spec_state().drawn(
                old(self).spec_handles(),
                event,
            ),
            acknowledge == old(self).spec_state().acknowledges(event),
    {
        match self.state.link {
            Link::Serving => match event {
                Event::BlinkTimeout => {
                    if self.state.blink_target.is_some() {
                        self.state.blink_phase = (self.state.blink_phase + 1) % 2;
                        self.redraw();
                    }
                    false
                },
                Event::Write { handle, data } => {
                    self.write(handle, data);
                    true
                },
                Event::OtherGatt => true,
                Event::Disconnected => {
                    self.state.link = Link::Advertising;
                    false
                },
                _ => false,
            },
            _ => {
                match event {
                    Event::StepDone => self.advance(),
                    Event::StepFailed => {
                        self.state.link = Link::Advertising;
                    },
                    _ => {},
                }
                false
            },
        }
    }

    /// A step of setting up a connection succeeded.
    fn advance(&mut self)
        ensures
            final(self).spec_handles() == old(self).spec_handles(),
            final(self).pending() == old(self).pending(),
            final(self).spec_state() == old(self).spec_state().step_done(),
    {
        match self.state.link {
            Link::Advertising => {
                self.state.link = Link::Accepting;
            },
            Link::Accepting => {
                self.state.link = Link::Attaching;
            },
            Link::Attaching => {
                self.state.link = Link::Serving;
                self.state.blink_target = None;
                self.state.blink_phase = 0;
            },
            Link::Serving => {},
        }
    }

    /// The central wrote to an attribute.
    fn write(&mut self, handle: u16, data: &[u8])
        requires
            old(self).spec_state().wf(),
        ensures
            final(self).spec_handles() == old(self).spec_handles(),
            final(self).spec_state() == old(self).spec_state().write(
                old(self).spec_handles(),
                handle,
                data@,
            ),
            final(self).pending() == old(self).pending() + if State::valid_write(
                old(self).spec_handles(),
                handle,
                data@,
            ) {
                display::render_ops(final(self).spec_state().picture())
            } else {
                seq![]
            },
    {
        if handle == self.handles.votes {
            if data.len() == 4 {
                self.state.votes = [data[0], data[1], data[2], data[3]];
                self.redraw();
            }
        } else if handle == self.handles.control {
            if data.len() == 2 {
                self.control(data[0], data[1]);
            }
        }
    }

    /// The central sent a control command.
    fn control(&mut self, command: u8, param: u8)
        ensures
            final(self).spec_handles() == old(self).spec_handles(),
            final(self).spec_state() == old(self).spec_state().control(command, param),
            final(self).pending() == old(self).pending() + if State::valid_control(command, param) {
                display::render_ops(final(self).spec_state().picture())
            } else {
                seq![]
            },
    {
        if command == CONTROL_CLEAR {
            self.state.blink_target = None;
            self.state.votes = [0, 0, 0, 0];
            self.display.clear();
            proof {
                display::lemma_no_votes_no_bars();
            }
        } else if command == CONTROL_BLINK_START {
            if param < 4 {
                self.state.blink_target = Some(param);
                self.state.blink_phase = 1;
                self.redraw();
            }
        } else if command == CONTROL_BLINK_STOP {
            self.state.blink_target = None;
            self.redraw();
        }
    }

    /// Draw the picture that belongs to the state.
    fn redraw(&mut self)
        ensures
            final(self).spec_handles() == old(self).spec_handles(),
            final(self).spec_state() == old(self).spec_state(),
            final(self).pending() == old(self).pending() + display::render_ops(
                old(self).spec_state().picture(),
            ),
    {
        match self.state.blink_target {
            Some(target) => {
                self.display.show_with_blink(
                    self.state.votes,
                    target as usize,
                    self.state.blink_phase,
                );
            },
            None => {
                self.display.show_bars(self.state.votes);
            },
        }
    }
}

// --- laws of the session ---

/// Every event leads from a possible state to a possible state.
pub proof fn law_states_stay_possible(state: State, handles: Handles, event: Event)
    requires
        state.wf(),
    ensures
        state.after(handles, event).wf(),
{
}

/// After power-on, with the display initialized and the startup animation over, the modules are
/// configured and show the picture of the state that the firmware starts in.
pub proof fn law_power_on(chain: Chain, state: State)
    requires
        chain.wf(),
        state.votes == [0u8, 0u8, 0u8, 0u8],
        state.blink_target is None,
    ensures
        chain.run(display::init_ops() + display::startup_ops()).wf(),
        chain.run(display::init_ops() + display::startup_ops()).configured(),
        chain.run(display::init_ops() + display::startup_ops()).shows(state.picture()),
{
    let ready = chain.run(display::init_ops());
    crate::chain::law_run_in_batches(chain, display::init_ops(), display::startup_ops());
    crate::chain::law_init_configures(chain);
    crate::chain::law_startup_ends_clear(ready);
    crate::chain::law_settings_keep_configuration(ready.run(display::startup_ops()), ready);
    display::lemma_no_votes_no_bars();
}

/// The display shows what the state says. If the modules show the picture of the state before an
/// event, then once the event's display operations are done they show that of the state after it,
/// and they stay configured.
/// The one exception is a new connection that begins in the inverted frame of a blink animation:
/// that frame stays up until the next write.
pub proof fn law_display_follows_state(state: State, handles: Handles, event: Event, chain: Chain)
    requires
        state.wf(),
        chain.wf(),
        chain.shows(state.picture()),
        !(state.link == Link::Attaching && event is StepDone && state.blink_target is Some
            && state.blink_phase == 1),
    ensures
        chain.run(state.drawn(handles, event)).wf(),
        chain.run(state.drawn(handles, event)).shows(state.after(handles, event).picture()),
        chain.configured() ==> chain.run(state.drawn(handles, event)).configured(),
{
    if state.redraws(handles, event) {
        law_redraw_repairs(state, handles, event, chain);
    } else if let Some(target) = state.blink_target {
        if state.link == Link::Attaching && event is StepDone {
            display::law_blink_rests(state.votes, target as usize, state.blink_phase);
        }
    }
}

/// A redraw puts the right picture up whatever the modules showed before, and keeps them
/// configured.
pub proof fn law_redraw_repairs(state: State, handles: Handles, event: Event, chain: Chain)
    requires
        chain.wf(),
        state.redraws(handles, event),
    ensures
        chain.run(state.drawn(handles, event)).wf(),
        chain.run(state.drawn(handles, event)).shows(state.after(handles, event).picture()),
        chain.configured() ==> chain.run(state.drawn(handles, event)).configured(),
{
    crate::chain::law_render_shows(chain, state.after(handles, event).picture());
    if chain.configured() {
        crate::chain::law_settings_keep_configuration(
            chain.run(state.drawn(handles, event)),
            chain,
        );
    }
}

/// A write of the wrong length, to a foreign attribute, or with an unknown command or option is
/// acknowledged and changes nothing.
pub proof fn law_bad_writes_change_nothing(
    state: State,
    handles: Handles,
    handle: u16,
    data: &[u8],
)
    requires
        state.link == Link::Serving,
        !State::valid_write(handles, handle, data@),
    ensures
        state.after(handles, Event::Write { handle, data }) == state,
        state.drawn(handles, Event::Write { handle, data }) == Seq::<BusOp>::empty(),
        state.acknowledges(Event::Write { handle, data }),
{
}

/// New votes replace the old ones and leave a blink animation running as it was.
pub proof fn law_votes_keep_the_blink(state: State, handles: Handles, data: &[u8])
    requires
        state.link == Link::Serving,
        data@.len() == 4,
    ensures
        ({
            let after = state.after(handles, Event::Write { handle: handles.votes, data });
            &&& after.votes@ == data@
            &&& after.blink_target == state.blink_target
            &&& after.blink_phase == state.blink_phase
            &&& after.link == state.link
        }),
{
    let after = state.after(handles, Event::Write { handle: handles.votes, data });
    assert(after.votes@ =~= data@);
}

/// The blink animation alternates between two frames, the bar chart and the one with the blinking
/// bar inverted, and goes on until something other than the timer happens.
pub proof fn law_blink_alternates(state: State, handles: Handles)
    requires
        state.wf(),
        state.link == Link::Serving,
        state.blink_target is Some,
    ensures
        ({
            let once = state.after(handles, Event::BlinkTimeout);
            let twice = once.after(handles, Event::BlinkTimeout);
            let target = state.blink_target->0 as usize;
            &&& twice == state
            &&& once.blink_phase != state.blink_phase
            &&& once.command() == Command::AwaitEventFor(BLINK_PHASE_MS)
            &&& state.blink_phase == 0 ==> state.picture() == display::bars(state.votes)
            &&& state.blink_phase == 1 ==> once.picture() == display::bars(state.votes)
            &&& state.blink_phase == 0 ==> once.picture() == display::blink_bars(
                state.votes,
                target,
                1,
            )
        }),
{
    display::law_blink_rests(state.votes, state.blink_target->0 as usize, 0);
}

/// Revealing an option shows its bar inverted at once; stopping brings the plain bar chart back,
/// with the votes untouched.
pub proof fn law_stop_undoes_reveal(state: State, option: u8, param: u8)
    requires
        option < 4,
    ensures
        ({
            let revealed = state.control(CONTROL_BLINK_START, option);
            let stopped = revealed.control(CONTROL_BLINK_STOP, param);
            &&& revealed.blink_target == Some(option)
            &&& revealed.picture() == display::blink_bars(state.votes, option as usize, 1)
            &&& stopped.blink_target is None
            &&& stopped.votes == state.votes
            &&& stopped.picture() == display::bars(state.votes)
        }),
{
}

/// Clearing forgets the votes and the blink, and leaves the letters without bars.
pub proof fn law_clear_forgets(state: State, param: u8)
    ensures
        state.control(CONTROL_CLEAR, param).votes == [0u8, 0u8, 0u8, 0u8],
        state.control(CONTROL_CLEAR, param).blink_target is None,
        state.control(CONTROL_CLEAR, param).picture() == [0u8, 0u8, 0u8, 0u8],
{
    display::lemma_no_votes_no_bars();
}

/// The votes outlive a connection, a blink does not: once the central is gone and another is being
/// served, the votes are what they were and nothing blinks.
pub proof fn law_votes_outlive_connection(state: State, handles: Handles)
    requires
        state.link == Link::Serving,
    ensures
        ({
            let served = state.after(handles, Event::Disconnected).after(
                handles,
                Event::StepDone,
            ).after(handles, Event::StepDone).after(handles, Event::StepDone);
            &&& served.link == Link::Serving
            &&& served.votes == state.votes
            &&& served.blink_target is None
            &&& served.blink_phase == 0
        }),
{
}

/// Whatever step of setting up a connection fails, the firmware advertises again and keeps the
/// votes.
pub proof fn law_failure_advertises_again(state: State, handles: Handles)
    requires
        state.link != Link::Serving,
    ensures
        state.after(handles, Event::StepFailed).command() == Command::Advertise,
        state.after(handles, Event::StepFailed).votes == state.votes,
{
}

// --- laws of the protocol, over what goes in and what comes out ---

/// The control write `[0, _]` clears, blinking or not: the votes are gone, nothing blinks, and the
/// modules show the letters without bars.
pub proof fn law_clear_write_clears(state: State, handles: Handles, data: &[u8], chain: Chain)
    requires
        state.link == Link::Serving,
        handles.votes != handles.control,
        data@.len() == 2,
        data@[0] == 0,
        chain.wf(),
    ensures
        ({
            let event = Event::Write { handle: handles.control, data };
            let after = state.after(handles, event);
            &&& after.votes@ == seq![0u8, 0u8, 0u8, 0u8]
            &&& after.blink_target is None
            &&& after.link == Link::Serving
            &&& chain.run(state.drawn(handles, event)).shows([0, 0, 0, 0])
        }),
{
    let event = Event::Write { handle: handles.control, data };
    let after = state.after(handles, event);
    law_clear_forgets(state, data@[1]);
    assert(after.votes@ =~= seq![0u8, 0u8, 0u8, 0u8]);
    law_redraw_repairs(state, handles, event, chain);
}

/// The control write `[1, N]` makes option N blink, starting with the inverted frame, and leaves
/// the votes alone; for N above 3 it does nothing.
pub proof fn law_reveal_write_blinks(state: State, handles: Handles, data: &[u8])
    requires
        state.link == Link::Serving,
        handles.votes != handles.control,
        data@.len() == 2,
        data@[0] == 1,
    ensures
        ({
            let event = Event::Write { handle: handles.control, data };
            let after = state.after(handles, event);
            &&& data@[1] <= 3 ==> after.blink_target == Some(data@[1]) && after.blink_phase == 1
            &&& data@[1] <= 3 ==> after.command() == Command::AwaitEventFor(500)
            &&& data@[1] > 3 ==> after == state && state.drawn(handles, event).len() == 0
            &&& after.votes == state.votes
            &&& after.link == Link::Serving
        }),
{
}

/// The control write `[2, _]` stops the blinking and leaves the votes alone.
pub proof fn law_stop_write_stops(state: State, handles: Handles, data: &[u8])
    requires
        state.link == Link::Serving,
        handles.votes != handles.control,
        data@.len() == 2,
        data@[0] == 2,
    ensures
        ({
            let after = state.after(handles, Event::Write { handle: handles.control, data });
            &&& after.blink_target is None
            &&& after.command() == Command::AwaitEvent
            &&& after.votes == state.votes
            &&& after.link == Link::Serving
        }),
{
}

/// While a connection is being set up, the board is told to advertise, to accept and to attach,
/// whatever the votes and the blink are; while one is served, it waits for events, with a limit of
/// half a second exactly if something blinks.
pub proof fn law_commands_by_link(state: State)
    ensures
        state.link == Link::Advertising <==> state.command() == Command::Advertise,
        state.link == Link::Accepting <==> state.command() == Command::Accept,
        state.link == Link::Attaching <==> state.command() == Command::AttachServer,
        state.link == Link::Serving && state.blink_target is None <==> state.command()
            == Command::AwaitEvent,
        state.link == Link::Serving && state.blink_target is Some <==> state.command()
            == Command::AwaitEventFor(500),
{
}

/// After the central is gone, the board advertises, accepts and attaches, in this order, and then
/// serves the next central.
pub proof fn law_next_central_is_served(state: State, handles: Handles)
    requires
        state.link == Link::Serving,
    ensures
        ({
            let gone = state.after(handles, Event::Disconnected);
            let advertised = gone.after(handles, Event::StepDone);
            let accepted = advertised.after(handles, Event::StepDone);
            let served = accepted.after(handles, Event::StepDone);
            &&& gone.command() == Command::Advertise
            &&& advertised.command() == Command::Accept
            &&& accepted.command() == Command::AttachServer
            &&& served.command() == Command::AwaitEvent
        }),
{
}

/// Setting up goes forward one step at a time and starts over on any failure; other events do not
/// move it, and none of it touches the votes or the display.
pub proof fn law_set_up_moves(state: State, handles: Handles, event: Event)
    requires
        state.link != Link::Serving,
    ensures
        ({
            let after = state.after(handles, event);
            &&& event is StepDone && state.link == Link::Advertising ==> after.link
                == Link::Accepting
            &&& event is StepDone && state.link == Link::Accepting ==> after.link == Link::Attaching
            &&& event is StepDone && state.link == Link::Attaching ==> after.link == Link::Serving
                && after.blink_target is None && after.blink_phase == 0
            &&& event is StepFailed ==> after.link == Link::Advertising
            &&& !(event is StepDone) && !(event is StepFailed) ==> after == state
            &&& after.link != Link::Serving ==> after.blink_target == state.blink_target
                && after.blink_phase == state.blink_phase
            &&& after.votes == state.votes
            &&& state.drawn(handles, event).len() == 0
            &&& !state.acknowledges(event)
        }),
{
}

/// While a central is served, only its leaving ends that.
pub proof fn law_service_ends_by_disconnect(state: State, handles: Handles, event: Event)
    requires
        state.link == Link::Serving,
    ensures
        event is Disconnected ==> state.after(handles, event).link == Link::Advertising,
        !(event is Disconnected) ==> state.after(handles, event).link == Link::Serving,
{
}

/// The votes change by nothing but a write of four bytes to the votes attribute and the clear
/// command.
pub proof fn law_votes_change_by_writes(state: State, handles: Handles, event: Event)
    requires
        state.after(handles, event).votes != state.votes,
    ensures
        state.link == Link::Serving,
        event matches Event::Write { handle, data } && {
            ||| handle == handles.votes && data@.len() == 4 && state.after(
                handles,
                event,
            ).votes@ == data@
            ||| handle == handles.control && data@.len() == 2 && data@[0] == 0
        },
{
    if let Event::Write { handle, data } = event {
        if handle == handles.votes {
            assert(state.after(handles, event).votes@ =~= data@);
        }
    }
}

/// What blinks changes by nothing but a control command and a new connection; its frame by nothing
/// but these and the timer.
pub proof fn law_blink_changes_by_control(state: State, handles: Handles, event: Event)
    requires
        state.after(handles, event).blink_target != state.blink_target || state.after(
            handles,
            event,
        ).blink_phase != state.blink_phase,
    ensures
        ({
            ||| state.link == Link::Attaching && event is StepDone
            ||| state.link == Link::Serving && event is BlinkTimeout && state.after(
                handles,
                event,
            ).blink_target == state.blink_target && state.blink_target is Some
            ||| state.link == Link::Serving && (event matches Event::Write { handle, data }
                && handle == handles.control && handle != handles.votes && data@.len() == 2
                && data@[0] <= 2)
        }),
{
}

/// The timer swaps the two frames of what blinks and changes nothing else; without a blink it does
/// nothing.
pub proof fn law_timer_swaps_frames(state: State, handles: Handles)
    requires
        state.wf(),
        state.link == Link::Serving,
    ensures
        ({
            let after = state.after(handles, Event::BlinkTimeout);
            &&& after.votes == state.votes
            &&& after.blink_target == state.blink_target
            &&& after.link == state.link
            &&& state.blink_target is Some ==> after.blink_phase + state.blink_phase == 1
            &&& state.blink_target is None ==> after == state
        }),
{
}

/// The display is redrawn on exactly these occasions: votes of four bytes, a command 0, 1 with an
/// option, or 2, and the timer while something blinks. Nothing else goes over the bus.
pub proof fn law_what_redraws(state: State, handles: Handles, event: Event)
    ensures
        ({
            let redraw = state.link == Link::Serving && match event {
                Event::BlinkTimeout => state.blink_target is Some,
                Event::Write { handle, data } => {
                    ||| handle == handles.votes && data@.len() == 4
                    ||| handle == handles.control && handle != handles.votes && data@.len() == 2
                        && (data@[0] == 0 || data@[0] == 1 && data@[1] <= 3 || data@[0] == 2)
                },
                _ => false,
            };
            &&& redraw <==> state.redraws(handles, event)
            &&& redraw <==> state.drawn(handles, event).len() == 24
            &&& !redraw <==> state.drawn(handles, event).len() == 0
        }),
{
    display::law_inverted_bar_inverts_bytes(
        state.after(handles, event).picture(),
        [
            !state.after(handles, event).picture()[0],
            state.after(handles, event).picture()[1],
            state.after(handles, event).picture()[2],
            state.after(handles, event).picture()[3],
        ],
        0,
        1,
    );
}

/// A write of any other kind changes nothing: neither the state nor the display.
pub proof fn law_other_writes_ignored(state: State, handles: Handles, handle: u16, data: &[u8])
    requires
        state.link == Link::Serving,
        handle == handles.votes ==> data@.len() != 4,
        handle == handles.control && handle != handles.votes ==> data@.len() != 2 || data@[0] > 2
            || data@[0] == 1 && data@[1] > 3,
    ensures
        state.after(handles, Event::Write { handle, data }) == state,
        state.drawn(handles, Event::Write { handle, data }).len() == 0,
        state.acknowledges(Event::Write { handle, data }),
{
}

/// Requests of the central are answered, all of them and nothing else; other events of the
/// connection than a write, the timer and its end leave everything as it is.
pub proof fn law_requests_are_answered(state: State, handles: Handles, event: Event)
    requires
        state.link == Link::Serving,
    ensures
        event is Write || event is OtherGatt ==> state.acknowledges(event),
        event is StepDone || event is StepFailed || event is BlinkTimeout || event is Disconnected
            || event is OtherConnection ==> !state.acknowledges(event),
        event is StepDone || event is StepFailed || event is OtherGatt || event is OtherConnection
            ==> state.after(handles, event) == state,
        event is Disconnected ==> state.after(handles, event).votes == state.votes,
{
}

/// What belongs on the LEDs in a state: on the module of each option the bar of its vote, with lit
/// and dark rows swapped while the option blinks in its second frame, and the letter cut out.
pub proof fn law_picture_on_leds(state: State, chain: Chain, module: int, row: u8, col: u8)
    requires
        state.wf(),
        chain.configured(),
        chain.shows(state.picture()),
        0 <= module < 4,
        1 <= row <= 8,
        col < 8,
    ensures
        ({
            let option = display::OPTION_FOR_MODULE[module];
            let in_bar = row + display::bar_height(state.votes[option as int]) > 8;
            let swapped = state.blink_target == Some(option as u8) && state.blink_phase == 1;
            let in_letter = display::col_lit(display::LETTERS[option as int][row - 1], col);
            chain.led(module, row, col) == ((in_bar != swapped) != in_letter)
        }),
{
    crate::chain::law_letter_cut_out(chain, state.picture(), module, row, col);
    display::law_bar_from_bottom(state.votes[display::OPTION_FOR_MODULE[module] as int], row);
    assert(module == 0 || module == 1 || module == 2 || module == 3);
    if let Some(target) = state.blink_target {
        if state.blink_phase == 1 {
            display::law_blink_inverts(
                state.votes,
                target as usize,
                state.blink_phase,
                module,
                row,
            );
        } else {
            display::law_blink_rests(state.votes, target as usize, state.blink_phase);
        }
    }
}

/// The display updates at once: when an event redraws it, every LED is as the new state has it,
/// whatever it was before, and no time is spent waiting.
pub proof fn law_redraw_on_leds(
    state: State,
    handles: Handles,
    event: Event,
    chain: Chain,
    module: int,
    row: u8,
    col: u8,
)
    requires
        state.wf(),
        state.redraws(handles, event),
        chain.wf(),
        chain.configured(),
        0 <= module < 4,
        1 <= row <= 8,
        col < 8,
    ensures
        ({
            let after = state.after(handles, event);
            let option = display::OPTION_FOR_MODULE[module];
            let in_bar = row + display::bar_height(after.votes[option as int]) > 8;
            let swapped = after.blink_target == Some(option as u8) && after.blink_phase == 1;
            let in_letter = display::col_lit(display::LETTERS[option as int][row - 1], col);
            let shown = chain.run(state.drawn(handles, event));
            &&& shown.led(module, row, col) == ((in_bar != swapped) != in_letter)
            &&& shown.paused_ms == chain.paused_ms
        }),
{
    law_redraw_repairs(state, handles, event, chain);
    law_states_stay_possible(state, handles, event);
    crate::chain::law_render_shows(chain, state.after(handles, event).picture());
    law_picture_on_leds(
        state.after(handles, event),
        chain.run(state.drawn(handles, event)),
        module,
        row,
        col,
    );
}

} // verus!
