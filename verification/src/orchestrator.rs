//! Request orchestrator: the decisions of the control loop, as a machine that
//! takes what the caller observed and answers with what to do next. The
//! caller owns the network endpoint and the buses; it performs each action
//! and reports the event that the action ends in.

use vstd::prelude::*;
use crate::codec::gray_seq;
use crate::frame::{GRAY_FRAME_BYTES, RAW_FRAME_BYTES};
use crate::response::LISTEN_PORT;
use crate::sensor::{capture_done, done_bit_set, fifo_length, frame_byte_length, holds_whole_frame};
use crate::streamer::{portion, FrameStreamer};

verus! {

/// Pause between two polls of the capture's completion, in milliseconds.
pub const POLL_DELAY_MS: u16 = 10;

/// Pause between the capture's completion and the reading of the FIFO's
/// length, in milliseconds.
pub const SETTLE_DELAY_MS: u16 = 50;

/// What the caller is to do next.
#[derive(Clone, Copy, Debug, PartialEq, Eq)]
pub enum Action {
    /// Advance the network stack, then report the endpoint's state.
    PollNetwork,
    /// Put the endpoint into listening on `port`, then report its state.
    Listen { port: u16 },
    /// Close the endpoint, then report its state.
    Close,
    /// Drain the inbound bytes and report how many there were.
    Receive,
    /// Clear the capture-done flag and start a capture, then report it.
    TriggerCapture,
    /// Wait `delay_ms`, then read the status register and report its value.
    PollStatus { delay_ms: u16 },
    /// Wait `settle_ms`, then read the three length registers and report them.
    ReadLength { settle_ms: u16 },
    /// Queue the preamble and the envelope for sending, then report it.
    SendHead,
    /// Select the capture controller and send the burst-read command, then
    /// report it. The controller stays selected until `EndBurst`.
    StartBurst,
    /// Take one outbound window from the endpoint, have `fill_window` fill
    /// it, commit what was written, then report it.
    FillWindow,
    /// Deselect the capture controller, which ends the burst read, then
    /// report it.
    EndBurst,
}

/// What the caller observed.
#[derive(Clone, Copy, Debug, PartialEq, Eq)]
pub enum Event {
    /// The endpoint's state: whether it is open, whether inbound bytes can
    /// be taken, whether its send side is open, and whether bytes can be
    /// queued for sending now.
    Endpoint { open: bool, may_recv: bool, may_send: bool, can_send: bool },
    /// The inbound bytes were drained: how many there were, and whether
    /// bytes can be queued for sending now.
    Received { len: usize, can_send: bool },
    /// The capture was triggered.
    Triggered,
    /// The value of the status register.
    Status { value: u8 },
    /// The values of the three length registers.
    Length { low: u8, mid: u8, high: u8 },
    /// The preamble and the envelope are queued.
    HeadSent,
    /// The burst read is started.
    BurstStarted,
    /// One outbound window was served.
    WindowServed,
    /// The burst read is ended.
    BurstEnded,
}

/// The kind of event that the last action ends in.
#[derive(Clone, Copy, Debug, PartialEq, Eq, Structural)]
pub enum Awaiting {
    /// The endpoint's state.
    Endpoint,
    /// The count of drained inbound bytes.
    Received,
    /// The trigger of the capture.
    Triggered,
    /// A value of the status register.
    Status,
    /// The values of the length registers.
    Length,
    /// The queuing of the preamble and the envelope.
    HeadSent,
    /// The start of the burst read.
    BurstStarted,
    /// The serving of one window.
    WindowServed,
    /// The end of the burst read.
    BurstEnded,
}

/// The kind of event that `action` ends in.
pub open spec fn awaited_after(action: Action) -> Awaiting {
    match action {
        Action::PollNetwork => Awaiting::Endpoint,
        Action::Listen { port } => Awaiting::Endpoint,
        Action::Close => Awaiting::Endpoint,
        Action::Receive => Awaiting::Received,
        Action::TriggerCapture => Awaiting::Triggered,
        Action::PollStatus { delay_ms } => Awaiting::Status,
        Action::ReadLength { settle_ms } => Awaiting::Length,
        Action::SendHead => Awaiting::HeadSent,
        Action::StartBurst => Awaiting::BurstStarted,
        Action::FillWindow => Awaiting::WindowServed,
        Action::EndBurst => Awaiting::BurstEnded,
    }
}

/// The kind of an event.
pub open spec fn kind_of(event: Event) -> Awaiting {
    match event {
        Event::Endpoint { open, may_recv, may_send, can_send } => Awaiting::Endpoint,
        Event::Received { len, can_send } => Awaiting::Received,
        Event::Triggered => Awaiting::Triggered,
        Event::Status { value } => Awaiting::Status,
        Event::Length { low, mid, high } => Awaiting::Length,
        Event::HeadSent => Awaiting::HeadSent,
        Event::BurstStarted => Awaiting::BurstStarted,
        Event::WindowServed => Awaiting::WindowServed,
        Event::BurstEnded => Awaiting::BurstEnded,
    }
}

/// The orchestrator as a mathematical value.
pub struct Machine {
    /// The policy: whether the endpoint is closed once a response is out
    /// or once the client has closed its side.
    pub close_after_response: bool,
    /// Whether a capture was triggered whose frame is not yet fully delivered.
    pub triggered: bool,
    /// Whether the burst read is on and the frame is being delivered.
    pub streaming: bool,
    /// Grayscale bytes delivered in the current session, or in the last one.
    pub delivered: nat,
    /// The kind of event that the last action ends in.
    pub awaiting: Awaiting,
}

impl Machine {
    /// What holds of every state the machine reaches: no more than one frame
    /// is delivered; delivery happens only within a triggered session and
    /// starts from zero; and the events of a capture are awaited only within
    /// a session that is not yet delivering.
    pub open spec fn wf(self) -> bool {
        &&& self.delivered <= GRAY_FRAME_BYTES
        &&& self.streaming ==> self.triggered
        &&& self.triggered && !self.streaming ==> self.delivered == 0
        &&& self.awaiting == Awaiting::WindowServed ==> self.streaming
        &&& (self.awaiting == Awaiting::Triggered || self.awaiting == Awaiting::Status
            || self.awaiting == Awaiting::Length || self.awaiting == Awaiting::HeadSent
            || self.awaiting == Awaiting::BurstStarted) ==> self.triggered && !self.streaming
    }

    /// The state with which the machine starts.
    pub open spec fn initial(close_after_response: bool) -> Machine {
        Machine {
            close_after_response,
            triggered: false,
            streaming: false,
            delivered: 0,
            awaiting: Awaiting::Endpoint,
        }
    }

    /// The action that answers the endpoint's state: listen where it is not
    /// open; else drain what came in; else, in the middle of a frame, serve
    /// the next window if one can be had; else close where the policy says
    /// so and the send side is still open.
    pub open spec fn on_endpoint(
        self,
        open: bool,
        may_recv: bool,
        may_send: bool,
        can_send: bool,
    ) -> Action {
        if !open {
            Action::Listen { port: LISTEN_PORT }
        } else if may_recv {
            Action::Receive
        } else if self.streaming {
            if can_send {
                Action::FillWindow
            } else {
                Action::PollNetwork
            }
        } else if may_send && self.close_after_response {
            Action::Close
        } else {
            Action::PollNetwork
        }
    }

    /// The action that answers drained inbound bytes: in the middle of a
    /// frame they change nothing and the delivery goes on; else a non-empty
    /// request, where the send side can take bytes, triggers a capture if
    /// none is pending, and polls the pending one otherwise.
    pub open spec fn on_received(self, len: usize, can_send: bool) -> Action {
        if self.streaming {
            if can_send {
                Action::FillWindow
            } else {
                Action::PollNetwork
            }
        } else if len > 0 && can_send {
            if self.triggered {
                Action::PollStatus { delay_ms: 0 }
            } else {
                Action::TriggerCapture
            }
        } else {
            Action::PollNetwork
        }
    }

    /// The action that answers `event`. An event of another kind than the
    /// one awaited is passed over: the loop goes back to the network.
    pub open spec fn action_on(self, event: Event) -> Action {
        if kind_of(event) != self.awaiting {
            Action::PollNetwork
        } else {
            match event {
                Event::Endpoint { open, may_recv, may_send, can_send } => self.on_endpoint(
                    open,
                    may_recv,
                    may_send,
                    can_send,
                ),
                Event::Received { len, can_send } => self.on_received(len, can_send),
                Event::Triggered => Action::PollStatus { delay_ms: 0 },
                Event::Status { value } => if done_bit_set(value) {
                    Action::ReadLength { settle_ms: SETTLE_DELAY_MS }
                } else {
                    Action::PollStatus { delay_ms: POLL_DELAY_MS }
                },
                Event::Length { low, mid, high } => if fifo_length(low, mid, high)
                    >= RAW_FRAME_BYTES {
                    Action::SendHead
                } else {
                    Action::PollNetwork
                },
                Event::HeadSent => Action::StartBurst,
                Event::BurstStarted => Action::FillWindow,
                Event::WindowServed => if self.delivered >= GRAY_FRAME_BYTES {
                    Action::EndBurst
                } else {
                    Action::PollNetwork
                },
                Event::BurstEnded => if self.close_after_response {
                    Action::Close
                } else {
                    Action::PollNetwork
                },
            }
        }
    }

    /// The state after `event`. A session begins with the trigger, at zero
    /// delivered bytes; it delivers from the moment the burst read is
    /// started; and it ends when a served window has brought the count to one
    /// frame. Nothing else changes the session.
    pub open spec fn after_event(self, event: Event) -> Machine {
        let action = self.action_on(event);
        let begins = action == Action::TriggerCapture;
        let burst_on = kind_of(event) == self.awaiting && event == Event::BurstStarted;
        let ends = kind_of(event) == self.awaiting && event == Event::WindowServed
            && self.delivered >= GRAY_FRAME_BYTES;
        Machine {
            close_after_response: self.close_after_response,
            triggered: (self.triggered || begins) && !ends,
            streaming: (self.streaming || burst_on) && !ends,
            delivered: if begins {
                0
            } else {
                self.delivered
            },
            awaiting: awaited_after(action),
        }
    }

    /// How many bytes go into a window of `window` bytes: the streamer's
    /// portion while a window is being served, and none at any other time.
    pub open spec fn window_portion(self, window: nat) -> nat {
        if self.streaming && self.awaiting == Awaiting::WindowServed {
            portion(self.delivered, window)
        } else {
            0
        }
    }

    /// The state after a window of `window` bytes was filled.
    pub open spec fn after_fill(self, window: nat) -> Machine {
        Machine { delivered: self.delivered + self.window_portion(window), ..self }
    }
}

/// The orchestrator: the policy, the capture session and the streamer.
pub struct Orchestrator {
    close_after_response: bool,
    triggered: bool,
    streaming: bool,
    awaiting: Awaiting,
    streamer: FrameStreamer,
}

/// The kind of event that `action` ends in.
fn awaited(action: Action) -> (kind: Awaiting)
    ensures
        kind == awaited_after(action),
{
    match action {
        Action::PollNetwork => Awaiting::Endpoint,
        Action::Listen { port } => Awaiting::Endpoint,
        Action::Close => Awaiting::Endpoint,
        Action::Receive => Awaiting::Received,
        Action::TriggerCapture => Awaiting::Triggered,
        Action::PollStatus { delay_ms } => Awaiting::Status,
        Action::ReadLength { settle_ms } => Awaiting::Length,
        Action::SendHead => Awaiting::HeadSent,
        Action::StartBurst => Awaiting::BurstStarted,
        Action::FillWindow => Awaiting::WindowServed,
        Action::EndBurst => Awaiting::BurstEnded,
    }
}

/// The kind of an event.
fn kind(event: Event) -> (kind: Awaiting)
    ensures
        kind == kind_of(event),
{
    match event {
        Event::Endpoint { open, may_recv, may_send, can_send } => Awaiting::Endpoint,
        Event::Received { len, can_send } => Awaiting::Received,
        Event::Triggered => Awaiting::Triggered,
        Event::Status { value } => Awaiting::Status,
        Event::Length { low, mid, high } => Awaiting::Length,
        Event::HeadSent => Awaiting::HeadSent,
        Event::BurstStarted => Awaiting::BurstStarted,
        Event::WindowServed => Awaiting::WindowServed,
        Event::BurstEnded => Awaiting::BurstEnded,
    }
}

impl Orchestrator {
    /// The orchestrator as a mathematical value.
    pub closed spec fn view(&self) -> Machine {
        Machine {
            close_after_response: self.close_after_response,
            triggered: self.triggered,
            streaming: self.streaming,
            delivered: self.streamer@,
            awaiting: self.awaiting,
        }
    }

    /// The state is one that the machine reaches.
    pub open spec fn wf(&self) -> bool {
        self@.wf()
    }

    /// An orchestrator with no session, which awaits the endpoint's state.
    pub fn new(close_after_response: bool) -> (orchestrator: Self)
        ensures
            orchestrator.wf(),
            orchestrator@ == Machine::initial(close_after_response),
    {
        Orchestrator {
            close_after_response,
            triggered: false,
            streaming: false,
            awaiting: Awaiting::Endpoint,
            streamer: FrameStreamer::new(),
        }
    }

    /// Whether a capture was triggered whose frame is not yet fully delivered.
    pub fn triggered(&self) -> (yes: bool)
        ensures
            yes == self@.triggered,
    {
        self.triggered
    }

    /// Whether the frame is being delivered.
    pub fn streaming(&self) -> (yes: bool)
        ensures
            yes == self@.streaming,
    {
        self.streaming
    }

    /// Grayscale bytes delivered in the current session, or in the last one.
    pub fn bytes_delivered(&self) -> (count: u32)
        ensures
            count == self@.delivered,
    {
        self.streamer.bytes_delivered()
    }

    /// Takes what the caller observed and answers with what to do next.
    pub fn step(&mut self, event: Event) -> (action: Action)
        requires
            old(self).wf(),
        ensures
            final(self).wf(),
            action == old(self)@.action_on(event),
            final(self)@ == old(self)@.after_event(event),
    {
        let mut action = Action::PollNetwork;
        if kind(event) == self.awaiting {
            match event {
                Event::Endpoint { open, may_recv, may_send, can_send } => {
                    if !open {
                        action = Action::Listen { port: LISTEN_PORT };
                    } else if may_recv {
                        action = Action::Receive;
                    } else if self.streaming {
                        if can_send {
                            action = Action::FillWindow;
                        }
                    } else if may_send && self.close_after_response {
                        action = Action::Close;
                    }
                },
                Event::Received { len, can_send } => {
                    if self.streaming {
                        if can_send {
                            action = Action::FillWindow;
                        }
                    } else if len > 0 && can_send {
                        if self.triggered {
                            action = Action::PollStatus { delay_ms: 0 };
                        } else {
                            self.triggered = true;
                            self.streamer = FrameStreamer::new();
                            action = Action::TriggerCapture;
                        }
                    }
                },
                Event::Triggered => {
                    action = Action::PollStatus { delay_ms: 0 };
                },
                Event::Status { value } => {
                    if capture_done(value) {
                        action = Action::ReadLength { settle_ms: SETTLE_DELAY_MS };
                    } else {
                        action = Action::PollStatus { delay_ms: POLL_DELAY_MS };
                    }
                },
                Event::Length { low, mid, high } => {
                    if holds_whole_frame(frame_byte_length(low, mid, high)) {
                        action = Action::SendHead;
                    }
                },
                Event::HeadSent => {
                    action = Action::StartBurst;
                },
                Event::BurstStarted => {
                    self.streaming = true;
                    action = Action::FillWindow;
                },
                Event::WindowServed => {
                    if self.streamer.is_complete() {
                        self.triggered = false;
                        self.streaming = false;
                        action = Action::EndBurst;
                    }
                },
                Event::BurstEnded => {
                    if self.close_after_response {
                        action = Action::Close;
                    }
                },
            }
        }
        self.awaiting = awaited(action);
        action
    }

    /// The number of raw bytes to read from the sensor for a window of
    /// `window_len` bytes: two for each grayscale byte that will go into it.
    pub fn burst_len(&self, window_len: usize) -> (len: usize)
        requires
            self.wf(),
        ensures
            len == 2 * self@.window_portion(window_len as nat),
    {
        if self.streaming && self.awaiting == Awaiting::WindowServed {
            self.streamer.burst_len(window_len)
        } else {
            0
        }
    }

    /// Converts one burst of raw bytes into the front of `window` and counts
    /// the bytes as delivered. The burst holds exactly the raw bytes that
    /// `burst_len` asked for; the window's bytes behind what was written stay
    /// as they were. The result is the number of bytes written, which is what
    /// the caller commits to the endpoint.
    pub fn fill_window(&mut self, raw: &[u8], window: &mut [u8]) -> (written: usize)
        requires
            old(self).wf(),
            raw@.len() == 2 * old(self)@.window_portion(old(window)@.len()),
        ensures
            final(self).wf(),
            final(self)@ == old(self)@.after_fill(old(window)@.len()),
            written == old(self)@.window_portion(old(window)@.len()),
            final(window)@.len() == old(window)@.len(),
            final(window)@.subrange(0, written as int) == gray_seq(raw@),
            final(window)@.subrange(written as int, old(window)@.len() as int) == old(
                window,
            )@.subrange(written as int, old(window)@.len() as int),
    {
        if self.streaming && self.awaiting == Awaiting::WindowServed {
            self.streamer.fill(raw, window)
        } else {
            proof {
                assert(window@.subrange(0, 0) =~= gray_seq(raw@));
            }
            0
        }
    }
}

} // verus!
