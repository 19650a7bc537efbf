//! The platform side of the bridge: what the platform thread tells the logic
//! thread, and the state machine that decides it.
//!
//! The platform thread owns the window and the event loop. Whenever the loop
//! reports something, the thread hands it to an [`AppIO`] and gets back the
//! ordered list of [`Directive`]s that it must carry out. The machine never
//! touches the window or a channel itself, so every transition is a function
//! of the state and the input.

use vstd::prelude::*;
use winit::keyboard::KeyCode;
use crate::config::PantheonEvent;
use crate::log::LogLevel;
use crate::vec2::Vec2;

verus! {

/// What the platform thread reports to the logic thread. The order in which
/// events are sent is the order in which they arrive.
#[derive(Clone, Copy, Debug, PartialEq)]
pub enum IOEvent<T> {
    /// The window exists.
    Started,
    /// The user or the operating system asked for the application to end.
    CloseRequested,
    /// The window's size in pixels changed.
    PhysicalResize(Vec2<T>),
    /// The window's size in units of the current scale factor changed.
    LogicalResize(Vec2<T>),
    /// A key that the platform could identify went down.
    KeyPressed(KeyCode),
}

/// Why the platform loop could not be started or did not run to its end.
#[derive(Clone, Debug, PartialEq, Eq)]
pub enum IOError {
    /// A platform loop exists already in this process.
    DuplicateApplicationNotAllowed,
    /// Any other failure of the platform, with its description.
    EventLoopError(String),
}

/// A failure of the platform loop as the platform reports it.
#[derive(Clone, Debug, PartialEq, Eq)]
pub enum StartFailure {
    /// The loop could not be built. `recreation` says whether the platform
    /// refused because this process has built one before; `detail` is the
    /// platform's description.
    Build { recreation: bool, detail: String },
    /// The loop was built and ended with an error, described by `detail`.
    Run { detail: String },
}

impl StartFailure {
    /// The error that stands for this failure: only a loop that could not be
    /// built because there is one already counts as a duplicate application.
    pub open spec fn error(self) -> IOError {
        match self {
            StartFailure::Build { recreation, detail } => if recreation {
                IOError::DuplicateApplicationNotAllowed
            } else {
                IOError::EventLoopError(detail)
            },
            StartFailure::Run { detail } => IOError::EventLoopError(detail),
        }
    }
}

impl IOError {
    /// Names the failure of a start. A second platform loop is a duplicate
    /// application; everything else is passed on with its description.
    pub fn classify(failure: StartFailure) -> (error: IOError)
        ensures
            error == failure.error(),
    {
        match failure {
            StartFailure::Build { recreation, detail } => {
                if recreation {
                    IOError::DuplicateApplicationNotAllowed
                } else {
                    IOError::EventLoopError(detail)
                }
            },
            StartFailure::Run { detail } => IOError::EventLoopError(detail),
        }
    }

    /// How a start of the platform loop ended: well where nothing failed,
    /// else with the error that names the failure.
    pub fn start_result(failure: Option<StartFailure>) -> (result: Result<(), IOError>)
        ensures
            failure.is_none() ==> result == Ok::<(), IOError>(()),
            failure.is_some() ==> result == Err::<(), IOError>(failure.unwrap().error()),
    {
        match failure {
            None => Ok(()),
            Some(failure) => Err(IOError::classify(failure)),
        }
    }
}

/// Where the platform loop stands in its life.
#[derive(Clone, Copy, Debug, PartialEq, Eq, Structural)]
pub enum Phase {
    /// No window yet.
    Uninitialized,
    /// The window was created; nothing was reported since.
    Activated,
    /// Notifications are being relayed.
    Running,
    /// The loop was told to end. Nothing is asked of the platform thread after
    /// this, and no other phase follows.
    Exiting,
}

/// A notification about the window as the platform delivers it.
#[derive(Clone, Copy, Debug, PartialEq)]
pub enum RawEvent<T, F> {
    /// The window is asked to close.
    CloseRequested,
    /// The window has this size in pixels now.
    Resized(Vec2<T>),
    /// The display's scale factor is this now.
    ScaleFactorChanged(F),
    /// A key changed its state. `code` names the key where the platform could
    /// identify it; `pressed` says whether it went down, rather than up.
    Key { code: Option<KeyCode>, pressed: bool },
    /// Anything that the bridge does not relay.
    Other,
}

/// One thing that the platform thread must do, as the machine decided.
#[derive(Clone, Copy, Debug, PartialEq)]
pub enum Directive<T, F> {
    /// Create the window and keep it.
    CreateWindow,
    /// Send this event to the logic thread.
    Send(IOEvent<T>),
    /// Divide this physical size by this scale factor and send the quotient
    /// to the logic thread as a `LogicalResize`.
    SendLogical(Vec2<T>, F),
    /// Write a diagnostic of this level.
    Log(LogLevel),
    /// Ask the window to redraw, which keeps the loop turning.
    Redraw,
    /// Ask the platform loop to end.
    Exit,
}

/// Everything that can happen to the platform side, as one type.
#[derive(Clone, Copy, Debug, PartialEq)]
pub enum PlatformInput<T, F> {
    /// The platform says that the application may create its window.
    Resumed,
    /// A notification about the window.
    Window(RawEvent<T, F>),
    /// The loop is about to idle. The flag says whether a `Shutdown` was
    /// waiting on the reverse channel.
    Idle(bool),
    /// An event could not be sent: the logic thread's receiver is gone.
    SendFailed,
}

/// The state of the platform side. It belongs to the platform thread alone.
#[derive(Clone, Copy, Debug, PartialEq)]
pub struct AppIO<T, F> {
    /// Where the loop stands.
    pub phase: Phase,
    /// The scale factor that the platform reported last.
    pub scale_factor: F,
    /// The physical size that the platform reported last.
    pub physical_size: Vec2<T>,
    /// Whether `CloseRequested` has gone to the logic thread. Nothing is sent
    /// after it, though sizes and scale factors are still written down.
    pub close_forwarded: bool,
}

/// Whether a `Shutdown` is among the signals drained from the reverse channel.
pub open spec fn shutdown_among(pending: Seq<PantheonEvent>) -> bool {
    exists|i: int| 0 <= i < pending.len() && pending[i] == PantheonEvent::Shutdown
}

/// Whether every pixel size that `directives` sends is followed at once by the
/// logical size computed from it.
pub open spec fn resizes_paired<T, F>(directives: Seq<Directive<T, F>>) -> bool {
    forall|i: int|
        0 <= i < directives.len() ==> (#[trigger] directives[i] matches Directive::Send(
            IOEvent::PhysicalResize(size),
        ) ==> i + 1 < directives.len() && (directives[i + 1] matches Directive::SendLogical(
            from,
            _,
        ) && from == size))
}

/// Whether carrying out `directive` puts an event on the forward channel.
pub open spec fn sends<T, F>(directive: Directive<T, F>) -> bool {
    directive is Send || directive is SendLogical
}

/// Whether `directives` put nothing on the forward channel.
pub open spec fn silent<T, F>(directives: Seq<Directive<T, F>>) -> bool {
    forall|i: int| 0 <= i < directives.len() ==> !sends(#[trigger] directives[i])
}

/// Whether `directives` never send `Started`.
pub open spec fn never_started<T, F>(directives: Seq<Directive<T, F>>) -> bool {
    forall|i: int|
        0 <= i < directives.len() ==> #[trigger] directives[i] != Directive::<T, F>::Send(
            IOEvent::Started,
        )
}

/// Whether `directives` send `Started` at most once.
pub open spec fn started_once<T, F>(directives: Seq<Directive<T, F>>) -> bool {
    forall|i: int, j: int|
        0 <= i < j < directives.len() && #[trigger] directives[i] == Directive::<T, F>::Send(
            IOEvent::Started,
        ) ==> #[trigger] directives[j] != Directive::<T, F>::Send(IOEvent::Started)
}

/// Whether `directives` send nothing once they have sent `CloseRequested`.
pub open spec fn close_is_last<T, F>(directives: Seq<Directive<T, F>>) -> bool {
    forall|i: int, j: int|
        0 <= i < j < directives.len() && #[trigger] directives[i] == Directive::<T, F>::Send(
            IOEvent::CloseRequested,
        ) ==> !sends(#[trigger] directives[j])
}

/// Whether `directives` send `Started` before they send anything else.
pub open spec fn started_first<T, F>(directives: Seq<Directive<T, F>>) -> bool {
    forall|j: int|
        0 <= j < directives.len() && sends(#[trigger] directives[j]) && directives[j]
            != Directive::<T, F>::Send(IOEvent::Started) ==> exists|i: int|
            0 <= i < j && directives[i] == Directive::<T, F>::Send(IOEvent::Started)
}

impl<T: Copy, F: Copy> AppIO<T, F> {
    /// Whether notifications about the window are relayed in this state:
    /// the window exists, the loop has not been told to end, and no close
    /// request has been forwarded.
    pub open spec fn relaying(self) -> bool {
        (self.phase == Phase::Activated || self.phase == Phase::Running) && !self.close_forwarded
    }

    /// This state with what `event` tells of the window written down: a new
    /// size is the size in force from now on, and so is a new scale factor,
    /// whether or not anything is sent for it.
    pub open spec fn noted(self, event: RawEvent<T, F>) -> Self {
        match event {
            RawEvent::Resized(size) => AppIO { physical_size: size, ..self },
            RawEvent::ScaleFactorChanged(factor) => AppIO { scale_factor: factor, ..self },
            _ => self,
        }
    }

    /// The state after `input`, and what the platform thread must do for it,
    /// in order.
    pub open spec fn step(self, input: PlatformInput<T, F>) -> (Self, Seq<Directive<T, F>>) {
        match input {
            PlatformInput::Resumed => if self.phase == Phase::Uninitialized {
                (
                    AppIO { phase: Phase::Activated, ..self },
                    seq![Directive::CreateWindow, Directive::Send(IOEvent::Started)],
                )
            } else {
                (self, seq![])
            },
            PlatformInput::Window(event) => if !self.relaying() {
                (self.noted(event), seq![])
            } else {
                let running = AppIO { phase: Phase::Running, ..self.noted(event) };
                match event {
                    RawEvent::CloseRequested => (
                        AppIO { close_forwarded: true, ..running },
                        seq![Directive::Send(IOEvent::CloseRequested)],
                    ),
                    RawEvent::Resized(size) => (
                        running,
                        seq![
                            Directive::Send(IOEvent::PhysicalResize(size)),
                            Directive::SendLogical(size, self.scale_factor),
                        ],
                    ),
                    RawEvent::ScaleFactorChanged(factor) => (
                        running,
                        seq![Directive::SendLogical(self.physical_size, factor)],
                    ),
                    RawEvent::Key { code: Some(key), pressed: true } => (
                        running,
                        seq![Directive::Send(IOEvent::KeyPressed(key))],
                    ),
                    _ => (running, seq![]),
                }
            },
            PlatformInput::Idle(shutdown) => if self.phase == Phase::Exiting {
                (self, seq![])
            } else if shutdown {
                (AppIO { phase: Phase::Exiting, ..self }, seq![Directive::Exit])
            } else if self.phase == Phase::Uninitialized {
                (self, seq![])
            } else {
                (AppIO { phase: Phase::Running, ..self }, seq![Directive::Redraw])
            },
            PlatformInput::SendFailed => if self.phase == Phase::Exiting {
                (self, seq![])
            } else {
                (
                    AppIO { phase: Phase::Exiting, ..self },
                    seq![Directive::Log(LogLevel::Fatal), Directive::Exit],
                )
            },
        }
    }

    /// The state after all of `inputs`, one after the other, and everything
    /// that the platform thread had to do on the way.
    pub open spec fn replay(self, inputs: Seq<PlatformInput<T, F>>) -> (Self, Seq<Directive<T, F>>)
        decreases inputs.len(),
    {
        if inputs.len() == 0 {
            (self, seq![])
        } else {
            let first = self.step(inputs[0]);
            let rest = first.0.replay(inputs.drop_first());
            (rest.0, first.1 + rest.1)
        }
    }

    /// A platform side that has no window yet, with the scale factor and the
    /// physical size that it is to assume until the platform reports one.
    pub fn new(scale_factor: F, physical_size: Vec2<T>) -> (io: Self)
        ensures
            io == (AppIO {
                phase: Phase::Uninitialized,
                scale_factor,
                physical_size,
                close_forwarded: false,
            }),
    {
        AppIO { phase: Phase::Uninitialized, scale_factor, physical_size, close_forwarded: false }
    }

    /// The platform allows the window to be created. The first time, the
    /// window is created and `Started` is sent; later, nothing happens.
    pub fn resumed(&mut self) -> (directives: Vec<Directive<T, F>>)
        ensures
            *final(self) == old(self).step(PlatformInput::Resumed).0,
            directives@ == old(self).step(PlatformInput::Resumed).1,
    {
        let mut directives: Vec<Directive<T, F>> = Vec::new();
        if self.phase == Phase::Uninitialized {
            self.phase = Phase::Activated;
            directives.push(Directive::CreateWindow);
            directives.push(Directive::Send(IOEvent::Started));
        }
        proof {
            assert(directives@ =~= old(self).step(PlatformInput::Resumed).1);
        }
        directives
    }

    /// Relays one notification about the window.
    ///
    /// A new size and a new scale factor are written down in every state. A
    /// close request, the press of a key that the platform could identify and
    /// a new size are passed on; a new size is followed by its logical size
    /// under the scale factor in force, and a new scale factor by the logical
    /// size of the size in force. Before the window exists, after a close
    /// request was passed on and once the loop was told to end, nothing is
    /// sent.
    pub fn window_event(&mut self, event: RawEvent<T, F>) -> (directives: Vec<Directive<T, F>>)
        ensures
            *final(self) == old(self).step(PlatformInput::Window(event)).0,
            directives@ == old(self).step(PlatformInput::Window(event)).1,
            resizes_paired(directives@),
            event matches RawEvent::Resized(size) ==> final(self).physical_size == size,
            event is Resized ==> final(self).scale_factor == old(self).scale_factor,
            event matches RawEvent::ScaleFactorChanged(factor) ==> final(self).scale_factor
                == factor,
            event is ScaleFactorChanged ==> final(self).physical_size == old(self).physical_size,
    {
        let mut directives: Vec<Directive<T, F>> = Vec::new();
        let relaying = (self.phase == Phase::Activated || self.phase == Phase::Running)
            && !self.close_forwarded;
        let size_before = self.physical_size;
        let factor_before = self.scale_factor;
        match event {
            RawEvent::Resized(size) => {
                self.physical_size = size;
            },
            RawEvent::ScaleFactorChanged(factor) => {
                self.scale_factor = factor;
            },
            _ => {},
        }
        if relaying {
            self.phase = Phase::Running;
            match event {
                RawEvent::CloseRequested => {
                    self.close_forwarded = true;
                    directives.push(Directive::Send(IOEvent::CloseRequested));
                },
                RawEvent::Resized(size) => {
                    directives.push(Directive::Send(IOEvent::PhysicalResize(size)));
                    directives.push(Directive::SendLogical(size, factor_before));
                },
                RawEvent::ScaleFactorChanged(factor) => {
                    directives.push(Directive::SendLogical(size_before, factor));
                },
                RawEvent::Key { code: Some(key), pressed: true } => {
                    directives.push(Directive::Send(IOEvent::KeyPressed(key)));
                },
                _ => {},
            }
        }
        proof {
            assert(directives@ =~= old(self).step(PlatformInput::Window(event)).1);
        }
        directives
    }

    /// The loop is about to idle, and `pending` is what was waiting on the
    /// reverse channel. If a `Shutdown` is among it, the loop is told to end;
    /// otherwise the window is asked to redraw, if there is one.
    pub fn about_to_wait(&mut self, pending: &Vec<PantheonEvent>) -> (directives: Vec<
        Directive<T, F>,
    >)
        ensures
            *final(self) == old(self).step(PlatformInput::Idle(shutdown_among(pending@))).0,
            directives@ == old(self).step(PlatformInput::Idle(shutdown_among(pending@))).1,
    {
        let mut shutdown = false;
        let mut at: usize = 0;
        while at < pending.len()
            invariant
                at <= pending.len(),
                shutdown == (exists|i: int|
                    0 <= i < at && pending@[i] == PantheonEvent::Shutdown),
            decreases pending.len() - at,
        {
            match pending[at] {
                PantheonEvent::Shutdown => {
                    shutdown = true;
                },
            }
            at += 1;
        }
        self.idle(shutdown)
    }

    /// The loop is about to idle, and `shutdown` says whether a `Shutdown`
    /// was waiting on the reverse channel.
    pub fn idle(&mut self, shutdown: bool) -> (directives: Vec<Directive<T, F>>)
        ensures
            *final(self) == old(self).step(PlatformInput::Idle(shutdown)).0,
            directives@ == old(self).step(PlatformInput::Idle(shutdown)).1,
    {
        let mut directives: Vec<Directive<T, F>> = Vec::new();
        if self.phase == Phase::Exiting {
        } else if shutdown {
            self.phase = Phase::Exiting;
            directives.push(Directive::Exit);
        } else if self.phase == Phase::Uninitialized {
        } else {
            self.phase = Phase::Running;
            directives.push(Directive::Redraw);
        }
        proof {
            assert(directives@ =~= old(self).step(PlatformInput::Idle(shutdown)).1);
        }
        directives
    }

    /// An event could not be sent, so the logic thread is gone. This is
    /// fatal: it is reported at the highest level and the loop is told to end.
    pub fn send_failed(&mut self) -> (directives: Vec<Directive<T, F>>)
        ensures
            *final(self) == old(self).step(PlatformInput::SendFailed).0,
            directives@ == old(self).step(PlatformInput::SendFailed).1,
    {
        let mut directives: Vec<Directive<T, F>> = Vec::new();
        if self.phase != Phase::Exiting {
            self.phase = Phase::Exiting;
            directives.push(Directive::Log(LogLevel::Fatal));
            directives.push(Directive::Exit);
        }
        proof {
            assert(directives@ =~= old(self).step(PlatformInput::SendFailed).1);
        }
        directives
    }

    /// Takes one input of any kind and answers with what is to be done.
    pub fn handle(&mut self, input: PlatformInput<T, F>) -> (directives: Vec<Directive<T, F>>)
        ensures
            *final(self) == old(self).step(input).0,
            directives@ == old(self).step(input).1,
    {
        match input {
            PlatformInput::Resumed => self.resumed(),
            PlatformInput::Window(event) => self.window_event(event),
            PlatformInput::Idle(shutdown) => self.idle(shutdown),
            PlatformInput::SendFailed => self.send_failed(),
        }
    }

    /// Takes `inputs` one after the other and answers with everything that
    /// is to be done, in order.
    pub fn handle_all(&mut self, inputs: &Vec<PlatformInput<T, F>>) -> (directives: Vec<
        Directive<T, F>,
    >)
        ensures
            *final(self) == old(self).replay(inputs@).0,
            directives@ == old(self).replay(inputs@).1,
    {
        let mut directives: Vec<Directive<T, F>> = Vec::new();
        let mut at: usize = 0;
        proof {
            assert(inputs@.take(0) =~= Seq::<PlatformInput<T, F>>::empty());
        }
        while at < inputs.len()
            invariant
                at <= inputs.len(),
                old(self).replay(inputs@.take(at as int)) == (*self, directives@),
            decreases inputs.len() - at,
        {
            let ghost before = *self;
            let mut more = self.handle(inputs[at]);
            directives.append(&mut more);
            proof {
                lemma_replay_concat(*old(self), inputs@.take(at as int), seq![inputs@[at as int]]);
                lemma_replay_one(before, inputs@[at as int]);
                assert(inputs@.take(at as int + 1) =~= inputs@.take(at as int) + seq![
                    inputs@[at as int],
                ]);
            }
            at += 1;
        }
        proof {
            assert(inputs@.take(at as int) =~= inputs@);
        }
        directives
    }
}

/// Replaying one input is one step.
pub proof fn lemma_replay_one<T: Copy, F: Copy>(io: AppIO<T, F>, input: PlatformInput<T, F>)
    ensures
        io.replay(seq![input]) == io.step(input),
{
    reveal_with_fuel(AppIO::replay, 2);
    let step = io.step(input);
    assert(seq![input].drop_first() =~= Seq::<PlatformInput<T, F>>::empty());
    assert(step.1 + Seq::<Directive<T, F>>::empty() =~= step.1);
}

/// Replaying two batches is replaying the first and then the second from
/// where the first left off.
pub proof fn lemma_replay_concat<T: Copy, F: Copy>(
    io: AppIO<T, F>,
    first: Seq<PlatformInput<T, F>>,
    second: Seq<PlatformInput<T, F>>,
)
    ensures
        io.replay(first + second) == ({
            let head = io.replay(first);
            let tail = head.0.replay(second);
            (tail.0, head.1 + tail.1)
        }),
    decreases first.len(),
{
    let head = io.replay(first);
    let tail = head.0.replay(second);
    if first.len() == 0 {
        assert(first + second =~= second);
        assert(head.1 + tail.1 =~= tail.1);
    } else {
        let step = io.step(first[0]);
        assert((first + second)[0] == first[0]);
        assert((first + second).drop_first() =~= first.drop_first() + second);
        lemma_replay_concat(step.0, first.drop_first(), second);
        let inner = step.0.replay(first.drop_first());
        assert(step.1 + (inner.1 + tail.1) =~= (step.1 + inner.1) + tail.1);
    }
}

/// Pairing survives putting one list of directives behind another.
pub proof fn lemma_resizes_paired_concat<T, F>(
    first: Seq<Directive<T, F>>,
    second: Seq<Directive<T, F>>,
)
    requires
        resizes_paired(first),
        resizes_paired(second),
    ensures
        resizes_paired(first + second),
{
    let both = first + second;
    assert forall|i: int| 0 <= i < both.len() implies (#[trigger] both[i] matches Directive::Send(
        IOEvent::PhysicalResize(size),
    ) ==> i + 1 < both.len() && (both[i + 1] matches Directive::SendLogical(from, _) && from
        == size)) by {
        if i < first.len() {
            assert(both[i] == first[i]);
            if first[i] is Send && first[i]->Send_0 is PhysicalResize {
                assert(both[i + 1] == first[i + 1]);
            }
        } else {
            let at = i - first.len();
            assert(both[i] == second[at]);
            if second[at] is Send && second[at]->Send_0 is PhysicalResize {
                assert(both[i + 1] == second[at + 1]);
            }
        }
    }
}

/// Whatever the platform reports and in whatever order, each pixel size goes
/// to the logic thread directly before the logical size computed from it.
pub proof fn lemma_resize_precedes_logical<T: Copy, F: Copy>(
    io: AppIO<T, F>,
    inputs: Seq<PlatformInput<T, F>>,
)
    ensures
        resizes_paired(io.replay(inputs).1),
    decreases inputs.len(),
{
    if inputs.len() > 0 {
        let first = io.step(inputs[0]);
        lemma_resize_precedes_logical(first.0, inputs.drop_first());
        assert(resizes_paired(first.1));
        lemma_resizes_paired_concat(first.1, first.0.replay(inputs.drop_first()).1);
    }
}

/// A new scale factor sends one logical size, computed from the pixel size in
/// force, and no pixel size.
pub proof fn lemma_scale_change_sends_one_logical<T: Copy, F: Copy>(io: AppIO<T, F>, factor: F)
    requires
        io.relaying(),
    ensures
        io.step(PlatformInput::Window(RawEvent::ScaleFactorChanged(factor))).1
            == seq![Directive::SendLogical(io.physical_size, factor)],
        io.step(PlatformInput::Window(RawEvent::ScaleFactorChanged(factor))).0.scale_factor
            == factor,
        io.step(PlatformInput::Window(RawEvent::ScaleFactorChanged(factor))).0.physical_size
            == io.physical_size,
{
}

/// Once the loop was told to end, nothing is asked of the platform thread
/// again, and the loop stays told to end.
pub proof fn lemma_exiting_is_final<T: Copy, F: Copy>(
    io: AppIO<T, F>,
    inputs: Seq<PlatformInput<T, F>>,
)
    requires
        io.phase == Phase::Exiting,
    ensures
        io.replay(inputs).0.phase == Phase::Exiting,
        io.replay(inputs).0.close_forwarded == io.close_forwarded,
        io.replay(inputs).1 == Seq::<Directive<T, F>>::empty(),
    decreases inputs.len(),
{
    if inputs.len() > 0 {
        let first = io.step(inputs[0]);
        assert(first.1 == Seq::<Directive<T, F>>::empty());
        lemma_exiting_is_final(first.0, inputs.drop_first());
        assert(Seq::<Directive<T, F>>::empty() + Seq::<Directive<T, F>>::empty() =~= Seq::<
            Directive<T, F>,
        >::empty());
    }
}

/// The size in force is the size that the platform reported last, and the
/// scale factor in force the factor that it reported last: in every state,
/// and whether or not anything was sent for the report.
pub proof fn lemma_last_report_is_in_force<T: Copy, F: Copy>(
    io: AppIO<T, F>,
    size: Vec2<T>,
    factor: F,
)
    ensures
        io.step(PlatformInput::Window(RawEvent::Resized(size))).0.physical_size == size,
        io.step(PlatformInput::Window(RawEvent::Resized(size))).0.scale_factor
            == io.scale_factor,
        io.step(PlatformInput::Window(RawEvent::ScaleFactorChanged(factor))).0.scale_factor
            == factor,
        io.step(PlatformInput::Window(RawEvent::ScaleFactorChanged(factor))).0.physical_size
            == io.physical_size,
{
}

/// Only the press of a key that the platform could identify goes to the logic
/// thread; a release and a key without a code send nothing.
pub proof fn lemma_only_identified_presses_are_sent<T: Copy, F: Copy>(
    io: AppIO<T, F>,
    code: Option<KeyCode>,
    pressed: bool,
)
    requires
        io.relaying(),
    ensures
        pressed && code.is_some() ==> io.step(
            PlatformInput::Window(RawEvent::Key { code, pressed }),
        ).1 == seq![Directive::<T, F>::Send(IOEvent::KeyPressed(code.unwrap()))],
        !(pressed && code.is_some()) ==> io.step(
            PlatformInput::Window(RawEvent::Key { code, pressed }),
        ).1 == Seq::<Directive<T, F>>::empty(),
{
}

/// Once the window exists and a close request has been passed on, or the
/// loop was told to end, nothing goes to the logic thread again.
pub proof fn lemma_closed_is_silent<T: Copy, F: Copy>(
    io: AppIO<T, F>,
    inputs: Seq<PlatformInput<T, F>>,
)
    requires
        io.phase != Phase::Uninitialized,
        !io.relaying(),
    ensures
        silent(io.replay(inputs).1),
    decreases inputs.len(),
{
    if inputs.len() > 0 {
        let first = io.step(inputs[0]);
        lemma_closed_is_silent(first.0, inputs.drop_first());
        assert(silent(first.1));
        let rest = first.0.replay(inputs.drop_first());
        assert forall|i: int| 0 <= i < (first.1 + rest.1).len() implies !sends(
            #[trigger] (first.1 + rest.1)[i],
        ) by {
            if i < first.1.len() {
                assert((first.1 + rest.1)[i] == first.1[i]);
            } else {
                assert((first.1 + rest.1)[i] == rest.1[i - first.1.len()]);
            }
        }
    }
}

/// Once the window exists, `Started` is not sent again.
pub proof fn lemma_no_second_start<T: Copy, F: Copy>(
    io: AppIO<T, F>,
    inputs: Seq<PlatformInput<T, F>>,
)
    requires
        io.phase != Phase::Uninitialized,
    ensures
        never_started(io.replay(inputs).1),
    decreases inputs.len(),
{
    if inputs.len() > 0 {
        let first = io.step(inputs[0]);
        lemma_no_second_start(first.0, inputs.drop_first());
        assert(never_started(first.1));
        let rest = first.0.replay(inputs.drop_first());
        assert forall|i: int| 0 <= i < (first.1 + rest.1).len() implies #[trigger] (first.1
            + rest.1)[i] != Directive::<T, F>::Send(IOEvent::Started) by {
            if i < first.1.len() {
                assert((first.1 + rest.1)[i] == first.1[i]);
            } else {
                assert((first.1 + rest.1)[i] == rest.1[i - first.1.len()]);
            }
        }
    }
}

/// The event stream keeps its order whatever the platform reports: `Started`
/// goes out at most once, and nothing goes out after `CloseRequested`.
pub proof fn lemma_stream_keeps_order<T: Copy, F: Copy>(
    io: AppIO<T, F>,
    inputs: Seq<PlatformInput<T, F>>,
)
    ensures
        started_once(io.replay(inputs).1),
        close_is_last(io.replay(inputs).1),
    decreases inputs.len(),
{
    if inputs.len() > 0 {
        let first = io.step(inputs[0]);
        let rest = first.0.replay(inputs.drop_first());
        let all = first.1 + rest.1;
        let offset = first.1.len();
        lemma_stream_keeps_order(first.0, inputs.drop_first());
        assert forall|i: int, j: int|
            0 <= i < j < all.len() && #[trigger] all[i] == Directive::<T, F>::Send(
                IOEvent::Started,
            ) implies #[trigger] all[j] != Directive::<T, F>::Send(IOEvent::Started) by {
            if i < offset {
                assert(all[i] == first.1[i]);
                assert(first.0.phase == Phase::Activated);
                assert(offset == 2 && i == 1);
                lemma_no_second_start(first.0, inputs.drop_first());
                assert(all[j] == rest.1[j - offset]);
            } else {
                assert(all[i] == rest.1[i - offset]);
                assert(all[j] == rest.1[j - offset]);
            }
        }
        assert forall|i: int, j: int|
            0 <= i < j < all.len() && #[trigger] all[i] == Directive::<T, F>::Send(
                IOEvent::CloseRequested,
            ) implies !sends(#[trigger] all[j]) by {
            if i < offset {
                assert(all[i] == first.1[i]);
                assert(offset == 1);
                assert(first.0.close_forwarded && first.0.phase == Phase::Running);
                lemma_closed_is_silent(first.0, inputs.drop_first());
                assert(all[j] == rest.1[j - offset]);
            } else {
                assert(all[i] == rest.1[i - offset]);
                assert(all[j] == rest.1[j - offset]);
            }
        }
    }
}

/// From a state without a window, whatever goes to the logic thread is
/// `Started` or comes after it.
pub proof fn lemma_started_comes_first<T: Copy, F: Copy>(
    io: AppIO<T, F>,
    inputs: Seq<PlatformInput<T, F>>,
)
    requires
        io.phase == Phase::Uninitialized,
    ensures
        started_first(io.replay(inputs).1),
    decreases inputs.len(),
{
    if inputs.len() > 0 {
        let first = io.step(inputs[0]);
        let rest = first.0.replay(inputs.drop_first());
        let all = first.1 + rest.1;
        let offset = first.1.len();
        if first.0.phase == Phase::Uninitialized {
            lemma_started_comes_first(first.0, inputs.drop_first());
            assert(all =~= rest.1);
        } else if first.0.phase == Phase::Exiting {
            lemma_closed_is_silent(first.0, inputs.drop_first());
            assert forall|j: int| 0 <= j < all.len() implies !sends(#[trigger] all[j]) by {
                if j < offset {
                    assert(all[j] == first.1[j]);
                } else {
                    assert(all[j] == rest.1[j - offset]);
                }
            }
        } else {
            assert(first.1 == seq![
                Directive::<T, F>::CreateWindow,
                Directive::<T, F>::Send(IOEvent::Started),
            ]);
            assert forall|j: int|
                0 <= j < all.len() && sends(#[trigger] all[j]) && all[j] != Directive::<
                    T,
                    F,
                >::Send(IOEvent::Started) implies exists|i: int|
                0 <= i < j && all[i] == Directive::<T, F>::Send(IOEvent::Started) by {
                assert(all[0] == first.1[0]);
                assert(all[1] == first.1[1]);
                assert(j >= 2);
            }
        }
    }
}

} // verus!
