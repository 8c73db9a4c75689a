//! A native window as a state machine.
//!
//! A window names the native call it waits for. The driver makes the call and
//! hands the result to `advance`, which records it and answers with the next
//! call, with the end of the opening sequence, or with the failure and the
//! releases that undo what was acquired. No call is made from here.
use crate::class::{class_name, Guid};
use crate::error::OpenError;
use crate::geometry::{requested_format, window_style, Rect, CS_OWNDC};
use crate::message::{route, Dispatch, Message, PumpStep, SOURCE_GONE};
use crate::model::{lemma_release_plan, WindowState, TIMER_ID, TIMER_PERIOD_MS};
use crate::options::{Parent, WindowOpenOptions};
use crate::protocol::{Lifecycle, Release, Reply, Request, Stage, Step, StepView};
use crate::render::{Color, DrawCommand, CHANNEL_SCALE, COLOR_BUFFER_BIT};
use vstd::prelude::*;

verus! {

/// One window: its native handles, its class identity, and the colour it
/// clears its frames to.
pub struct Window {
    stage: Stage,
    title: String,
    parent: Parent,
    client: Rect,
    outer_width: i32,
    outer_height: i32,
    guid: Guid,
    class_name: String,
    window_class: u16,
    format: i32,
    hwnd: usize,
    hdc: usize,
    gl_context: usize,
    color: Color,
}

impl View for Window {
    type V = WindowState;

    closed spec fn view(&self) -> WindowState {
        WindowState {
            stage: self.stage,
            title: self.title@,
            parent: self.parent,
            client: self.client,
            outer_width: self.outer_width,
            outer_height: self.outer_height,
            guid: self.guid,
            class_name: self.class_name@,
            window_class: self.window_class,
            format: self.format,
            hwnd: self.hwnd,
            hdc: self.hdc,
            gl_context: self.gl_context,
            color: self.color,
        }
    }
}

impl Window {
    /// Starts to open a window: the window holds nothing yet and waits for
    /// its class, named after `guid`, to be registered.
    ///
    /// `guid` is a freshly generated identifier; the driver obtains one per
    /// window.
    pub fn open(options: WindowOpenOptions, guid: &Guid) -> (window: Window)
        requires
            options.valid(),
        ensures
            window@ == WindowState::opening(options, *guid),
            window@.wf(),
    {
        let client = Rect::client(options.width, options.height);
        Window {
            stage: Stage::Registering,
            title: options.title,
            parent: options.parent,
            client,
            outer_width: client.right,
            outer_height: client.bottom,
            guid: *guid,
            class_name: class_name(guid),
            window_class: 0,
            format: 0,
            hwnd: 0,
            hdc: 0,
            gl_context: 0,
            color: Color { r: 300, g: 800, b: 300 },
        }
    }

    /// The call the window waits for, if any.
    pub fn pending(&self) -> (request: Option<Request>)
        ensures
            request == self@.pending(),
    {
        match self.stage {
            Stage::Registering => Some(Request::RegisterClass { style: CS_OWNDC }),
            Stage::Sizing => Some(
                Request::AdjustRect { rect: self.client, style: window_style(&self.parent) },
            ),
            Stage::Creating => Some(
                Request::CreateWindow {
                    class: self.window_class,
                    style: window_style(&self.parent),
                    x: 0,
                    y: 0,
                    width: self.outer_width,
                    height: self.outer_height,
                    parent: self.parent.raw_handle(),
                },
            ),
            Stage::AcquiringSurface => Some(Request::AcquireSurface { hwnd: self.hwnd }),
            Stage::ChoosingFormat => Some(
                Request::ChooseFormat { hdc: self.hdc, format: requested_format() },
            ),
            Stage::SettingFormat => Some(
                Request::SetFormat {
                    hdc: self.hdc,
                    index: self.format,
                    format: requested_format(),
                },
            ),
            Stage::CreatingContext => Some(Request::CreateContext { hdc: self.hdc }),
            Stage::Activating => Some(
                Request::MakeCurrent { hdc: self.hdc, context: self.gl_context },
            ),
            Stage::Loading => Some(Request::LoadEntryPoints),
            Stage::Associating => Some(Request::Associate { hwnd: self.hwnd }),
            Stage::ArmingTimer => Some(
                Request::ArmTimer { hwnd: self.hwnd, id: TIMER_ID, period_ms: TIMER_PERIOD_MS },
            ),
            Stage::Running | Stage::Closed => None,
        }
    }

    /// Closes the window: answers the releases of everything it holds, last
    /// acquired first, and holds nothing afterwards. Closing a closed window
    /// releases nothing. A reply that arrives after closing is ignored.
    pub fn close(&mut self) -> (releases: Vec<Release>)
        ensures
            releases@ == old(self)@.release_plan(),
            final(self)@ == old(self)@.closed(),
    {
        let mut releases: Vec<Release> = Vec::new();
        if self.gl_context != 0 {
            releases.push(Release::ClearCurrent);
            releases.push(Release::DeleteContext { context: self.gl_context });
        }
        if self.hdc != 0 {
            releases.push(Release::ReleaseSurface { hwnd: self.hwnd, hdc: self.hdc });
        }
        if self.hwnd != 0 {
            releases.push(Release::DestroyWindow { hwnd: self.hwnd });
        }
        if self.window_class != 0 {
            releases.push(Release::UnregisterClass { atom: self.window_class });
        }
        proof {
            lemma_release_plan(self@);
            assert(releases@ =~= self@.release_plan());
        }
        self.stage = Stage::Closed;
        self.window_class = 0;
        self.hwnd = 0;
        self.hdc = 0;
        self.gl_context = 0;
        releases
    }

    /// Gives up opening: releases what was acquired and reports `error`.
    fn fail(&mut self, error: OpenError) -> (step: Step)
        ensures
            step@ == (StepView::Failed {
                error,
                releases: old(self)@.release_plan(),
            }),
            final(self)@ == old(self)@.closed(),
    {
        let releases = self.close();
        Step::Failed { error, releases }
    }

    /// Moves to `stage` and asks for the call awaited there.
    fn proceed(&mut self, stage: Stage) -> (step: Step)
        requires
            !(stage is Running || stage is Closed),
        ensures
            final(self)@ == (WindowState { stage, ..old(self)@ }),
            step@ == StepView::Request(final(self)@.pending().unwrap()),
    {
        self.stage = stage;
        match self.pending() {
            Some(request) => Step::Request(request),
            None => Step::Idle,
        }
    }

    /// Takes the result of the awaited call and answers what follows from it.
    ///
    /// Opening succeeds exactly if every awaited call is answered by a reply
    /// that the stage accepts; the first reply that is not accepted fails
    /// the opening with the error of its site.
    pub fn advance(&mut self, reply: Reply) -> (step: Step)
        ensures
            final(self)@ == old(self)@.advanced(reply),
            step@ == old(self)@.outcome(reply),
    {
        match self.stage {
            Stage::Registering => {
                let atom: u16 = reply.atom();
                if atom == 0 {
                    return self.fail(OpenError::RegistrationFailed);
                }
                self.window_class = atom;
                if self.parent.child() {
                    self.proceed(Stage::Creating)
                } else {
                    self.proceed(Stage::Sizing)
                }
            },
            Stage::Sizing => {
                let extent = match reply.rect() {
                    Some(rect) => rect.extent(),
                    None => None,
                };
                match extent {
                    Some((width, height)) => {
                        self.outer_width = width;
                        self.outer_height = height;
                        self.proceed(Stage::Creating)
                    },
                    None => self.fail(OpenError::WindowCreationFailed),
                }
            },
            Stage::Creating => {
                let hwnd: usize = reply.handle();
                if hwnd == 0 {
                    return self.fail(OpenError::WindowCreationFailed);
                }
                self.hwnd = hwnd;
                self.proceed(Stage::AcquiringSurface)
            },
            Stage::AcquiringSurface => {
                let hdc: usize = reply.handle();
                if hdc == 0 {
                    return self.fail(OpenError::SurfaceUnavailable);
                }
                self.hdc = hdc;
                self.proceed(Stage::ChoosingFormat)
            },
            Stage::ChoosingFormat => {
                let index: i32 = reply.status();
                if index == 0 {
                    return self.fail(OpenError::ContextCreationFailed);
                }
                self.format = index;
                self.proceed(Stage::SettingFormat)
            },
            Stage::SettingFormat => {
                if reply.status() == 0 {
                    return self.fail(OpenError::ContextCreationFailed);
                }
                self.proceed(Stage::CreatingContext)
            },
            Stage::CreatingContext => {
                let context: usize = reply.handle();
                if context == 0 {
                    return self.fail(OpenError::ContextCreationFailed);
                }
                self.gl_context = context;
                self.proceed(Stage::Activating)
            },
            Stage::Activating => {
                if reply.status() == 0 {
                    return self.fail(OpenError::ContextActivationFailed);
                }
                self.proceed(Stage::Loading)
            },
            Stage::Loading => self.proceed(Stage::Associating),
            Stage::Associating => self.proceed(Stage::ArmingTimer),
            Stage::ArmingTimer => {
                self.stage = Stage::Running;
                Step::Opened { pump: !self.parent.child() }
            },
            Stage::Running | Stage::Closed => Step::Idle,
        }
    }

    /// Records that the pointer moved to `(x, y)`, in window coordinates:
    /// red and green follow the pointer, blue stays.
    pub fn handle_mouse_motion(&mut self, x: i32, y: i32)
        ensures
            final(self)@ == old(self)@.moved(x, y),
    {
        self.color = Color { r: x, g: y, b: self.color.b };
    }

    /// The calls that draw a frame now, in order: the colour buffer is
    /// cleared to the window's colour, then the window's surface is presented.
    pub fn draw_frame(&self) -> (frame: [DrawCommand; 3])
        ensures
            frame@ == self@.frame(),
    {
        let frame = [
            DrawCommand::ClearColor {
                r: self.color.r,
                g: self.color.g,
                b: self.color.b,
                a: CHANNEL_SCALE,
            },
            DrawCommand::Clear { mask: COLOR_BUFFER_BIT },
            DrawCommand::SwapBuffers { hdc: self.hdc },
        ];
        assert(frame@ =~= self@.frame());
        frame
    }

    /// What the dispatch callback does with a message that arrived for this
    /// window's native handle.
    pub fn dispatch(&self, message: Message) -> (d: Dispatch)
        ensures
            d == self@.dispatched(message),
    {
        route(self.is_associated(), message)
    }

    /// One turn of the message pump: `status` and `message` are what the
    /// blocking retrieval answered.
    pub fn pump_once(&self, status: i32, message: Message) -> (step: PumpStep)
        ensures
            step == self@.pump(status, message),
    {
        match self.stage {
            Stage::Running => {
                if status == SOURCE_GONE {
                    PumpStep::Shutdown
                } else {
                    PumpStep::Deliver(message)
                }
            },
            _ => PumpStep::Shutdown,
        }
    }

    /// Where the window stands in its opening sequence.
    pub fn stage(&self) -> (stage: Stage)
        ensures
            stage == self@.stage,
    {
        self.stage
    }

    /// The lifecycle state that the stage belongs to.
    pub fn lifecycle(&self) -> (state: Lifecycle)
        ensures
            state == self@.lifecycle(),
    {
        match self.stage {
            Stage::Registering
            | Stage::Sizing
            | Stage::Creating
            | Stage::AcquiringSurface
            | Stage::ChoosingFormat
            | Stage::SettingFormat
            | Stage::CreatingContext
            | Stage::Activating => Lifecycle::Uninitialized,
            Stage::Loading | Stage::Associating | Stage::ArmingTimer => Lifecycle::Created,
            Stage::Running => Lifecycle::Running,
            Stage::Closed => Lifecycle::Closed,
        }
    }

    /// Whether the window has been recorded as the owner of its handle.
    pub fn is_associated(&self) -> (b: bool)
        ensures
            b == self@.associated(),
    {
        match self.stage {
            Stage::ArmingTimer | Stage::Running => true,
            _ => false,
        }
    }

    /// Whether the window still holds, or is still acquiring, its resources.
    pub fn is_live(&self) -> (b: bool)
        ensures
            b == !(self@.stage is Closed),
    {
        match self.stage {
            Stage::Closed => false,
            _ => true,
        }
    }

    /// Whether the window's class is registered under `name`.
    pub fn has_class_name(&self, name: &String) -> (b: bool)
        ensures
            b == (self@.class_name == name@),
    {
        self.class_name == *name
    }

    /// Whether the window was opened without a parent.
    pub fn is_top_level(&self) -> (b: bool)
        ensures
            b == self@.top_level(),
    {
        !self.parent.child()
    }

    /// The title the window was opened with.
    pub fn title(&self) -> (title: &str)
        ensures
            title@ == self@.title,
    {
        self.title.as_str()
    }

    /// The name the window's class is registered under.
    pub fn class_name(&self) -> (name: &str)
        ensures
            name@ == self@.class_name,
    {
        self.class_name.as_str()
    }

    /// The identifier the window's class is named after.
    pub fn guid(&self) -> (guid: Guid)
        ensures
            guid == self@.guid,
    {
        self.guid
    }

    /// The atom of the registered class; zero while none is registered.
    pub fn window_class(&self) -> (atom: u16)
        ensures
            atom == self@.window_class,
    {
        self.window_class
    }

    /// The native window handle; zero while there is none.
    pub fn hwnd(&self) -> (hwnd: usize)
        ensures
            hwnd == self@.hwnd,
    {
        self.hwnd
    }

    /// The drawing surface handle; zero while there is none.
    pub fn hdc(&self) -> (hdc: usize)
        ensures
            hdc == self@.hdc,
    {
        self.hdc
    }

    /// The graphics context handle; zero while there is none.
    pub fn gl_context(&self) -> (context: usize)
        ensures
            context == self@.gl_context,
    {
        self.gl_context
    }

    /// The colour the next frame is cleared to.
    pub fn color(&self) -> (color: Color)
        ensures
            color == self@.color,
    {
        self.color
    }
}

} // verus!
