//! The mathematical model of a window: its state, and the transition that
//! each result of a native call causes.
use crate::class::{class_name_text, Guid};
use crate::geometry::{style_of, wanted_format, Rect, CS_OWNDC};
use crate::message::{pumped, routed, Dispatch, Message, PumpStep};
use crate::options::{Parent, WindowOpenOptions};
use crate::protocol::{
    releases_of, unwind, Lifecycle, Release, Reply, Request, Resource, Stage, StepView,
};
use crate::render::{frame_of, initial_color, moved_color, Color, DrawCommand};
use vstd::prelude::*;

verus! {

/// The identifier of the redraw timer.
pub const TIMER_ID: usize = 4242;

/// The period of the redraw timer, in milliseconds.
pub const TIMER_PERIOD_MS: u32 = 13;

/// Everything a window knows. Handles are zero while the window does not
/// hold the resource.
pub struct WindowState {
    pub stage: Stage,
    pub title: Seq<char>,
    pub parent: Parent,
    /// The requested client rectangle.
    pub client: Rect,
    /// The size the native window is created with.
    pub outer_width: i32,
    pub outer_height: i32,
    /// The identifier the window's class is named after.
    pub guid: Guid,
    pub class_name: Seq<char>,
    pub window_class: u16,
    /// The index of the pixel format chosen for the surface.
    pub format: i32,
    pub hwnd: usize,
    pub hdc: usize,
    pub gl_context: usize,
    pub color: Color,
}

impl WindowState {
    /// The state of a window that has just started to open: nothing is
    /// held, the class is named after `guid`, and the registration of the
    /// class is awaited.
    pub open spec fn opening(options: WindowOpenOptions, guid: Guid) -> WindowState {
        WindowState {
            stage: Stage::Registering,
            title: options.title@,
            parent: options.parent,
            client: Rect::client_of(options.width, options.height),
            outer_width: options.width as i32,
            outer_height: options.height as i32,
            guid,
            class_name: class_name_text(guid),
            window_class: 0,
            format: 0,
            hwnd: 0,
            hdc: 0,
            gl_context: 0,
            color: initial_color(),
        }
    }

    pub open spec fn top_level(self) -> bool {
        !self.parent.is_child()
    }

    pub open spec fn lifecycle(self) -> Lifecycle {
        self.stage.lifecycle()
    }

    /// The window has been recorded as the owner of its native handle.
    pub open spec fn associated(self) -> bool {
        self.stage is ArmingTimer || self.stage is Running
    }

    /// The call whose result the window waits for.
    pub open spec fn pending(self) -> Option<Request> {
        match self.stage {
            Stage::Registering => Some(Request::RegisterClass { style: CS_OWNDC }),
            Stage::Sizing => Some(
                Request::AdjustRect { rect: self.client, style: style_of(self.parent) },
            ),
            Stage::Creating => Some(
                Request::CreateWindow {
                    class: self.window_class,
                    style: style_of(self.parent),
                    x: 0,
                    y: 0,
                    width: self.outer_width,
                    height: self.outer_height,
                    parent: self.parent.handle(),
                },
            ),
            Stage::AcquiringSurface => Some(Request::AcquireSurface { hwnd: self.hwnd }),
            Stage::ChoosingFormat => Some(
                Request::ChooseFormat { hdc: self.hdc, format: wanted_format() },
            ),
            Stage::SettingFormat => Some(
                Request::SetFormat { hdc: self.hdc, index: self.format, format: wanted_format() },
            ),
            Stage::CreatingContext => Some(Request::CreateContext { hdc: self.hdc }),
            Stage::Activating => Some(
                Request::MakeCurrent { hdc: self.hdc, context: self.gl_context },
            ),
            Stage::Loading => Some(Request::LoadEntryPoints),
            Stage::Associating => Some(Request::Associate { hwnd: self.hwnd }),
            Stage::ArmingTimer => Some(
                Request::ArmTimer { hwnd: self.hwnd, id: TIMER_ID, period_ms: TIMER_PERIOD_MS },
            ),
            Stage::Running | Stage::Closed => None,
        }
    }

    /// Whether `reply` reports that the awaited call succeeded. A reply of
    /// the wrong shape counts as a failure; the last three calls of the
    /// sequence succeed whatever they return.
    pub open spec fn accepts(self, reply: Reply) -> bool {
        match self.stage {
            Stage::Registering => reply.atom() != 0,
            Stage::Sizing => reply.rect() matches Some(r) && r.expressible(),
            Stage::Creating | Stage::AcquiringSurface | Stage::CreatingContext => reply.handle()
                != 0,
            Stage::ChoosingFormat | Stage::SettingFormat | Stage::Activating => reply.status()
                != 0,
            Stage::Loading | Stage::Associating | Stage::ArmingTimer => true,
            Stage::Running | Stage::Closed => false,
        }
    }

    /// The resources held, in the order in which they were acquired.
    pub open spec fn held(self) -> Seq<Resource> {
        (if self.window_class != 0 {
            seq![Resource::Class { atom: self.window_class }]
        } else {
            Seq::empty()
        }) + (if self.hwnd != 0 {
            seq![Resource::NativeWindow { hwnd: self.hwnd }]
        } else {
            Seq::empty()
        }) + (if self.hdc != 0 {
            seq![Resource::Surface { hwnd: self.hwnd, hdc: self.hdc }]
        } else {
            Seq::empty()
        }) + (if self.gl_context != 0 {
            seq![Resource::Context { context: self.gl_context }]
        } else {
            Seq::empty()
        })
    }

    /// The calls that give back everything the window holds: context, then
    /// surface, then native window, then class.
    pub open spec fn release_plan(self) -> Seq<Release> {
        unwind(self.held())
    }

    /// The window after closing: it holds nothing and stays closed.
    pub open spec fn closed(self) -> WindowState {
        WindowState {
            stage: Stage::Closed,
            window_class: 0,
            hwnd: 0,
            hdc: 0,
            gl_context: 0,
            ..self
        }
    }

    /// The resource that an accepted `reply` brings in this stage, if any.
    pub open spec fn gained(self, reply: Reply) -> Seq<Resource> {
        if !self.accepts(reply) {
            Seq::empty()
        } else {
            match self.stage {
                Stage::Registering => seq![Resource::Class { atom: reply.atom() }],
                Stage::Creating => seq![Resource::NativeWindow { hwnd: reply.handle() }],
                Stage::AcquiringSurface => seq![
                    Resource::Surface { hwnd: self.hwnd, hdc: reply.handle() },
                ],
                Stage::CreatingContext => seq![Resource::Context { context: reply.handle() }],
                _ => Seq::empty(),
            }
        }
    }

    /// The window after `reply` was handed to it.
    ///
    /// A window that waits for nothing stays as it is. A reply that reports
    /// failure closes the window. An accepted reply is recorded and moves the
    /// window to the next stage: a child window skips the sizing stage, since
    /// it is created with the requested size and no decorations.
    pub open spec fn advanced(self, reply: Reply) -> WindowState {
        if self.pending() is None {
            self
        } else if !self.accepts(reply) {
            self.closed()
        } else {
            match self.stage {
                Stage::Registering => WindowState {
                    stage: if self.top_level() {
                        Stage::Sizing
                    } else {
                        Stage::Creating
                    },
                    window_class: reply.atom(),
                    ..self
                },
                Stage::Sizing => WindowState {
                    stage: Stage::Creating,
                    outer_width: reply.rect().unwrap().width() as i32,
                    outer_height: reply.rect().unwrap().height() as i32,
                    ..self
                },
                Stage::Creating => WindowState {
                    stage: Stage::AcquiringSurface,
                    hwnd: reply.handle(),
                    ..self
                },
                Stage::AcquiringSurface => WindowState {
                    stage: Stage::ChoosingFormat,
                    hdc: reply.handle(),
                    ..self
                },
                Stage::ChoosingFormat => WindowState {
                    stage: Stage::SettingFormat,
                    format: reply.status(),
                    ..self
                },
                Stage::SettingFormat => WindowState { stage: Stage::CreatingContext, ..self },
                Stage::CreatingContext => WindowState {
                    stage: Stage::Activating,
                    gl_context: reply.handle(),
                    ..self
                },
                Stage::Activating => WindowState { stage: Stage::Loading, ..self },
                Stage::Loading => WindowState { stage: Stage::Associating, ..self },
                Stage::Associating => WindowState { stage: Stage::ArmingTimer, ..self },
                _ => WindowState { stage: Stage::Running, ..self },
            }
        }
    }

    /// What the window answers to `reply`.
    ///
    /// Nothing, if it waits for nothing. On a failure, the error of the
    /// failing site and the releases of everything acquired so far. On the
    /// last accepted reply, that the window is open, and whether the caller
    /// has to pump messages: a top-level window's opener does, a child's
    /// messages are pumped by its host. Otherwise the next call.
    pub open spec fn outcome(self, reply: Reply) -> StepView {
        if self.pending() is None {
            StepView::Idle
        } else if !self.accepts(reply) {
            StepView::Failed { error: self.stage.failure(), releases: self.release_plan() }
        } else if self.stage is ArmingTimer {
            StepView::Opened { pump: self.top_level() }
        } else {
            StepView::Request(self.advanced(reply).pending().unwrap())
        }
    }

    /// The window after the pointer moved to `(x, y)`.
    pub open spec fn moved(self, x: i32, y: i32) -> WindowState {
        WindowState { color: moved_color(self.color, x, y), ..self }
    }

    /// The calls that draw the window's frame.
    pub open spec fn frame(self) -> Seq<DrawCommand> {
        frame_of(self.color, self.hdc)
    }

    /// What the dispatch callback does with a message for this window.
    pub open spec fn dispatched(self, message: Message) -> Dispatch {
        routed(self.associated(), message)
    }

    /// What one turn of the pump does: a window that is not running leaves
    /// the pump whatever was retrieved.
    pub open spec fn pump(self, status: i32, message: Message) -> PumpStep {
        if self.stage is Running {
            pumped(status, message)
        } else {
            PumpStep::Shutdown
        }
    }

    /// The class is named after the window's identifier, and the handles
    /// agree with the stage: each is set from the stage on in which its
    /// resource was acquired, and cleared when the window closes.
    pub open spec fn wf(self) -> bool {
        &&& self.class_name == class_name_text(self.guid)
        &&& (self.window_class != 0) == !(self.stage is Registering || self.stage is Closed)
        &&& (self.hwnd != 0) == !(self.stage is Registering || self.stage is Sizing
            || self.stage is Creating || self.stage is Closed)
        &&& (self.hdc != 0) == (self.hwnd != 0 && !(self.stage is AcquiringSurface))
        &&& (self.gl_context != 0) == (self.hdc != 0 && !(self.stage is ChoosingFormat
            || self.stage is SettingFormat || self.stage is CreatingContext))
        &&& self.stage is Sizing ==> self.top_level()
    }
}

/// Undoing a list of resources that may end in `r` starts with the releases
/// of `r`, if it is there, and goes on with the rest.
proof fn lemma_unwind_last(s: Seq<Resource>, present: bool, r: Resource)
    ensures
        unwind(
            s + (if present {
                seq![r]
            } else {
                Seq::empty()
            }),
        ) == (if present {
            releases_of(r)
        } else {
            Seq::empty()
        }) + unwind(s),
{
    if present {
        assert((s + seq![r]).last() == r);
        assert((s + seq![r]).drop_last() =~= s);
    } else {
        assert(s + Seq::<Resource>::empty() =~= s);
        assert(Seq::<Release>::empty() + unwind(s) =~= unwind(s));
    }
}

/// The release plan, written out: context, surface, native window, class,
/// each only if it is held.
pub proof fn lemma_release_plan(w: WindowState)
    ensures
        w.release_plan() == (if w.gl_context != 0 {
            seq![Release::ClearCurrent, Release::DeleteContext { context: w.gl_context }]
        } else {
            Seq::empty()
        }) + (if w.hdc != 0 {
            seq![Release::ReleaseSurface { hwnd: w.hwnd, hdc: w.hdc }]
        } else {
            Seq::empty()
        }) + (if w.hwnd != 0 {
            seq![Release::DestroyWindow { hwnd: w.hwnd }]
        } else {
            Seq::empty()
        }) + (if w.window_class != 0 {
            seq![Release::UnregisterClass { atom: w.window_class }]
        } else {
            Seq::empty()
        }),
{
    let class = Resource::Class { atom: w.window_class };
    let native = Resource::NativeWindow { hwnd: w.hwnd };
    let surface = Resource::Surface { hwnd: w.hwnd, hdc: w.hdc };
    let context = Resource::Context { context: w.gl_context };
    let h0 = Seq::<Resource>::empty();
    let h1 = h0 + (if w.window_class != 0 {
        seq![class]
    } else {
        Seq::empty()
    });
    let h2 = h1 + (if w.hwnd != 0 {
        seq![native]
    } else {
        Seq::empty()
    });
    let h3 = h2 + (if w.hdc != 0 {
        seq![surface]
    } else {
        Seq::empty()
    });
    lemma_unwind_last(h0, w.window_class != 0, class);
    lemma_unwind_last(h1, w.hwnd != 0, native);
    lemma_unwind_last(h2, w.hdc != 0, surface);
    lemma_unwind_last(h3, w.gl_context != 0, context);
    assert(w.held() =~= h3 + (if w.gl_context != 0 {
        seq![context]
    } else {
        Seq::empty()
    }));
    assert(unwind(h0) =~= Seq::<Release>::empty());
}

} // verus!
