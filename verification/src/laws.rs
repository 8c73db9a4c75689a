//! What holds of every window, whatever the native calls answer.
use crate::class::{class_name_text, lemma_class_name_injective, Guid};
use crate::geometry::Rect;
use crate::message::{Dispatch, Message, WM_CREATE};
use crate::model::WindowState;
use crate::options::WindowOpenOptions;
use crate::protocol::{unwind, Lifecycle, Release, Reply, Resource, Stage, StepView};
use crate::render::{initial_color, DrawCommand, COLOR_BUFFER_BIT};
use vstd::prelude::*;

verus! {

/// The window after a whole sequence of replies was handed to it, one by one.
pub open spec fn run(w: WindowState, replies: Seq<Reply>) -> WindowState
    decreases replies.len(),
{
    if replies.len() == 0 {
        w
    } else {
        run(w.advanced(replies[0]), replies.drop_first())
    }
}

/// The resources acquired while `replies` were handed to the window, in the
/// order of acquisition.
pub open spec fn acquired(w: WindowState, replies: Seq<Reply>) -> Seq<Resource>
    decreases replies.len(),
{
    if replies.len() == 0 {
        Seq::empty()
    } else {
        w.gained(replies[0]) + acquired(w.advanced(replies[0]), replies.drop_first())
    }
}

/// The releases the window asked for while `replies` were handed to it.
pub open spec fn released(w: WindowState, replies: Seq<Reply>) -> Seq<Release>
    decreases replies.len(),
{
    if replies.len() == 0 {
        Seq::empty()
    } else {
        (if w.pending() is Some && !w.accepts(replies[0]) {
            w.release_plan()
        } else {
            Seq::empty()
        }) + released(w.advanced(replies[0]), replies.drop_first())
    }
}

/// A freshly opening window is well formed.
pub proof fn lemma_opening_wf(options: WindowOpenOptions, guid: Guid)
    ensures
        WindowState::opening(options, guid).wf(),
        WindowState::opening(options, guid).held() == Seq::<Resource>::empty(),
{
    assert(WindowState::opening(options, guid).held() =~= Seq::<Resource>::empty());
}

/// A window keeps its identifier and its class name through every reply,
/// and through closing.
pub proof fn lemma_identity_is_kept(w: WindowState, replies: Seq<Reply>)
    ensures
        run(w, replies).guid == w.guid,
        run(w, replies).class_name == w.class_name,
        w.closed().guid == w.guid,
        w.closed().class_name == w.class_name,
    decreases replies.len(),
{
    if replies.len() > 0 {
        lemma_identity_is_kept(w.advanced(replies[0]), replies.drop_first());
    }
}

/// Two windows that were opened with different identifiers bear different
/// class names, whatever else they were opened with and whatever the native
/// calls answered to either of them since.
pub proof fn lemma_distinct_identifiers_distinct_names(
    first: WindowOpenOptions,
    a: Guid,
    to_first: Seq<Reply>,
    second: WindowOpenOptions,
    b: Guid,
    to_second: Seq<Reply>,
)
    requires
        a != b,
    ensures
        run(WindowState::opening(first, a), to_first).class_name != run(
            WindowState::opening(second, b),
            to_second,
        ).class_name,
{
    lemma_identity_is_kept(WindowState::opening(first, a), to_first);
    lemma_identity_is_kept(WindowState::opening(second, b), to_second);
    lemma_class_name_injective(a, b);
}

/// No reply takes a well-formed window to an ill-formed one.
pub proof fn lemma_advance_keeps_wf(w: WindowState, reply: Reply)
    requires
        w.wf(),
    ensures
        w.advanced(reply).wf(),
{
}

/// Moving the pointer changes nothing but the colour.
pub proof fn lemma_motion_keeps_wf(w: WindowState, x: i32, y: i32)
    requires
        w.wf(),
    ensures
        w.moved(x, y).wf(),
        w.moved(x, y).held() == w.held(),
        w.moved(x, y).stage == w.stage,
{
}

/// A window never goes back in its lifecycle: from uninitialized it gets to
/// created only by an accepted reply, and once closed it stays closed.
pub proof fn lemma_lifecycle_order(w: WindowState, reply: Reply)
    ensures
        match w.lifecycle() {
            Lifecycle::Uninitialized => true,
            Lifecycle::Created => w.advanced(reply).lifecycle() != Lifecycle::Uninitialized,
            Lifecycle::Running => w.advanced(reply).lifecycle() == Lifecycle::Running,
            Lifecycle::Closed => w.advanced(reply).lifecycle() == Lifecycle::Closed,
        },
        w.closed().lifecycle() == Lifecycle::Closed,
{
}

/// Once the native resources are complete, window, surface and context are
/// either all there or, after closing, all gone: no window that has left the
/// uninitialized state holds only some of them.
pub proof fn lemma_all_or_nothing(w: WindowState)
    requires
        w.wf(),
        w.lifecycle() != Lifecycle::Uninitialized,
    ensures
        (w.hwnd != 0 && w.hdc != 0 && w.gl_context != 0 && w.window_class != 0) || (w.hwnd == 0
            && w.hdc == 0 && w.gl_context == 0 && w.window_class == 0),
        w.lifecycle() == Lifecycle::Closed <==> w.hwnd == 0,
{
}

/// Closing leaves nothing held, so closing again releases nothing and
/// changes nothing.
pub proof fn lemma_close_is_idempotent(w: WindowState)
    ensures
        w.wf() ==> w.closed().wf(),
        w.closed().held() == Seq::<Resource>::empty(),
        w.closed().release_plan() == Seq::<Release>::empty(),
        w.closed().closed() == w.closed(),
{
    assert(w.closed().held() =~= Seq::<Resource>::empty());
}

/// An accepted reply adds what it brings to the end of what is held, and
/// takes nothing away.
pub proof fn lemma_step_gains(w: WindowState, reply: Reply)
    requires
        w.wf(),
        w.pending() is Some,
        w.accepts(reply),
    ensures
        w.advanced(reply).held() == w.held() + w.gained(reply),
        w.gained(reply).len() <= 1,
{
    assert(w.advanced(reply).held() =~= w.held() + w.gained(reply));
}

/// A closed window ignores every reply.
pub proof fn lemma_closed_is_final(w: WindowState, replies: Seq<Reply>)
    requires
        w.pending() is None,
    ensures
        run(w, replies) == w,
        acquired(w, replies) == Seq::<Resource>::empty(),
        released(w, replies) == Seq::<Release>::empty(),
    decreases replies.len(),
{
    if replies.len() > 0 {
        lemma_closed_is_final(w, replies.drop_first());
        assert(acquired(w, replies) =~= Seq::<Resource>::empty());
        assert(released(w, replies) =~= Seq::<Release>::empty());
    }
}

/// From any well-formed window on, and whatever the native calls answer:
/// the releases asked for along the way, followed by those that closing
/// asks for at the end, undo what the window held and what it acquired
/// since, each resource once, the last acquired first.
pub proof fn lemma_releases_balance(w: WindowState, replies: Seq<Reply>)
    requires
        w.wf(),
    ensures
        run(w, replies).wf(),
        released(w, replies) + run(w, replies).release_plan() == unwind(
            w.held() + acquired(w, replies),
        ),
    decreases replies.len(),
{
    if replies.len() == 0 {
        assert(w.held() + acquired(w, replies) =~= w.held());
        assert(released(w, replies) + run(w, replies).release_plan() =~= unwind(w.held()));
    } else {
        let reply = replies[0];
        let rest = replies.drop_first();
        let next = w.advanced(reply);
        lemma_advance_keeps_wf(w, reply);
        if w.pending() is None {
            lemma_closed_is_final(w, replies);
            assert(w.held() + acquired(w, replies) =~= w.held());
            assert(released(w, replies) + run(w, replies).release_plan() =~= unwind(w.held()));
        } else if !w.accepts(reply) {
            lemma_closed_is_final(next, rest);
            lemma_close_is_idempotent(w);
            assert(w.gained(reply) =~= Seq::<Resource>::empty());
            assert(w.held() + acquired(w, replies) =~= w.held());
            assert(released(w, replies) + run(w, replies).release_plan() =~= unwind(w.held()));
        } else {
            lemma_step_gains(w, reply);
            lemma_releases_balance(next, rest);
            assert(w.held() + acquired(w, replies) =~= next.held() + acquired(next, rest));
            assert(released(w, replies) =~= released(next, rest));
        }
    }
}

/// Opening a window and closing it, at whatever point and whatever the
/// native calls answered in between, releases every resource that was
/// acquired exactly once, in the reverse order of acquisition.
pub proof fn lemma_open_close_releases_all(
    options: WindowOpenOptions,
    guid: Guid,
    replies: Seq<Reply>,
)
    ensures
        ({
            let opening = WindowState::opening(options, guid);
            let last = run(opening, replies);
            &&& released(opening, replies) + last.release_plan() == unwind(
                acquired(opening, replies),
            )
            &&& last.closed().held() == Seq::<Resource>::empty()
            &&& last.closed().release_plan() == Seq::<Release>::empty()
        }),
{
    let opening = WindowState::opening(options, guid);
    lemma_opening_wf(options, guid);
    lemma_releases_balance(opening, replies);
    lemma_close_is_idempotent(run(opening, replies));
    assert(opening.held() + acquired(opening, replies) =~= acquired(opening, replies));
}

/// What a window system answers when every call of an opening succeeds.
pub struct Answers {
    pub atom: u16,
    /// The client rectangle grown by the decorations; asked of top-level
    /// windows only.
    pub adjusted: Rect,
    pub hwnd: usize,
    pub hdc: usize,
    pub format: i32,
    pub context: usize,
}

impl Answers {
    /// Every answer reports success.
    pub open spec fn successful(self) -> bool {
        &&& self.atom != 0
        &&& self.adjusted.expressible()
        &&& self.hwnd != 0
        &&& self.hdc != 0
        &&& self.format != 0
        &&& self.context != 0
    }

    /// The replies in the order in which a window asks for them.
    pub open spec fn replies(self, top_level: bool) -> Seq<Reply> {
        (if top_level {
            seq![Reply::Atom(self.atom), Reply::Rect(self.adjusted)]
        } else {
            seq![Reply::Atom(self.atom)]
        }) + seq![
            Reply::Handle(self.hwnd),
            Reply::Handle(self.hdc),
            Reply::Status(self.format),
            Reply::Status(1),
            Reply::Handle(self.context),
            Reply::Status(1),
            Reply::Done,
            Reply::Done,
            Reply::Done,
        ]
    }
}

/// On a window system where every call succeeds, a window that was opened
/// with valid options ends up running. It then holds the class, the window,
/// the surface and the context that it was given, bears the title and the
/// class name it was opened with, and was created with the decorated size
/// if it is a top-level window and with the requested size if it is a child.
pub proof fn lemma_opening_succeeds(options: WindowOpenOptions, guid: Guid, answers: Answers)
    requires
        options.valid(),
        answers.successful(),
    ensures
        ({
            let opening = WindowState::opening(options, guid);
            let w = run(opening, answers.replies(opening.top_level()));
            &&& w.stage is Running
            &&& w.window_class == answers.atom
            &&& w.hwnd == answers.hwnd
            &&& w.hdc == answers.hdc
            &&& w.format == answers.format
            &&& w.gl_context == answers.context
            &&& w.title == options.title@
            &&& w.class_name == class_name_text(guid)
            &&& w.parent == options.parent
            &&& w.color == initial_color()
            &&& opening.top_level() ==> w.outer_width == answers.adjusted.width()
                && w.outer_height == answers.adjusted.height()
            &&& !opening.top_level() ==> w.outer_width == options.width && w.outer_height
                == options.height
            &&& released(opening, answers.replies(opening.top_level())) == Seq::<Release>::empty()
        }),
{
    let opening = WindowState::opening(options, guid);
    let replies = answers.replies(opening.top_level());
    let w1 = opening.advanced(Reply::Atom(answers.atom));
    let w2 = if opening.top_level() {
        w1.advanced(Reply::Rect(answers.adjusted))
    } else {
        w1
    };
    let tail = seq![
        Reply::Handle(answers.hwnd),
        Reply::Handle(answers.hdc),
        Reply::Status(answers.format),
        Reply::Status(1),
        Reply::Handle(answers.context),
        Reply::Status(1),
        Reply::Done,
        Reply::Done,
        Reply::Done,
    ];
    assert(w2.stage is Creating);
    lemma_run_from_creating(w2, answers);
    if opening.top_level() {
        assert(replies.drop_first().drop_first() =~= tail);
        assert(replies.drop_first()[0] == Reply::Rect(answers.adjusted));
        assert(run(opening, replies) == run(w2, tail)) by {
            reveal_with_fuel(run, 3);
        }
        assert(released(opening, replies) == released(w2, tail)) by {
            reveal_with_fuel(released, 3);
            assert(released(opening, replies) =~= released(w2, tail));
        }
    } else {
        assert(replies.drop_first() =~= tail);
        assert(run(opening, replies) == run(w2, tail)) by {
            reveal_with_fuel(run, 2);
        }
        assert(released(opening, replies) == released(w2, tail)) by {
            reveal_with_fuel(released, 2);
            assert(released(opening, replies) =~= released(w2, tail));
        }
    }
}

/// From the creation of the native window on, nine accepted replies take a
/// window to the running stage.
proof fn lemma_run_from_creating(w: WindowState, answers: Answers)
    requires
        w.stage is Creating,
        answers.successful(),
    ensures
        ({
            let tail = seq![
                Reply::Handle(answers.hwnd),
                Reply::Handle(answers.hdc),
                Reply::Status(answers.format),
                Reply::Status(1),
                Reply::Handle(answers.context),
                Reply::Status(1),
                Reply::Done,
                Reply::Done,
                Reply::Done,
            ];
            &&& run(w, tail) == (WindowState {
                stage: Stage::Running,
                hwnd: answers.hwnd,
                hdc: answers.hdc,
                format: answers.format,
                gl_context: answers.context,
                ..w
            })
            &&& released(w, tail) == Seq::<Release>::empty()
        }),
{
    let r = seq![
        Reply::Handle(answers.hwnd),
        Reply::Handle(answers.hdc),
        Reply::Status(answers.format),
        Reply::Status(1),
        Reply::Handle(answers.context),
        Reply::Status(1),
        Reply::Done,
        Reply::Done,
        Reply::Done,
    ];
    let w1 = w.advanced(r[0]);
    let w2 = w1.advanced(r[1]);
    let w3 = w2.advanced(r[2]);
    let w4 = w3.advanced(r[3]);
    let w5 = w4.advanced(r[4]);
    let w6 = w5.advanced(r[5]);
    let w7 = w6.advanced(r[6]);
    let w8 = w7.advanced(r[7]);
    let w9 = w8.advanced(r[8]);
    let r1 = r.drop_first();
    let r2 = r1.drop_first();
    let r3 = r2.drop_first();
    let r4 = r3.drop_first();
    let r5 = r4.drop_first();
    let r6 = r5.drop_first();
    let r7 = r6.drop_first();
    let r8 = r7.drop_first();
    let r9 = r8.drop_first();
    assert(r1[0] == r[1] && r2[0] == r[2] && r3[0] == r[3] && r4[0] == r[4]);
    assert(r5[0] == r[5] && r6[0] == r[6] && r7[0] == r[7] && r8[0] == r[8]);
    assert(r9.len() == 0);
    assert(run(w9, r9) == w9);
    assert(run(w8, r8) == w9);
    assert(run(w7, r7) == w9);
    assert(run(w6, r6) == w9);
    assert(run(w5, r5) == w9);
    assert(run(w4, r4) == w9);
    assert(run(w3, r3) == w9);
    assert(run(w2, r2) == w9);
    assert(run(w1, r1) == w9);
    assert(run(w, r) == w9);
    assert(released(w9, r9) =~= Seq::<Release>::empty());
    assert(released(w8, r8) =~= Seq::<Release>::empty());
    assert(released(w7, r7) =~= Seq::<Release>::empty());
    assert(released(w6, r6) =~= Seq::<Release>::empty());
    assert(released(w5, r5) =~= Seq::<Release>::empty());
    assert(released(w4, r4) =~= Seq::<Release>::empty());
    assert(released(w3, r3) =~= Seq::<Release>::empty());
    assert(released(w2, r2) =~= Seq::<Release>::empty());
    assert(released(w1, r1) =~= Seq::<Release>::empty());
    assert(released(w, r) =~= Seq::<Release>::empty());
}

/// The first reply that is not accepted ends the opening: the window is
/// closed, the error is that of the stage the window was in, and the
/// releases are those of everything it held.
pub proof fn lemma_failure_closes(w: WindowState, reply: Reply)
    requires
        w.pending() is Some,
        !w.accepts(reply),
    ensures
        w.outcome(reply) == (StepView::Failed {
            error: w.stage.failure(),
            releases: unwind(w.held()),
        }),
        w.advanced(reply).stage is Closed,
        w.advanced(reply).held() == Seq::<Resource>::empty(),
{
    assert(w.advanced(reply).held() =~= Seq::<Resource>::empty());
}

/// After the pointer moved to `(x, y)`, the next frame is cleared to the
/// colour with red `x / 1000`, green `y / 1000` and the blue the window had
/// before, fully opaque, and then presented on the window's surface. Red
/// and green depend on nothing but `x` and `y`.
pub proof fn lemma_motion_then_frame(w: WindowState, x: i32, y: i32)
    ensures
        w.moved(x, y).frame() == seq![
            DrawCommand::ClearColor { r: x, g: y, b: w.color.b, a: 1000 },
            DrawCommand::Clear { mask: COLOR_BUFFER_BIT },
            DrawCommand::SwapBuffers { hdc: w.hdc },
        ],
        w.frame()[0] == (DrawCommand::ClearColor {
            r: w.color.r,
            g: w.color.g,
            b: w.color.b,
            a: 1000,
        }),
{
}

/// A message that arrives before the window is associated with its handle
/// is left to default processing; once the association is made, the same
/// message goes to the event handler, with the kind and the parameters it
/// arrived with. Creation messages are answered by the callback itself.
pub proof fn lemma_dispatch_follows_association(w: WindowState, message: Message, reply: Reply)
    requires
        message.kind != WM_CREATE,
    ensures
        !w.associated() ==> w.dispatched(message) == Dispatch::DefaultProcessing(message),
        w.associated() ==> w.dispatched(message) == Dispatch::Forward(message),
        w.stage is Associating ==> !w.associated() && w.advanced(reply).associated(),
{
}

} // verus!
