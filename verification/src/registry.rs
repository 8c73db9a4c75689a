//! The windows of one process, and the owner of each native handle.
//!
//! The registry keeps every window it opened in a slot of its own. Class
//! names differ wherever identifiers differ, so the class identities of the
//! windows that are open side by side are pairwise distinct as long as no
//! identifier is handed in twice; a window whose identifier a live window
//! already bears is refused. The registry also tells the dispatch callback
//! which window owns a native handle. A registry belongs to the thread that
//! opens its windows.
use crate::class::{class_name, class_name_text, lemma_class_name_injective, Guid};
use crate::error::OpenError;
use crate::message::{route, routed, Dispatch, Message, PumpStep, WM_CREATE};
use crate::model::WindowState;
use crate::options::WindowOpenOptions;
use crate::protocol::{Release, Reply, Request, Step, StepView};
use crate::render::DrawCommand;
use crate::window::Window;
use vstd::prelude::*;

verus! {

/// A window is live from the start of its opening until it is closed.
pub open spec fn live(w: WindowState) -> bool {
    !(w.stage is Closed)
}

/// A live window bears the class name `name`.
pub open spec fn name_taken(ws: Seq<WindowState>, name: Seq<char>) -> bool {
    exists|i: int| 0 <= i < ws.len() && #[trigger] live(ws[i]) && ws[i].class_name == name
}

/// A live window was opened with the identifier `guid`.
pub open spec fn identifier_live(ws: Seq<WindowState>, guid: Guid) -> bool {
    exists|i: int| 0 <= i < ws.len() && #[trigger] live(ws[i]) && ws[i].guid == guid
}

/// No two live windows bear the same class name.
pub open spec fn identities_distinct(ws: Seq<WindowState>) -> bool {
    forall|i: int, j: int|
        0 <= i < j < ws.len() && #[trigger] live(ws[i]) && #[trigger] live(ws[j])
            ==> ws[i].class_name != ws[j].class_name
}

/// Every window is well formed, and the live ones differ in their class names.
pub open spec fn well_formed(ws: Seq<WindowState>) -> bool {
    &&& forall|i: int| 0 <= i < ws.len() ==> (#[trigger] ws[i]).wf()
    &&& identities_distinct(ws)
}

/// The window has been recorded as the owner of the handle `hwnd`.
pub open spec fn owns(w: WindowState, hwnd: usize) -> bool {
    w.associated() && w.hwnd == hwnd
}

/// Some window owns the handle `hwnd`.
pub open spec fn owned(ws: Seq<WindowState>, hwnd: usize) -> bool {
    exists|k: int| 0 <= k < ws.len() && owns(#[trigger] ws[k], hwnd)
}

/// The class identity of a window: the atom of its registered class and the
/// name the class bears.
pub open spec fn identity(w: WindowState) -> (u16, Seq<char>) {
    (w.window_class, w.class_name)
}

/// `slot` is the first window that owns `hwnd`, or there is none.
pub open spec fn is_owner(ws: Seq<WindowState>, hwnd: usize, slot: Option<usize>) -> bool {
    match slot {
        Some(s) => {
            &&& s < ws.len()
            &&& owns(ws[s as int], hwnd)
            &&& forall|k: int| 0 <= k < s ==> !owns(#[trigger] ws[k], hwnd)
        },
        None => forall|k: int| 0 <= k < ws.len() ==> !owns(#[trigger] ws[k], hwnd),
    }
}

/// The windows of one process, by slot. Slots are never reused: a closed
/// window keeps its slot.
pub struct Registry {
    windows: Vec<Window>,
}

impl View for Registry {
    type V = Seq<WindowState>;

    closed spec fn view(&self) -> Seq<WindowState> {
        Seq::new(self.windows@.len(), |i: int| self.windows@[i]@)
    }
}

impl Registry {
    /// A registry without windows.
    pub fn new() -> (registry: Registry)
        ensures
            registry@ == Seq::<WindowState>::empty(),
            well_formed(registry@),
    {
        let registry = Registry { windows: Vec::new() };
        assert(registry@ =~= Seq::<WindowState>::empty());
        registry
    }

    /// The number of slots.
    pub fn len(&self) -> (n: usize)
        ensures
            n == self@.len(),
    {
        self.windows.len()
    }

    /// Whether a live window bears the class name `name`.
    pub fn is_name_taken(&self, name: &String) -> (taken: bool)
        ensures
            taken == name_taken(self@, name@),
    {
        let mut i: usize = 0;
        while i < self.windows.len()
            invariant
                i <= self.windows.len(),
                forall|k: int|
                    0 <= k < i ==> !(#[trigger] live(self@[k]) && self@[k].class_name == name@),
            decreases self.windows.len() - i,
        {
            if self.windows[i].is_live() && self.windows[i].has_class_name(name) {
                assert(live(self@[i as int]));
                return true;
            }
            i += 1;
        }
        false
    }

    /// Starts to open a window in a new slot and answers the slot.
    ///
    /// The window's class is named after `guid`. The registration fails
    /// exactly if a live window already bears that name, which is, in a well
    /// formed registry, if `guid` is the identifier of a live window: the
    /// window system would refuse the class. No call is asked for then, and
    /// the registry stays as it is. A fresh identifier is never refused.
    pub fn open(&mut self, options: WindowOpenOptions, guid: &Guid) -> (slot: Result<
        usize,
        OpenError,
    >)
        requires
            options.valid(),
        ensures
            name_taken(old(self)@, class_name_text(*guid)) ==> slot == Err::<usize, OpenError>(
                OpenError::RegistrationFailed,
            ) && final(self)@ == old(self)@,
            !name_taken(old(self)@, class_name_text(*guid)) ==> slot is Ok && slot.unwrap()
                == old(self)@.len() && final(self)@ == old(self)@.push(
                WindowState::opening(options, *guid),
            ),
            well_formed(old(self)@) ==> (slot is Err <==> identifier_live(old(self)@, *guid)),
            well_formed(old(self)@) ==> well_formed(final(self)@),
    {
        proof {
            lemma_name_taken_by_identifier(self@, *guid);
        }
        let name = class_name(guid);
        if self.is_name_taken(&name) {
            return Err(OpenError::RegistrationFailed);
        }
        let slot: usize = self.windows.len();
        let window = Window::open(options, guid);
        self.windows.push(window);
        assert(self@ =~= old(self)@.push(WindowState::opening(options, *guid)));
        proof {
            if well_formed(old(self)@) {
                assert forall|i: int, j: int|
                    0 <= i < j < self@.len() && #[trigger] live(self@[i]) && #[trigger] live(
                        self@[j],
                    ) implies self@[i].class_name != self@[j].class_name by {
                    if j == slot {
                        assert(live(old(self)@[i]));
                    } else {
                        assert(live(old(self)@[i]) && live(old(self)@[j]));
                    }
                }
            }
        }
        Ok(slot)
    }

    /// The call the window in `slot` waits for, if any.
    pub fn pending(&self, slot: usize) -> (request: Option<Request>)
        ensures
            slot < self@.len() ==> request == self@[slot as int].pending(),
            slot >= self@.len() ==> request is None,
    {
        if slot < self.windows.len() {
            self.windows[slot].pending()
        } else {
            None
        }
    }

    /// Hands the result of the awaited call to the window in `slot`. A slot
    /// that does not exist waits for nothing.
    pub fn advance(&mut self, slot: usize, reply: Reply) -> (step: Step)
        ensures
            slot < old(self)@.len() ==> step@ == old(self)@[slot as int].outcome(reply)
                && final(self)@ == old(self)@.update(
                slot as int,
                old(self)@[slot as int].advanced(reply),
            ),
            slot >= old(self)@.len() ==> step@ == StepView::Idle && final(self)@ == old(self)@,
            well_formed(old(self)@) ==> well_formed(final(self)@),
    {
        if slot >= self.windows.len() {
            return Step::Idle;
        }
        let step = self.windows[slot].advance(reply);
        assert(self@ =~= old(self)@.update(slot as int, old(self)@[slot as int].advanced(reply)));
        proof {
            lemma_update_keeps_well_formed(
                old(self)@,
                slot as int,
                old(self)@[slot as int].advanced(reply),
            );
        }
        step
    }

    /// Closes the window in `slot` and answers the releases of everything it
    /// holds. The slot stays, closed; a slot that does not exist releases
    /// nothing.
    pub fn close(&mut self, slot: usize) -> (releases: Vec<Release>)
        ensures
            slot < old(self)@.len() ==> releases@ == old(self)@[slot as int].release_plan()
                && final(self)@ == old(self)@.update(slot as int, old(self)@[slot as int].closed()),
            slot >= old(self)@.len() ==> releases@ == Seq::<Release>::empty() && final(self)@
                == old(self)@,
            well_formed(old(self)@) ==> well_formed(final(self)@),
    {
        if slot >= self.windows.len() {
            return Vec::new();
        }
        let releases = self.windows[slot].close();
        assert(self@ =~= old(self)@.update(slot as int, old(self)@[slot as int].closed()));
        proof {
            lemma_update_keeps_well_formed(
                old(self)@,
                slot as int,
                old(self)@[slot as int].closed(),
            );
        }
        releases
    }

    /// The window in `slot`.
    pub fn window(&self, slot: usize) -> (window: Option<&Window>)
        ensures
            slot < self@.len() ==> window is Some && window.unwrap()@ == self@[slot as int],
            slot >= self@.len() ==> window is None,
    {
        if slot < self.windows.len() {
            Some(&self.windows[slot])
        } else {
            None
        }
    }

    /// Records that the pointer moved to `(x, y)` over the window in `slot`.
    pub fn handle_mouse_motion(&mut self, slot: usize, x: i32, y: i32)
        ensures
            slot < old(self)@.len() ==> final(self)@ == old(self)@.update(
                slot as int,
                old(self)@[slot as int].moved(x, y),
            ),
            slot >= old(self)@.len() ==> final(self)@ == old(self)@,
            well_formed(old(self)@) ==> well_formed(final(self)@),
    {
        if slot < self.windows.len() {
            self.windows[slot].handle_mouse_motion(x, y);
            assert(self@ =~= old(self)@.update(slot as int, old(self)@[slot as int].moved(x, y)));
            proof {
                lemma_update_keeps_well_formed(
                    old(self)@,
                    slot as int,
                    old(self)@[slot as int].moved(x, y),
                );
            }
        }
    }

    /// The calls that draw a frame of the window in `slot` now.
    pub fn draw_frame(&self, slot: usize) -> (frame: Option<[DrawCommand; 3]>)
        ensures
            slot < self@.len() ==> frame is Some && frame.unwrap()@ == self@[slot as int].frame(),
            slot >= self@.len() ==> frame is None,
    {
        if slot < self.windows.len() {
            Some(self.windows[slot].draw_frame())
        } else {
            None
        }
    }

    /// One turn of the message pump of the window in `slot`. The pump of a
    /// slot that does not exist ends at once.
    pub fn pump_once(&self, slot: usize, status: i32, message: Message) -> (step: PumpStep)
        ensures
            slot < self@.len() ==> step == self@[slot as int].pump(status, message),
            slot >= self@.len() ==> step == PumpStep::Shutdown,
    {
        if slot < self.windows.len() {
            self.windows[slot].pump_once(status, message)
        } else {
            PumpStep::Shutdown
        }
    }

    /// What the dispatch callback does with a message that arrived for the
    /// native handle `hwnd`: the handle has an owner once a window was
    /// associated with it.
    pub fn dispatch(&self, hwnd: usize, message: Message) -> (d: Dispatch)
        ensures
            d == routed(owned(self@, hwnd), message),
    {
        let owner = self.owner(hwnd);
        route(owner.is_some(), message)
    }

    /// The slot of the window that owns the native handle `hwnd`.
    pub fn owner(&self, hwnd: usize) -> (slot: Option<usize>)
        ensures
            is_owner(self@, hwnd, slot),
    {
        let mut i: usize = 0;
        while i < self.windows.len()
            invariant
                i <= self.windows.len(),
                forall|k: int| 0 <= k < i ==> !owns(#[trigger] self@[k], hwnd),
            decreases self.windows.len() - i,
        {
            if self.windows[i].is_associated() && self.windows[i].hwnd() == hwnd {
                return Some(i);
            }
            i += 1;
        }
        None
    }
}

/// In a well-formed registry a class name is taken exactly if a live window
/// was opened with the identifier that the name was made for.
pub proof fn lemma_name_taken_by_identifier(ws: Seq<WindowState>, guid: Guid)
    ensures
        well_formed(ws) ==> (name_taken(ws, class_name_text(guid)) <==> identifier_live(
            ws,
            guid,
        )),
{
    let name = class_name_text(guid);
    if well_formed(ws) {
        if name_taken(ws, name) {
            let i = choose|i: int|
                0 <= i < ws.len() && #[trigger] live(ws[i]) && ws[i].class_name == name;
            assert(ws[i].wf());
            lemma_class_name_injective(ws[i].guid, guid);
            assert(live(ws[i]) && ws[i].guid == guid);
        }
        if identifier_live(ws, guid) {
            let i = choose|i: int| 0 <= i < ws.len() && #[trigger] live(ws[i]) && ws[i].guid == guid;
            assert(ws[i].wf());
            assert(live(ws[i]) && ws[i].class_name == name);
        }
    }
}

/// The windows that are open at the same time bear pairwise distinct class
/// identities, however many there are, and were opened with pairwise
/// distinct identifiers.
pub proof fn lemma_identities_pairwise_distinct(ws: Seq<WindowState>, i: int, j: int)
    requires
        well_formed(ws),
        0 <= i < ws.len(),
        0 <= j < ws.len(),
        i != j,
        live(ws[i]),
        live(ws[j]),
    ensures
        ws[i].class_name != ws[j].class_name,
        identity(ws[i]) != identity(ws[j]),
        ws[i].guid != ws[j].guid,
{
    assert(ws[i].wf() && ws[j].wf());
    if i < j {
        assert(live(ws[i]) && live(ws[j]));
    } else {
        assert(live(ws[j]) && live(ws[i]));
    }
}

/// A message for a handle that no window owns yet is left to default
/// processing. Once the window that holds the handle is associated with
/// it, the handle has an owner and the same message reaches the event
/// handler, with the kind and the parameters it arrived with.
pub proof fn lemma_dispatch_after_association(
    ws: Seq<WindowState>,
    slot: int,
    reply: Reply,
    message: Message,
)
    requires
        0 <= slot < ws.len(),
        ws[slot].stage is Associating,
        !owned(ws, ws[slot].hwnd),
        message.kind != WM_CREATE,
    ensures
        routed(owned(ws, ws[slot].hwnd), message) == Dispatch::DefaultProcessing(message),
        ({
            let after = ws.update(slot, ws[slot].advanced(reply));
            &&& owned(after, ws[slot].hwnd)
            &&& routed(owned(after, ws[slot].hwnd), message) == Dispatch::Forward(message)
        }),
{
    let after = ws.update(slot, ws[slot].advanced(reply));
    assert(owns(after[slot], ws[slot].hwnd));
}

/// Replacing a window by a later state of itself keeps the registry well
/// formed: the window keeps its class name, and no closed window comes back
/// to life.
pub proof fn lemma_update_keeps_well_formed(ws: Seq<WindowState>, slot: int, next: WindowState)
    requires
        0 <= slot < ws.len(),
        well_formed(ws) ==> next.wf(),
        next.class_name == ws[slot].class_name,
        live(next) ==> live(ws[slot]),
    ensures
        well_formed(ws) ==> well_formed(ws.update(slot, next)),
{
    let after = ws.update(slot, next);
    if well_formed(ws) {
        assert forall|i: int, j: int|
            0 <= i < j < after.len() && #[trigger] live(after[i]) && #[trigger] live(
                after[j],
            ) implies after[i].class_name != after[j].class_name by {
            assert(live(ws[i]) && live(ws[j]));
        }
    }
}

} // verus!
