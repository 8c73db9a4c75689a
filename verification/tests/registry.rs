use baseview::class::Guid;
use baseview::error::OpenError;
use baseview::message::{Dispatch, Message, PumpStep};
use baseview::options::{Parent, WindowOpenOptions};
use baseview::protocol::{Release, Reply, Request, Stage, Step};
use baseview::registry::Registry;
use baseview::render::DrawCommand;

fn guid(n: u32) -> Guid {
    Guid { data1: n, data2: 0, data3: 0, data4: [0; 8] }
}

fn child() -> WindowOpenOptions {
    WindowOpenOptions {
        title: String::from("w"),
        width: 100,
        height: 50,
        parent: Parent::WithParent(0xAA),
    }
}

/// Opens the window in `slot` on a window system that hands out the handles
/// `base + 1`, `base + 2` and `base + 3`.
fn drive(registry: &mut Registry, slot: usize, base: usize) {
    registry.advance(slot, Reply::Atom(base as u16));
    registry.advance(slot, Reply::Handle(base + 1));
    registry.advance(slot, Reply::Handle(base + 2));
    registry.advance(slot, Reply::Status(1));
    registry.advance(slot, Reply::Status(1));
    registry.advance(slot, Reply::Handle(base + 3));
    registry.advance(slot, Reply::Status(1));
    registry.advance(slot, Reply::Done);
    registry.advance(slot, Reply::Done);
    assert_eq!(registry.advance(slot, Reply::Done), Step::Opened { pump: false });
}

#[test]
fn windows_open_in_successive_slots() {
    let mut registry = Registry::new();
    assert_eq!(registry.len(), 0);
    assert_eq!(registry.open(child(), &guid(1)), Ok(0));
    assert_eq!(registry.open(child(), &guid(2)), Ok(1));
    assert_eq!(registry.len(), 2);
    assert_eq!(registry.pending(0), Some(Request::RegisterClass { style: 0x20 }));
    assert_eq!(registry.pending(2), None);
    assert_eq!(registry.window(1).unwrap().class_name(), "Baseview-00000002-0000-0000-0000-000000000000\0");
    assert!(registry.window(2).is_none());
}

#[test]
fn concurrently_open_windows_have_distinct_class_names() {
    let mut registry = Registry::new();
    for n in 0..20u32 {
        assert_eq!(registry.open(child(), &guid(n)), Ok(n as usize));
    }
    for i in 0..20usize {
        for j in 0..i {
            assert_ne!(
                registry.window(i).unwrap().class_name(),
                registry.window(j).unwrap().class_name()
            );
        }
    }
}

#[test]
fn identifier_of_a_live_window_is_refused() {
    let mut registry = Registry::new();
    assert_eq!(registry.open(child(), &guid(7)), Ok(0));
    assert_eq!(registry.open(child(), &guid(7)), Err(OpenError::RegistrationFailed));
    assert_eq!(registry.len(), 1);
    assert_eq!(registry.window(0).unwrap().guid(), guid(7));
    assert_eq!(registry.pending(0), Some(Request::RegisterClass { style: 0x20 }));
}

#[test]
fn fresh_identifiers_are_never_refused() {
    let mut registry = Registry::new();
    let a = Guid { data1: 1, data2: 1, data3: 1, data4: [0x1, 0x23, 0, 0, 0, 0, 0, 0] };
    let b = Guid { data1: 1, data2: 1, data3: 1, data4: [0x12, 0x3, 0, 0, 0, 0, 0, 0] };
    let c = Guid { data1: 0x11, data2: 0, data3: 1, data4: [0x12, 0x3, 0, 0, 0, 0, 0, 0] };
    let d = Guid { data1: 0x1, data2: 0x10, data3: 1, data4: [0x12, 0x3, 0, 0, 0, 0, 0, 0] };
    assert_eq!(registry.open(child(), &a), Ok(0));
    assert_eq!(registry.open(child(), &b), Ok(1));
    assert_eq!(registry.open(child(), &c), Ok(2));
    assert_eq!(registry.open(child(), &d), Ok(3));
    assert_ne!(
        registry.window(0).unwrap().class_name(),
        registry.window(1).unwrap().class_name()
    );
    assert_eq!(registry.open(child(), &guid(7)), Ok(4));
    assert!(registry.is_name_taken(&String::from("Baseview-00000007-0000-0000-0000-000000000000\0")));
    assert!(!registry.is_name_taken(&String::from("Baseview-00000008-0000-0000-0000-000000000000\0")));
}

#[test]
fn class_name_is_free_again_once_its_window_is_closed() {
    let mut registry = Registry::new();
    assert_eq!(registry.open(child(), &guid(7)), Ok(0));
    drive(&mut registry, 0, 0x100);
    assert_eq!(registry.close(0).len(), 5);
    assert_eq!(registry.open(child(), &guid(7)), Ok(1));
    assert_eq!(registry.window(0).unwrap().stage(), Stage::Closed);
    assert_eq!(registry.window(1).unwrap().stage(), Stage::Registering);
}

#[test]
fn class_name_is_free_again_once_its_window_failed_to_open() {
    let mut registry = Registry::new();
    assert_eq!(registry.open(child(), &guid(7)), Ok(0));
    assert_eq!(
        registry.advance(0, Reply::Atom(0)),
        Step::Failed { error: OpenError::RegistrationFailed, releases: vec![] }
    );
    assert_eq!(registry.open(child(), &guid(7)), Ok(1));
}

#[test]
fn handle_is_owned_once_its_window_is_associated() {
    let mut registry = Registry::new();
    registry.open(child(), &guid(1)).unwrap();
    registry.open(child(), &guid(2)).unwrap();
    let motion = Message { kind: 0x0200, wparam: 1, lparam: 2 };

    registry.advance(1, Reply::Atom(5));
    registry.advance(1, Reply::Handle(0x201));
    registry.advance(1, Reply::Handle(0x202));
    registry.advance(1, Reply::Status(1));
    registry.advance(1, Reply::Status(1));
    registry.advance(1, Reply::Handle(0x203));
    registry.advance(1, Reply::Status(1));
    assert_eq!(
        registry.advance(1, Reply::Done),
        Step::Request(Request::Associate { hwnd: 0x201 })
    );
    assert_eq!(registry.owner(0x201), None);
    assert_eq!(registry.dispatch(0x201, motion), Dispatch::DefaultProcessing(motion));

    registry.advance(1, Reply::Done);
    assert_eq!(registry.owner(0x201), Some(1));
    assert_eq!(registry.dispatch(0x201, motion), Dispatch::Forward(motion));
    assert_eq!(registry.owner(0x999), None);
    assert_eq!(registry.dispatch(0x999, motion), Dispatch::DefaultProcessing(motion));

    drive(&mut registry, 0, 0x100);
    assert_eq!(registry.owner(0x101), Some(0));
    assert_eq!(registry.owner(0x201), Some(1));

    let create = Message { kind: 0x0001, wparam: 0, lparam: 0 };
    let show = Message { kind: 0x0018, wparam: 0, lparam: 0 };
    assert_eq!(registry.dispatch(0x555, create), Dispatch::Post { message: show, result: 0 });
}

#[test]
fn closed_window_owns_no_handle() {
    let mut registry = Registry::new();
    registry.open(child(), &guid(1)).unwrap();
    drive(&mut registry, 0, 0x100);
    assert_eq!(registry.owner(0x101), Some(0));
    assert_eq!(
        registry.close(0),
        vec![
            Release::ClearCurrent,
            Release::DeleteContext { context: 0x103 },
            Release::ReleaseSurface { hwnd: 0x101, hdc: 0x102 },
            Release::DestroyWindow { hwnd: 0x101 },
            Release::UnregisterClass { atom: 0x100 },
        ]
    );
    assert_eq!(registry.owner(0x101), None);
    assert_eq!(registry.close(0), vec![]);
    assert_eq!(registry.len(), 1);
}

#[test]
fn slot_that_does_not_exist_does_nothing() {
    let mut registry = Registry::new();
    let message = Message { kind: 0x0200, wparam: 0, lparam: 0 };
    assert_eq!(registry.advance(3, Reply::Atom(1)), Step::Idle);
    assert_eq!(registry.close(3), vec![]);
    assert_eq!(registry.draw_frame(3), None);
    assert_eq!(registry.pump_once(3, 1, message), PumpStep::Shutdown);
    registry.handle_mouse_motion(3, 1, 2);
    assert_eq!(registry.len(), 0);
}

#[test]
fn windows_keep_their_own_colour() {
    let mut registry = Registry::new();
    registry.open(child(), &guid(1)).unwrap();
    registry.open(child(), &guid(2)).unwrap();
    drive(&mut registry, 0, 0x100);
    drive(&mut registry, 1, 0x200);
    registry.handle_mouse_motion(1, 40, 50);
    assert_eq!(
        registry.draw_frame(0),
        Some([
            DrawCommand::ClearColor { r: 300, g: 800, b: 300, a: 1000 },
            DrawCommand::Clear { mask: 0x4000 },
            DrawCommand::SwapBuffers { hdc: 0x102 },
        ])
    );
    assert_eq!(
        registry.draw_frame(1),
        Some([
            DrawCommand::ClearColor { r: 40, g: 50, b: 300, a: 1000 },
            DrawCommand::Clear { mask: 0x4000 },
            DrawCommand::SwapBuffers { hdc: 0x202 },
        ])
    );
    let message = Message { kind: 0x0113, wparam: 4242, lparam: 0 };
    assert_eq!(registry.pump_once(1, 1, message), PumpStep::Deliver(message));
    assert_eq!(registry.pump_once(1, -1, message), PumpStep::Shutdown);
}
