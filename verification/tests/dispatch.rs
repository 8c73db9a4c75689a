use baseview::class::Guid;
use baseview::message::{route, Dispatch, Message};
use baseview::options::{Parent, WindowOpenOptions};
use baseview::protocol::Reply;
use baseview::render::{Color, DrawCommand};
use baseview::window::Window;

fn child_options() -> WindowOpenOptions {
    WindowOpenOptions {
        title: String::from("child"),
        width: 320,
        height: 200,
        parent: Parent::WithParent(0xAA),
    }
}

fn some_guid() -> Guid {
    Guid { data1: 0xDEAD, data2: 0xBE, data3: 0xEF, data4: [1, 2, 3, 4, 5, 6, 7, 8] }
}

fn up_to_association() -> Window {
    let mut window = Window::open(child_options(), &some_guid());
    window.advance(Reply::Atom(9));
    window.advance(Reply::Handle(0x1000));
    window.advance(Reply::Handle(0x2000));
    window.advance(Reply::Status(7));
    window.advance(Reply::Status(1));
    window.advance(Reply::Handle(0x3000));
    window.advance(Reply::Status(1));
    window.advance(Reply::Done);
    window
}

#[test]
fn creation_message_posts_a_show_request() {
    let create = Message { kind: 0x0001, wparam: 7, lparam: 9 };
    let show = Message { kind: 0x0018, wparam: 0, lparam: 0 };
    assert_eq!(route(false, create), Dispatch::Post { message: show, result: 0 });
    assert_eq!(route(true, create), Dispatch::Post { message: show, result: 0 });
}

#[test]
fn message_before_association_gets_default_processing() {
    let window = up_to_association();
    let motion = Message { kind: 0x0200, wparam: 3, lparam: 0x0010_0020 };
    assert!(!window.is_associated());
    assert_eq!(window.dispatch(motion), Dispatch::DefaultProcessing(motion));
}

#[test]
fn message_after_association_is_forwarded_unchanged() {
    let mut window = up_to_association();
    let motion = Message { kind: 0x0200, wparam: 3, lparam: 0x0010_0020 };
    window.advance(Reply::Done);
    assert!(window.is_associated());
    assert_eq!(window.dispatch(motion), Dispatch::Forward(motion));
    window.advance(Reply::Done);
    assert_eq!(window.dispatch(motion), Dispatch::Forward(motion));
    let timer = Message { kind: 0x0113, wparam: 4242, lparam: -1 };
    assert_eq!(window.dispatch(timer), Dispatch::Forward(timer));
}

#[test]
fn closed_window_no_longer_receives_messages() {
    let mut window = up_to_association();
    window.advance(Reply::Done);
    window.advance(Reply::Done);
    window.close();
    let motion = Message { kind: 0x0200, wparam: 0, lparam: 0 };
    assert_eq!(window.dispatch(motion), Dispatch::DefaultProcessing(motion));
}

#[test]
fn new_window_clears_to_its_initial_colour() {
    let window = Window::open(child_options(), &some_guid());
    assert_eq!(window.color(), Color { r: 300, g: 800, b: 300 });
    assert_eq!(
        window.draw_frame(),
        [
            DrawCommand::ClearColor { r: 300, g: 800, b: 300, a: 1000 },
            DrawCommand::Clear { mask: 0x4000 },
            DrawCommand::SwapBuffers { hdc: 0 },
        ]
    );
    assert_eq!(window.color().r as f32 / 1000.0, 0.3f32);
    assert_eq!(window.color().g as f32 / 1000.0, 0.8f32);
    assert_eq!(window.color().b as f32 / 1000.0, 0.3f32);
}

#[test]
fn mouse_motion_sets_red_and_green_and_keeps_blue() {
    let mut window = up_to_association();
    window.handle_mouse_motion(250, 750);
    let frame = window.draw_frame();
    assert_eq!(
        frame,
        [
            DrawCommand::ClearColor { r: 250, g: 750, b: 300, a: 1000 },
            DrawCommand::Clear { mask: 0x4000 },
            DrawCommand::SwapBuffers { hdc: 0x2000 },
        ]
    );
    match frame[0] {
        DrawCommand::ClearColor { r, g, b, a } => {
            assert_eq!(r as f32 / 1000.0, 250 as f32 / 1000.0);
            assert_eq!(r as f32 / 1000.0, 0.25f32);
            assert_eq!(g as f32 / 1000.0, 0.75f32);
            assert_eq!(b as f32 / 1000.0, 0.3f32);
            assert_eq!(a as f32 / 1000.0, 1.0f32);
        }
        _ => panic!("a frame starts by setting the clear colour"),
    }
}

#[test]
fn mouse_motion_is_not_clamped() {
    let mut window = up_to_association();
    window.handle_mouse_motion(-5, 4000);
    assert_eq!(window.color(), Color { r: -5, g: 4000, b: 300 });
    window.handle_mouse_motion(i32::MAX, i32::MIN);
    assert_eq!(window.color(), Color { r: i32::MAX, g: i32::MIN, b: 300 });
}

#[test]
fn mouse_motion_depends_on_the_last_position_only() {
    let mut once = up_to_association();
    once.handle_mouse_motion(10, 20);
    let mut twice = up_to_association();
    twice.handle_mouse_motion(999, 1);
    twice.handle_mouse_motion(10, 20);
    assert_eq!(once.draw_frame(), twice.draw_frame());
}
