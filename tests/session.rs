use skiter::bridge::LoadResult;
use skiter::message::{KeyEvents, Message, MouseEvents, PaintLayer, Point, WireMessage};
use skiter::options::GfxLayer;
use skiter::session::{Session, SessionError, SessionState, WindowRegistry};

fn active() -> Session {
    let (mut s, _) = Session::create(&mut WindowRegistry::new(), 42, GfxLayer::Cpu, false).unwrap();
    s.attach().unwrap();
    s
}

#[test]
fn null_handle_is_refused() {
    assert_eq!(
        Session::create(&mut WindowRegistry::new(), 0, GfxLayer::Auto, false).err(),
        Some(SessionError::InvalidHandle)
    );
}

#[test]
fn create_then_attach_once() {
    let (mut s, w) = Session::create(&mut WindowRegistry::new(), 7, GfxLayer::SkiaCpu, true).unwrap();
    assert_eq!(w, WireMessage::Create { backend: 4, transparent: true });
    assert_eq!(s.state(), SessionState::Created);
    assert_eq!(s.handle(), 7);
    assert_eq!(s.dispatch(&Message::redraw()), Err(SessionError::NotAttached));
    assert_eq!(s.attach(), Ok(()));
    assert_eq!(s.state(), SessionState::Active);
    assert_eq!(s.attach(), Err(SessionError::AlreadyAttached));
}

#[test]
fn size_then_mouse_down_scenario() {
    let (mut s, _) = Session::create(&mut WindowRegistry::new(), 1, GfxLayer::SkiaOpenGl, false).unwrap();
    s.attach().unwrap();
    assert_eq!(
        s.dispatch(&Message::size(800, 600)),
        Ok(WireMessage::Size { width: 800, height: 600 })
    );
    assert_eq!(
        s.dispatch(&Message::mouse(MouseEvents::MouseDown, 1, 0, Point::new(10, 10))),
        Ok(WireMessage::Mouse { event: 4, button: 1, modifiers: 0, x: 10, y: 10 })
    );
}

#[test]
fn every_message_after_destroy_is_refused() {
    let all = vec![
        Message::create(GfxLayer::Cpu, false),
        Message::destroy(),
        Message::size(1, 1),
        Message::resolution(96),
        Message::focus(true),
        Message::heartbit(5),
        Message::redraw(),
        Message::paint(PaintLayer::new(3, true)),
        Message::mouse(MouseEvents::MouseMove, 0, 0, Point::new(0, 0)),
        Message::keyboard(KeyEvents::KeyDown, 13, 0),
    ];
    for m in all.iter() {
        let mut s = active();
        assert_eq!(s.dispatch(&Message::destroy()), Ok(WireMessage::Destroy));
        assert_eq!(s.state(), SessionState::Destroyed);
        assert_eq!(s.dispatch(m), Err(SessionError::UsedAfterDestroy));
        assert_eq!(s.state(), SessionState::Destroyed);
    }
}

#[test]
fn invalid_button_is_refused() {
    let mut s = active();
    assert_eq!(
        s.dispatch(&Message::mouse(MouseEvents::MouseDown, 9, 0, Point::new(0, 0))),
        Err(SessionError::InvalidMessage)
    );
    assert_eq!(s.state(), SessionState::Active);
}

#[test]
fn deferred_load_completes_once() {
    let mut s = active();
    assert_eq!(s.record_load(5, Some(LoadResult::Delayed)), Ok(()));
    assert!(s.is_pending(5));
    assert_eq!(s.complete(5, &[1, -1, 0]), Ok(vec![1u8, 255, 0]));
    assert!(!s.is_pending(5));
    assert_eq!(s.complete(5, &[1]), Err(SessionError::UnknownRequest { request_id: 5 }));
    assert!(!s.is_pending(5));
}

#[test]
fn unknown_completion_is_refused() {
    let mut s = active();
    assert_eq!(s.complete(9, &[]), Err(SessionError::UnknownRequest { request_id: 9 }));
}

#[test]
fn only_delayed_loads_are_tracked() {
    let mut s = active();
    assert_eq!(s.record_load(1, Some(LoadResult::Default)), Ok(()));
    assert_eq!(s.record_load(2, None), Ok(()));
    assert!(!s.is_pending(1));
    assert!(!s.is_pending(2));
    assert_eq!(s.record_load(3, Some(LoadResult::Delayed)), Ok(()));
    assert_eq!(
        s.record_load(3, Some(LoadResult::Delayed)),
        Err(SessionError::DuplicateRequest { request_id: 3 })
    );
}

#[test]
fn destroy_drops_deferred_loads() {
    let mut s = active();
    s.record_load(8, Some(LoadResult::Delayed)).unwrap();
    s.dispatch(&Message::destroy()).unwrap();
    assert!(!s.is_pending(8));
    assert_eq!(
        s.record_load(8, Some(LoadResult::Delayed)),
        Err(SessionError::UsedAfterDestroy)
    );
    assert_eq!(s.attach(), Err(SessionError::UsedAfterDestroy));
}

#[test]
fn one_session_per_window() {
    let mut windows = WindowRegistry::new();
    let (mut s, _) = Session::create(&mut windows, 5, GfxLayer::Cpu, false).unwrap();
    assert!(windows.is_live(5));
    assert_eq!(
        Session::create(&mut windows, 5, GfxLayer::Auto, true).err(),
        Some(SessionError::AlreadyAttached)
    );
    assert!(windows.is_live(5));
    assert!(Session::create(&mut windows, 6, GfxLayer::Cpu, false).is_ok());
    assert_eq!(windows.release(&s), Err(SessionError::NotDestroyed));
    s.attach().unwrap();
    s.dispatch(&Message::destroy()).unwrap();
    assert_eq!(windows.release(&s), Ok(()));
    assert!(!windows.is_live(5));
    assert!(Session::create(&mut windows, 5, GfxLayer::Cpu, false).is_ok());
}

#[test]
fn null_handle_leaves_the_registry_alone() {
    let mut windows = WindowRegistry::new();
    assert_eq!(
        Session::create(&mut windows, 0, GfxLayer::Cpu, false).err(),
        Some(SessionError::InvalidHandle)
    );
    assert!(!windows.is_live(0));
}
