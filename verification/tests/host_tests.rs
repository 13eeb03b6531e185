use dispatch_bridge::bridge::{
    create_event_loop, Request, Resolution, SubmitError, SurfaceDesc, WorkOutput,
};
use dispatch_bridge::host::{HandleTable, HostState, PROCESS_DEVICE_ID};
use dispatch_bridge::session::{CompileOutcome, EntryOutcome, Phase, Session};

#[test]
fn handle_table_insert_get_remove() {
    let mut t = HandleTable::new();
    assert_eq!(t.len(), 0);
    let a = t.insert(100);
    let b = t.insert(200);
    assert_ne!(a, b);
    assert_eq!(t.len(), 2);
    assert_eq!(t.get(a), Some(100));
    assert_eq!(t.get(b), Some(200));
    assert_eq!(t.get(999), None);
    assert_eq!(t.remove(a), Some(100));
    assert_eq!(t.get(a), None);
    assert_eq!(t.remove(a), None);
    assert_eq!(t.len(), 1);
    // Handles are never reused after removal.
    let c = t.insert(300);
    assert_ne!(c, a);
    assert_ne!(c, b);
    assert_eq!(t.get(c), Some(300));
}

#[test]
fn shared_device_handle_is_identical_across_accesses() {
    let (_exec, proxy) = create_event_loop(1);
    let mut host = HostState::new(proxy);
    let first = host.instance();
    // Mutate the surface between accesses: the device handle is untouched.
    let h = host.table().insert(5);
    let again = host.instance();
    assert_eq!(first, again);
    assert_eq!(first.device_id, PROCESS_DEVICE_ID);
    assert!(first.all_backends);
    host.table().remove(h);
    assert_eq!(host.instance(), first);
}

#[test]
fn surface_context_and_spawner() {
    let (mut exec, proxy) = create_event_loop(9);
    let host = HostState::new(proxy);
    assert!(host.ctx().inherit_stdio);
    let spawner = host.ui_thread_spawner();
    // Every spawner handed out targets the one main-thread executor.
    assert_eq!(spawner.0.target, 9);
    let t = spawner.spawn(&mut exec, 77).unwrap();
    let req = exec.begin_service().unwrap();
    assert_eq!(req, Request::RunTask(77));
    exec.finish_service(WorkOutput::Value(1));
    assert_eq!(
        exec.poll_resolution(t).unwrap().resolution,
        Resolution::Executed(WorkOutput::Value(1))
    );
}

#[test]
fn create_canvas_after_shutdown_fails_with_channel_closed() {
    let (mut exec, proxy) = create_event_loop(1);
    let host = HostState::new(proxy);
    exec.shutdown();
    let desc = SurfaceDesc { width: 640, height: 480 };
    assert_eq!(host.create_canvas(&mut exec, desc), Err(SubmitError::ChannelClosed));
}

#[test]
fn end_to_end_single_window_creation() {
    // A component whose entry point performs exactly one window creation
    // and then returns success.
    let mut session = Session::new();
    session.note_compile(CompileOutcome::Success);
    session.note_link(true);
    session.note_instantiate(true);
    assert!(session.may_enter_loop());

    // (1) The main loop is entered; the worker thread starts the entry point.
    let (mut exec, proxy) = create_event_loop(1);
    let host = HostState::new(proxy);
    session.begin_run();

    // (2) The worker's window-creation call suspends: submitted, unresolved.
    let desc = SurfaceDesc { width: 800, height: 600 };
    let ticket = host.create_canvas(&mut exec, desc).unwrap();
    assert_eq!(exec.poll_resolution(ticket), None);

    // (3) The main loop services it exactly once.
    let req = exec.begin_service().unwrap();
    assert_eq!(req, Request::CreateWindow(desc));
    exec.finish_service(WorkOutput::Window(17));
    let d = exec.poll_resolution(ticket).unwrap();
    assert_eq!(d.resolution, Resolution::Executed(WorkOutput::Window(17)));
    assert_eq!(exec.deliveries.len(), 1);
    assert_eq!(exec.begin_service(), None);

    // (4) The entry point returns success.
    session.note_entry_result(EntryOutcome::Success);
    assert_eq!(session.phase, Phase::Completed);

    // (5) The main loop keeps running: the executor is still open and
    // accepts further work after the component has finished.
    assert!(exec.open);
    assert!(exec.submit(Request::RunTask(0)).is_ok());
}
