use safe_launcher::events::{AppDetail, AppId, ExternalEvent};
use safe_launcher::server::IpcServer;

fn app(b: u8) -> AppId {
    AppId { bytes: vec![b; 8] }
}

fn detail(b: u8, access: bool) -> ExternalEvent<()> {
    ExternalEvent::AppDetailReceived(Box::new(AppDetail { client: (), app_id: app(b), safe_drive_access: access }))
}

#[test]
fn sessions_get_increasing_ids_up_to_the_bound() {
    let mut server = IpcServer::new(2);
    assert_eq!(server.accept_session(), Some(0));
    assert_eq!(server.accept_session(), Some(1));
    assert_eq!(server.accept_session(), None);
    assert_eq!(server.live_sessions(), 2);
    assert!(server.close_session(0));
    assert!(!server.close_session(0));
    assert_eq!(server.accept_session(), Some(2));
}

#[test]
fn access_change_only_touches_the_named_app() {
    let mut server = IpcServer::new(8);
    let x = server.accept_session().unwrap();
    let y = server.accept_session().unwrap();
    assert!(server.handle_external(x, detail(1, true)).is_empty());
    assert!(server.handle_external(y, detail(2, true)).is_empty());
    assert!(server.handle_external(x, ExternalEvent::<()>::ChangeSafeDriveAccess(false)).is_empty());
    assert_eq!(server.safe_drive_access(x), Some(false));
    assert_eq!(server.safe_drive_access(y), Some(true));
}

#[test]
fn access_change_reaches_every_session_of_the_app() {
    let mut server = IpcServer::new(8);
    let a = server.accept_session().unwrap();
    let b = server.accept_session().unwrap();
    let c = server.accept_session().unwrap();
    server.record_app(a, app(1), false);
    server.record_app(b, app(1), false);
    server.record_app(c, app(3), false);
    server.change_safe_drive_access(&app(1), true);
    assert_eq!(server.safe_drive_access(a), Some(true));
    assert_eq!(server.safe_drive_access(b), Some(true));
    assert_eq!(server.safe_drive_access(c), Some(false));
}

#[test]
fn record_app_needs_a_live_session() {
    let mut server = IpcServer::new(8);
    assert!(!server.record_app(4, app(1), true));
    assert_eq!(server.safe_drive_access(4), None);
}

#[test]
fn terminate_twice_is_idempotent() {
    let mut server = IpcServer::new(8);
    server.accept_session();
    server.accept_session();
    assert_eq!(server.handle_external(0, ExternalEvent::<()>::Terminate), vec![0, 1]);
    assert!(!server.is_accepting());
    assert_eq!(server.live_sessions(), 0);
    assert_eq!(server.handle_external(0, ExternalEvent::<()>::Terminate), Vec::<u64>::new());
    assert!(!server.is_accepting());
    assert_eq!(server.live_sessions(), 0);
    assert_eq!(server.accept_session(), None);
}

#[test]
fn app_ids_compare_by_bytes() {
    assert!(app(1).same_as(&app(1)));
    assert!(!app(1).same_as(&app(2)));
    assert!(!app(1).same_as(&AppId { bytes: vec![1; 7] }));
    assert!(app(5).duplicate().same_as(&app(5)));
}

#[test]
fn app_detail_describes_without_client() {
    let d = AppDetail { client: (), app_id: AppId { bytes: vec![0x0a, 0xff, 0x10] }, safe_drive_access: true };
    assert_eq!(d.describe(), "AppDetail { client: Arc<Mutex<Client>>, app_id: 0aff10, safe_drive_access: true, }");
    let d = AppDetail { client: (), app_id: AppId { bytes: vec![] }, safe_drive_access: false };
    assert_eq!(d.describe(), "AppDetail { client: Arc<Mutex<Client>>, app_id: , safe_drive_access: false, }");
}

#[test]
fn hex_text_of_bytes() {
    assert_eq!(safe_launcher::text::to_hex(&[0x00, 0x9c, 0xe1]), "009ce1");
    assert_eq!(safe_launcher::text::to_hex(&[]), "");
}
