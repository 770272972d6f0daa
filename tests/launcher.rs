use safe_launcher::events::ExternalEvent;
use safe_launcher::launcher::{created_or_present, ensure_sub_directory, has_sub_directory, AppHandlerEvent, Launcher, SAFE_DRIVE_DIR_NAME};
use std::sync::mpsc::channel;

fn random_name(len: usize, seed: u64) -> String {
    let mut x = seed.wrapping_mul(6364136223846793005).wrapping_add(1442695040888963407);
    (0..len)
        .map(|_| {
            x = x.wrapping_mul(6364136223846793005).wrapping_add(1442695040888963407);
            (b'a' + ((x >> 33) % 26) as u8) as char
        })
        .collect()
}

#[test]
fn initialise_safe_drive_dir() {
    let keyword = random_name(10, 1);
    let pin = random_name(10, 2);
    let password = random_name(10, 3);
    let mut user_root_directory = vec![keyword, pin, password];
    let safe_drive_directory_name = SAFE_DRIVE_DIR_NAME.to_string();
    // the root directory should not hold the drive folder yet
    assert!(!has_sub_directory(&user_root_directory, &safe_drive_directory_name));
    assert!(ensure_sub_directory(&mut user_root_directory, &safe_drive_directory_name));
    // now it should
    assert!(has_sub_directory(&user_root_directory, &safe_drive_directory_name));
}

#[test]
fn ensuring_the_drive_twice_leaves_one_folder() {
    let name = SAFE_DRIVE_DIR_NAME.to_string();
    let mut root = vec!["Documents".to_string()];
    assert!(ensure_sub_directory(&mut root, &name));
    assert!(!ensure_sub_directory(&mut root, &name));
    assert_eq!(root.iter().filter(|n| **n == name).count(), 1);
    assert_eq!(root.len(), 2);
}

#[test]
fn stop_signals_both_subsystems_once() {
    let (ipc_tx, ipc_rx) = channel::<ExternalEvent<()>>();
    let (app_tx, app_rx) = channel::<AppHandlerEvent>();
    let mut launcher = Launcher::new(ipc_tx, app_tx);
    assert!(!launcher.stopped());
    launcher.get_ipc_event_sender().send(ExternalEvent::ChangeSafeDriveAccess(true)).unwrap();
    launcher.get_app_handler_event_sender().send(AppHandlerEvent::Terminate).unwrap();
    assert!(launcher.stop());
    assert!(launcher.stopped());
    assert!(!launcher.stop());
    let ipc: Vec<_> = ipc_rx.try_iter().collect();
    assert_eq!(ipc.len(), 2);
    assert!(matches!(ipc[0], ExternalEvent::ChangeSafeDriveAccess(true)));
    assert!(matches!(ipc[1], ExternalEvent::Terminate));
    assert_eq!(app_rx.try_iter().collect::<Vec<_>>(), vec![AppHandlerEvent::Terminate, AppHandlerEvent::Terminate]);
}

#[test]
fn stop_tolerates_gone_receivers() {
    let (ipc_tx, ipc_rx) = channel::<ExternalEvent<()>>();
    let (app_tx, app_rx) = channel::<AppHandlerEvent>();
    drop(ipc_rx);
    drop(app_rx);
    let mut launcher = Launcher::new(ipc_tx, app_tx);
    assert!(launcher.stop());
    assert!(launcher.stopped());
}

#[test]
fn stop_signals_are_owed_once() {
    let (ipc_tx, _ipc_rx) = channel::<ExternalEvent<()>>();
    let (app_tx, _app_rx) = channel::<AppHandlerEvent>();
    let mut launcher = Launcher::new(ipc_tx, app_tx);
    match launcher.take_stop_signals() {
        Some((ExternalEvent::Terminate, AppHandlerEvent::Terminate)) => {},
        _ => panic!("both terminate signals are owed"),
    }
    assert!(launcher.stopped());
    assert!(launcher.take_stop_signals().is_none());
    assert!(!launcher.stop());
}

#[test]
fn stop_sends_terminate_to_both_in_order() {
    let (ipc_tx, ipc_rx) = channel::<ExternalEvent<()>>();
    let (app_tx, app_rx) = channel::<AppHandlerEvent>();
    drop(ipc_rx);
    let mut launcher = Launcher::new(ipc_tx, app_tx);
    assert!(launcher.stop());
    // the registry is signalled although the server's receiver is gone
    assert_eq!(app_rx.try_iter().collect::<Vec<_>>(), vec![AppHandlerEvent::Terminate]);
}

#[test]
fn failed_create_is_tolerated_when_folder_appeared() {
    let name = SAFE_DRIVE_DIR_NAME.to_string();
    let after = vec!["Documents".to_string(), name.clone()];
    assert_eq!(created_or_present(Err::<(), u8>(7), &after, &name), Ok(()));
    let without = vec!["Documents".to_string()];
    assert_eq!(created_or_present(Err::<(), u8>(7), &without, &name), Err(7));
    assert_eq!(created_or_present(Ok::<(), u8>(()), &without, &name), Ok(()));
}
