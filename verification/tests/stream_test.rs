use std::sync::{Arc, Mutex};
use std::time::Duration;

use active_call::media::stream::{MediaStream, RegistryAction, RegistryCommand};
use active_call::media::track::TrackConfig;

#[test]
fn test_update_and_remove_track() {
    let mut ms = MediaStream::new();
    let a = "a".to_string();
    let b = "b".to_string();
    assert!(!ms.contains_track(&a));
    ms.update_track(a.clone(), TrackConfig::default());
    ms.update_track(b.clone(), TrackConfig::default());
    assert!(ms.contains_track(&a));
    assert!(ms.contains_track(&b));
    assert_eq!(ms.tracks.len(), 2);
    // Replacing does not duplicate.
    ms.update_track(a.clone(), TrackConfig::default());
    assert_eq!(ms.tracks.len(), 2);
    assert!(ms.remove_track(&a));
    assert!(!ms.contains_track(&a));
    assert!(!ms.remove_track(&a));
    assert!(ms.contains_track(&b));
}

#[test]
fn test_handle_command_delegates_outside_lock() {
    let mut ms = MediaStream::new();
    let id = "test-track".to_string();
    let actions = ms.handle_command(RegistryCommand::UpdateTrack {
        id: id.clone(),
        config: TrackConfig::default(),
    });
    assert_eq!(actions.len(), 1);
    assert!(matches!(&actions[0], RegistryAction::EmitTrackAdded { id: a } if *a == id));

    // A renegotiation command only locates the track; the delegation is
    // handed back to be run after the lock is released.
    let actions = ms.handle_command(RegistryCommand::UpdateRemoteDescription {
        id: id.clone(),
        answer: "sdp".to_string(),
    });
    assert_eq!(actions.len(), 1);
    assert!(matches!(
        &actions[0],
        RegistryAction::DelegateRemoteDescription { id: a, answer } if *a == id && answer == "sdp"
    ));

    // An unknown track yields no delegation.
    let actions = ms.handle_command(RegistryCommand::UpdateRemoteDescription {
        id: "missing".to_string(),
        answer: "sdp".to_string(),
    });
    assert!(actions.is_empty());

    let actions = ms.handle_command(RegistryCommand::RemoveTrack { id: id.clone() });
    assert_eq!(actions.len(), 1);
    assert!(matches!(&actions[0], RegistryAction::EmitTrackRemoved { id: a } if *a == id));
}

/// Run a renegotiation the way the asynchronous shell does: take the
/// lock only for the command, release it, then perform the returned
/// delegations.  The mock track's delegation calls straight back into
/// the registry, as in the re-entrancy repro.
fn drive_remote_description(
    ms: &Arc<Mutex<MediaStream>>,
    id: &str,
    answer: &str,
    depth: usize,
) -> std::pin::Pin<Box<dyn std::future::Future<Output = ()> + Send>> {
    let ms = ms.clone();
    let id = id.to_string();
    let answer = answer.to_string();
    Box::pin(async move {
        let actions = {
            let mut guard = ms.lock().unwrap();
            guard.handle_command(RegistryCommand::UpdateRemoteDescription {
                id: id.clone(),
                answer,
            })
        };
        for action in actions {
            if let RegistryAction::DelegateRemoteDescription { id, .. } = action {
                // The track holds a back-reference to the registry and
                // re-enters it from its own renegotiation.
                if depth < 1 {
                    drive_remote_description(&ms, &id, "recursive", depth + 1).await;
                }
            }
        }
    })
}

#[test]
fn test_tracks_lock_deadlock() {
    let rt = tokio::runtime::Builder::new_multi_thread()
        .worker_threads(2)
        .enable_time()
        .build()
        .unwrap();
    rt.block_on(async {
        let ms = Arc::new(Mutex::new(MediaStream::new()));
        {
            let mut guard = ms.lock().unwrap();
            let _ = guard.handle_command(RegistryCommand::UpdateTrack {
                id: "test-track".to_string(),
                config: TrackConfig::default(),
            });
        }

        let ms_clone = ms.clone();
        let handle =
            tokio::spawn(
                async move { drive_remote_description(&ms_clone, "test-track", "sdp", 0).await },
            );

        match tokio::time::timeout(Duration::from_secs(1), handle).await {
            Ok(_) => println!("Successfully completed (no deadlock)"),
            Err(_) => {
                println!("DEADLOCK DETECTED");
                panic!("Deadlock detected in MediaStream::tracks recursive locking");
            }
        }
    });
}
