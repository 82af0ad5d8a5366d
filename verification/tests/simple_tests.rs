use oatmeal_audio::backend::check_permission;
use oatmeal_audio::records::{FolderRecord, SessionRecord};
use oatmeal_audio::simple::SimpleAudioCapture;

#[test]
fn simple_capture_tracks_its_flag() {
    let mut cap = SimpleAudioCapture::new();
    assert!(!cap.is_capturing());
    assert!(cap.start_capture().is_ok());
    assert!(cap.is_capturing());
    assert!(cap.start_capture().is_ok());
    assert!(cap.is_capturing());
    assert!(cap.stop_capture().is_ok());
    assert!(!cap.is_capturing());
    assert!(cap.stop_capture().is_ok());
    assert!(!cap.is_capturing());
}

#[test]
fn backend_permission_is_unavailable_without_a_backend() {
    assert_eq!(check_permission(), Ok(false));
}

#[test]
fn records_round_trip_their_fields() {
    let session = SessionRecord {
        id: String::from("s-1"),
        title: String::from("standup"),
        date: String::from("2024-05-01"),
        duration: 900,
        transcript: Some(String::from("hello")),
        summary: None,
        artifacts: None,
        folder_id: Some(String::from("f-1")),
        created_at: String::from("2024-05-01T09:00:00Z"),
        updated_at: String::from("2024-05-01T09:15:00Z"),
    };
    assert_eq!(session.duration, 900);
    assert_eq!(session.transcript.as_deref(), Some("hello"));
    assert!(session.summary.is_none());
    let folder = FolderRecord {
        id: String::from("f-1"),
        name: String::from("meetings"),
        created_at: String::from("2024-05-01T08:00:00Z"),
        updated_at: String::from("2024-05-01T08:00:00Z"),
    };
    assert_eq!(folder.name, "meetings");
    assert_eq!(session.folder_id.as_deref(), Some(folder.id.as_str()));
}
