use stream_agent::app_state::{AudioMode, CameraConfig, EncodingMode, QualityPreset};
use stream_agent::error::SupervisorError;
use stream_agent::persistence::{
    camera_from_stored, cameras_from_stored, stored_from_camera, stored_from_cameras, StoredCamera,
};

fn config(id: &str, encoding: EncodingMode, quality: QualityPreset, audio_mode: AudioMode) -> CameraConfig {
    CameraConfig {
        id: id.to_string(),
        name: format!("Camera {}", id),
        rtsp_url: format!("rtsp://10.0.0.1/{}", id),
        enabled: id.len() % 2 == 0,
        encoding,
        quality,
        audio_mode,
    }
}

fn bare(id: &str) -> StoredCamera {
    StoredCamera {
        id: Some(id.to_string()),
        name: Some("Yard".to_string()),
        rtsp_url: Some("rtsp://yard".to_string()),
        enabled: Some(true),
        encoding: None,
        quality: None,
        audio_mode: None,
    }
}

fn refused(cause: &str) -> Result<CameraConfig, SupervisorError> {
    Err(SupervisorError::Persistence { cause: cause.to_string() })
}

#[test]
fn a_configuration_is_stored_with_words_for_its_modes() {
    let stored = stored_from_camera(&config(
        "a",
        EncodingMode::Transcode,
        QualityPreset::High,
        AudioMode::Disabled,
    ));
    assert_eq!(
        stored,
        StoredCamera {
            id: Some("a".to_string()),
            name: Some("Camera a".to_string()),
            rtsp_url: Some("rtsp://10.0.0.1/a".to_string()),
            enabled: Some(false),
            encoding: Some("transcode".to_string()),
            quality: Some("high".to_string()),
            audio_mode: Some("disabled".to_string()),
        }
    );
}

#[test]
fn every_configuration_reads_back_as_it_was() {
    let mut configs = Vec::new();
    let mut n = 0;
    for encoding in [EncodingMode::Copy, EncodingMode::Transcode] {
        for quality in [QualityPreset::Low, QualityPreset::Medium, QualityPreset::High] {
            for audio_mode in [AudioMode::Disabled, AudioMode::Copy, AudioMode::Transcode] {
                n += 1;
                let one = config(&"x".repeat(n), encoding, quality, audio_mode);
                assert_eq!(camera_from_stored(&stored_from_camera(&one)), Ok(one.clone()));
                configs.push(one);
            }
        }
    }
    assert_eq!(configs.len(), 18);
    assert_eq!(cameras_from_stored(&stored_from_cameras(&configs)), Ok(configs));
    assert_eq!(cameras_from_stored(&stored_from_cameras(&Vec::new())), Ok(Vec::new()));
}

#[test]
fn modes_that_are_left_out_get_their_defaults() {
    let read = camera_from_stored(&bare("yard")).unwrap();
    assert_eq!(
        read,
        CameraConfig {
            id: "yard".to_string(),
            name: "Yard".to_string(),
            rtsp_url: "rtsp://yard".to_string(),
            enabled: true,
            encoding: EncodingMode::Copy,
            quality: QualityPreset::Medium,
            audio_mode: AudioMode::Copy,
        }
    );
    assert_eq!(camera_from_stored(&stored_from_camera(&read)), Ok(read));
}

#[test]
fn a_missing_field_is_named() {
    let mut stored = bare("a");
    stored.enabled = None;
    assert_eq!(camera_from_stored(&stored), refused("missing field `enabled`"));
    stored.rtsp_url = None;
    assert_eq!(camera_from_stored(&stored), refused("missing field `rtspUrl`"));
    stored.name = None;
    assert_eq!(camera_from_stored(&stored), refused("missing field `name`"));
    stored.id = None;
    assert_eq!(camera_from_stored(&stored), refused("missing field `id`"));
}

#[test]
fn an_unknown_word_is_named() {
    let mut stored = bare("a");
    stored.audio_mode = Some("loud".to_string());
    assert_eq!(
        camera_from_stored(&stored),
        refused("unknown variant `loud` of field `audioMode`")
    );
    stored.quality = Some("Medium".to_string());
    assert_eq!(
        camera_from_stored(&stored),
        refused("unknown variant `Medium` of field `quality`")
    );
    stored.encoding = Some("".to_string());
    assert_eq!(camera_from_stored(&stored), refused("unknown variant `` of field `encoding`"));
}

#[test]
fn the_first_unreadable_entry_fails_the_list() {
    let mut second = bare("b");
    second.quality = Some("ultra".to_string());
    let mut third = bare("c");
    third.id = None;
    let stored = vec![bare("a"), second, third];
    assert_eq!(
        cameras_from_stored(&stored),
        Err(SupervisorError::Persistence {
            cause: "unknown variant `ultra` of field `quality`".to_string()
        })
    );
    let good = vec![bare("a"), bare("b")];
    let read = cameras_from_stored(&good).unwrap();
    assert_eq!(read.len(), 2);
    assert_eq!(read[0].id, "a");
    assert_eq!(read[1].id, "b");
}
