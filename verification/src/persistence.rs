//! Camera configurations as they are stored: every field may be missing,
//! and modes are written as words. Reading a stored configuration checks it
//! and fills in what may be left out; writing one spells everything out.
//!
//! Turning stored configurations into bytes and back is the caller's part.

use vstd::prelude::*;
use crate::app_state::{
    default_audio,
    default_encoding,
    default_quality,
    text_of,
    AudioMode,
    CameraConfig,
    CameraConfigView,
    EncodingMode,
    QualityPreset,
};
use crate::camera_manager::config_views;
use crate::error::{SupervisorError, SupervisorErrorView};

verus! {

/// A camera configuration as it is stored. `id`, `name`, `rtsp_url` and
/// `enabled` have to be there; the modes may be left out.
#[derive(Debug, PartialEq, Eq)]
pub struct StoredCamera {
    pub id: Option<String>,
    pub name: Option<String>,
    pub rtsp_url: Option<String>,
    pub enabled: Option<bool>,
    pub encoding: Option<String>,
    pub quality: Option<String>,
    pub audio_mode: Option<String>,
}

/// A stored camera configuration as a mathematical value.
pub struct StoredCameraView {
    pub id: Option<Seq<char>>,
    pub name: Option<Seq<char>>,
    pub rtsp_url: Option<Seq<char>>,
    pub enabled: Option<bool>,
    pub encoding: Option<Seq<char>>,
    pub quality: Option<Seq<char>>,
    pub audio_mode: Option<Seq<char>>,
}

impl View for StoredCamera {
    type V = StoredCameraView;

    open spec fn view(&self) -> StoredCameraView {
        StoredCameraView {
            id: text_of(self.id),
            name: text_of(self.name),
            rtsp_url: text_of(self.rtsp_url),
            enabled: self.enabled,
            encoding: text_of(self.encoding),
            quality: text_of(self.quality),
            audio_mode: text_of(self.audio_mode),
        }
    }
}

/// What is said of a field that has to be there and is not.
pub open spec fn missing_field(field: Seq<char>) -> Seq<char> {
    "missing field `"@ + field + "`"@
}

/// What is said of a mode that is written as no known word.
pub open spec fn unknown_word(field: Seq<char>, word: Seq<char>) -> Seq<char> {
    "unknown variant `"@ + word + "` of field `"@ + field + "`"@
}

/// The encoding mode that a stored word stands for: the default where
/// none is stored.
pub open spec fn read_encoding(word: Option<Seq<char>>) -> Result<EncodingMode, Seq<char>> {
    match word {
        None => Ok(EncodingMode::Copy),
        Some(word) => match EncodingMode::parse_tag(word) {
            Some(mode) => Ok(mode),
            None => Err(unknown_word("encoding"@, word)),
        },
    }
}

/// The quality preset that a stored word stands for: the default where
/// none is stored.
pub open spec fn read_quality(word: Option<Seq<char>>) -> Result<QualityPreset, Seq<char>> {
    match word {
        None => Ok(QualityPreset::Medium),
        Some(word) => match QualityPreset::parse_tag(word) {
            Some(quality) => Ok(quality),
            None => Err(unknown_word("quality"@, word)),
        },
    }
}

/// The audio mode that a stored word stands for: the default where none is
/// stored.
pub open spec fn read_audio_mode(word: Option<Seq<char>>) -> Result<AudioMode, Seq<char>> {
    match word {
        None => Ok(AudioMode::Copy),
        Some(word) => match AudioMode::parse_tag(word) {
            Some(mode) => Ok(mode),
            None => Err(unknown_word("audioMode"@, word)),
        },
    }
}

/// The configuration that `stored` holds, or what is wrong with it: the
/// first field, in the order of the declaration, that is missing or
/// unreadable.
pub open spec fn read_camera(stored: StoredCameraView) -> Result<CameraConfigView, Seq<char>> {
    if stored.id is None {
        Err(missing_field("id"@))
    } else if stored.name is None {
        Err(missing_field("name"@))
    } else if stored.rtsp_url is None {
        Err(missing_field("rtspUrl"@))
    } else if stored.enabled is None {
        Err(missing_field("enabled"@))
    } else {
        match read_encoding(stored.encoding) {
            Err(cause) => Err(cause),
            Ok(encoding) => match read_quality(stored.quality) {
                Err(cause) => Err(cause),
                Ok(quality) => match read_audio_mode(stored.audio_mode) {
                    Err(cause) => Err(cause),
                    Ok(audio_mode) => Ok(
                        CameraConfigView {
                            id: stored.id->Some_0,
                            name: stored.name->Some_0,
                            rtsp_url: stored.rtsp_url->Some_0,
                            enabled: stored.enabled->Some_0,
                            encoding,
                            quality,
                            audio_mode,
                        },
                    ),
                },
            },
        }
    }
}

/// `config` as it is stored: with every field, the modes as words.
pub open spec fn written_camera(config: CameraConfigView) -> StoredCameraView {
    StoredCameraView {
        id: Some(config.id),
        name: Some(config.name),
        rtsp_url: Some(config.rtsp_url),
        enabled: Some(config.enabled),
        encoding: Some(config.encoding.tag_text()),
        quality: Some(config.quality.tag_text()),
        audio_mode: Some(config.audio_mode.tag_text()),
    }
}

/// The error for a field that has to be there and is not.
fn missing(field: &str) -> (error: SupervisorError)
    ensures
        error@ == (SupervisorErrorView::Persistence { cause: missing_field(field@) }),
{
    SupervisorError::Persistence {
        cause: String::from_str("missing field `").concat(field).concat("`"),
    }
}

/// The error for a mode that is written as no known word.
fn unknown(field: &str, word: &str) -> (error: SupervisorError)
    ensures
        error@ == (SupervisorErrorView::Persistence { cause: unknown_word(field@, word@) }),
{
    SupervisorError::Persistence {
        cause: String::from_str("unknown variant `").concat(word).concat("` of field `").concat(
            field,
        ).concat("`"),
    }
}

/// Reads a stored configuration: checks that what has to be there is
/// there, reads the modes from their words, and fills in the default for
/// each mode that is left out.
pub fn camera_from_stored(stored: &StoredCamera) -> (result: Result<CameraConfig, SupervisorError>)
    ensures
        match result {
            Ok(config) => read_camera(stored@) == Ok::<CameraConfigView, Seq<char>>(config@),
            Err(error) => read_camera(stored@) is Err && error@ == (
            SupervisorErrorView::Persistence { cause: read_camera(stored@)->Err_0 }),
        },
{
    let id = match &stored.id {
        Some(id) => id.clone(),
        None => {
            return Err(missing("id"));
        },
    };
    let name = match &stored.name {
        Some(name) => name.clone(),
        None => {
            return Err(missing("name"));
        },
    };
    let rtsp_url = match &stored.rtsp_url {
        Some(rtsp_url) => rtsp_url.clone(),
        None => {
            return Err(missing("rtspUrl"));
        },
    };
    let enabled = match stored.enabled {
        Some(enabled) => enabled,
        None => {
            return Err(missing("enabled"));
        },
    };
    let encoding = match &stored.encoding {
        None => default_encoding(),
        Some(word) => match EncodingMode::from_tag(word.as_str()) {
            Some(mode) => mode,
            None => {
                return Err(unknown("encoding", word.as_str()));
            },
        },
    };
    let quality = match &stored.quality {
        None => default_quality(),
        Some(word) => match QualityPreset::from_tag(word.as_str()) {
            Some(quality) => quality,
            None => {
                return Err(unknown("quality", word.as_str()));
            },
        },
    };
    let audio_mode = match &stored.audio_mode {
        None => default_audio(),
        Some(word) => match AudioMode::from_tag(word.as_str()) {
            Some(mode) => mode,
            None => {
                return Err(unknown("audioMode", word.as_str()));
            },
        },
    };
    Ok(CameraConfig { id, name, rtsp_url, enabled, encoding, quality, audio_mode })
}

/// Writes a configuration out for storing.
pub fn stored_from_camera(config: &CameraConfig) -> (stored: StoredCamera)
    ensures
        stored@ == written_camera(config@),
{
    StoredCamera {
        id: Some(config.id.clone()),
        name: Some(config.name.clone()),
        rtsp_url: Some(config.rtsp_url.clone()),
        enabled: Some(config.enabled),
        encoding: Some(String::from_str(config.encoding.tag())),
        quality: Some(String::from_str(config.quality.tag())),
        audio_mode: Some(String::from_str(config.audio_mode.tag())),
    }
}

/// The views of a list of stored configurations.
pub open spec fn stored_views(stored: Seq<StoredCamera>) -> Seq<StoredCameraView> {
    Seq::new(stored.len(), |i: int| stored[i]@)
}

/// The configurations that a stored list holds, or what is wrong with the
/// first entry that cannot be read.
pub open spec fn read_cameras(stored: Seq<StoredCameraView>) -> Result<
    Seq<CameraConfigView>,
    Seq<char>,
>
    decreases stored.len(),
{
    if stored.len() == 0 {
        Ok(Seq::empty())
    } else {
        match read_cameras(stored.drop_last()) {
            Err(cause) => Err(cause),
            Ok(configs) => match read_camera(stored.last()) {
                Err(cause) => Err(cause),
                Ok(config) => Ok(configs.push(config)),
            },
        }
    }
}

/// A list of configurations as it is stored.
pub open spec fn written_cameras(configs: Seq<CameraConfigView>) -> Seq<StoredCameraView> {
    Seq::new(configs.len(), |i: int| written_camera(configs[i]))
}

/// Reads a stored list of configurations, in order. The first entry that
/// cannot be read fails the whole list.
pub fn cameras_from_stored(stored: &Vec<StoredCamera>) -> (result: Result<
    Vec<CameraConfig>,
    SupervisorError,
>)
    ensures
        match result {
            Ok(configs) => read_cameras(stored_views(stored@)) == Ok::<
                Seq<CameraConfigView>,
                Seq<char>,
            >(config_views(configs@)),
            Err(error) => read_cameras(stored_views(stored@)) is Err && error@ == (
            SupervisorErrorView::Persistence { cause: read_cameras(stored_views(stored@))->Err_0 }),
        },
{
    let ghost all = stored_views(stored@);
    let mut configs: Vec<CameraConfig> = Vec::new();
    proof {
        assert(config_views(configs@) =~= Seq::<CameraConfigView>::empty());
        assert(all.take(0) =~= Seq::<StoredCameraView>::empty());
    }
    let mut k: usize = 0;
    while k < stored.len()
        invariant
            k <= stored.len(),
            all == stored_views(stored@),
            configs@.len() == k,
            read_cameras(all.take(k as int)) == Ok::<Seq<CameraConfigView>, Seq<char>>(
                config_views(configs@),
            ),
        decreases stored.len() - k,
    {
        let ghost before = config_views(configs@);
        proof {
            assert(all.take(k + 1).drop_last() =~= all.take(k as int));
            assert(all.take(k + 1).last() == stored@[k as int]@);
        }
        match camera_from_stored(&stored[k]) {
            Ok(config) => {
                configs.push(config);
                proof {
                    assert(config_views(configs@) =~= before.push(config@));
                }
            },
            Err(error) => {
                proof {
                    lemma_read_fails_on(all, k + 1);
                }
                return Err(error);
            },
        }
        k += 1;
    }
    proof {
        assert(all.take(stored@.len() as int) =~= all);
    }
    Ok(configs)
}

/// A list whose first `k` entries cannot be read cannot be read, and for
/// the same reason.
proof fn lemma_read_fails_on(stored: Seq<StoredCameraView>, k: int)
    requires
        0 <= k <= stored.len(),
        read_cameras(stored.take(k)) is Err,
    ensures
        read_cameras(stored) == read_cameras(stored.take(k)),
    decreases stored.len() - k,
{
    if k < stored.len() {
        assert(stored.take(k + 1).drop_last() =~= stored.take(k));
        lemma_read_fails_on(stored, k + 1);
    } else {
        assert(stored.take(k) =~= stored);
    }
}

/// Writes a list of configurations out for storing, in order.
pub fn stored_from_cameras(configs: &Vec<CameraConfig>) -> (stored: Vec<StoredCamera>)
    ensures
        stored_views(stored@) == written_cameras(config_views(configs@)),
{
    let mut stored: Vec<StoredCamera> = Vec::new();
    let mut i: usize = 0;
    while i < configs.len()
        invariant
            i <= configs.len(),
            stored@.len() == i,
            forall|j: int| 0 <= j < i ==> (#[trigger] stored@[j])@ == written_camera(configs@[j]@),
        decreases configs.len() - i,
    {
        stored.push(stored_from_camera(&configs[i]));
        i += 1;
    }
    assert(stored_views(stored@) =~= written_cameras(config_views(configs@)));
    stored
}

/// What was written out for storing reads back as it was.
pub proof fn law_stored_camera_round_trip(config: CameraConfigView)
    ensures
        read_camera(written_camera(config)) == Ok::<CameraConfigView, Seq<char>>(config),
{
    config.encoding.law_tag_round_trip();
    config.quality.law_tag_round_trip();
    config.audio_mode.law_tag_round_trip();
}

/// A list that was written out for storing reads back as it was, entry for
/// entry.
pub proof fn law_stored_cameras_round_trip(configs: Seq<CameraConfigView>)
    ensures
        read_cameras(written_cameras(configs)) == Ok::<Seq<CameraConfigView>, Seq<char>>(configs),
    decreases configs.len(),
{
    if configs.len() == 0 {
        assert(configs =~= Seq::<CameraConfigView>::empty());
    } else {
        law_stored_cameras_round_trip(configs.drop_last());
        law_stored_camera_round_trip(configs.last());
        assert(written_cameras(configs).drop_last() =~= written_cameras(configs.drop_last()));
        assert(written_cameras(configs).last() == written_camera(configs.last()));
        assert(configs.drop_last().push(configs.last()) =~= configs);
    }
}

/// A stored configuration that leaves the modes out reads as one with the
/// default modes, and that one, written out and read back, stays as it is.
pub proof fn law_defaults_are_filled_in(stored: StoredCameraView)
    requires
        stored.id is Some,
        stored.name is Some,
        stored.rtsp_url is Some,
        stored.enabled is Some,
        stored.encoding is None,
        stored.quality is None,
        stored.audio_mode is None,
    ensures
        read_camera(stored) matches Ok(config) && config.encoding == EncodingMode::Copy
            && config.quality == QualityPreset::Medium && config.audio_mode == AudioMode::Copy
            && read_camera(written_camera(config)) == Ok::<CameraConfigView, Seq<char>>(config),
{
    law_stored_camera_round_trip(read_camera(stored)->Ok_0);
}

} // verus!
