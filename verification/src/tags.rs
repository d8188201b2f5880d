//! The names under which modes and states are written down: fixed lower-case
//! words, one for each value, read back to the value they were written for.

use vstd::prelude::*;
use crate::app_state::{AudioMode, EncodingMode, ProcessStatus, QualityPreset};
use crate::text::same_text;

verus! {

impl EncodingMode {
    /// The word for this mode.
    pub open spec fn tag_text(self) -> Seq<char> {
        match self {
            EncodingMode::Copy => "copy"@,
            EncodingMode::Transcode => "transcode"@,
        }
    }

    /// The mode that `tag` is the word for.
    pub open spec fn parse_tag(tag: Seq<char>) -> Option<EncodingMode> {
        if tag == "copy"@ {
            Some(EncodingMode::Copy)
        } else if tag == "transcode"@ {
            Some(EncodingMode::Transcode)
        } else {
            None
        }
    }

    /// The word for this mode.
    pub fn tag(&self) -> (tag: &'static str)
        ensures
            tag@ == self.tag_text(),
    {
        match self {
            EncodingMode::Copy => "copy",
            EncodingMode::Transcode => "transcode",
        }
    }

    /// The mode that `tag` is the word for, if it is one.
    pub fn from_tag(tag: &str) -> (mode: Option<EncodingMode>)
        ensures
            mode == EncodingMode::parse_tag(tag@),
    {
        if same_text(tag, "copy") {
            Some(EncodingMode::Copy)
        } else if same_text(tag, "transcode") {
            Some(EncodingMode::Transcode)
        } else {
            None
        }
    }

    /// Every mode is read back from its word.
    pub proof fn law_tag_round_trip(self)
        ensures
            EncodingMode::parse_tag(self.tag_text()) == Some(self),
    {
        reveal_strlit("copy");
        reveal_strlit("transcode");
        assert("copy"@.len() == 4 && "transcode"@.len() == 9);
    }
}

impl QualityPreset {
    /// The word for this preset.
    pub open spec fn tag_text(self) -> Seq<char> {
        match self {
            QualityPreset::Low => "low"@,
            QualityPreset::Medium => "medium"@,
            QualityPreset::High => "high"@,
        }
    }

    /// The preset that `tag` is the word for.
    pub open spec fn parse_tag(tag: Seq<char>) -> Option<QualityPreset> {
        if tag == "low"@ {
            Some(QualityPreset::Low)
        } else if tag == "medium"@ {
            Some(QualityPreset::Medium)
        } else if tag == "high"@ {
            Some(QualityPreset::High)
        } else {
            None
        }
    }

    /// The word for this preset.
    pub fn tag(&self) -> (tag: &'static str)
        ensures
            tag@ == self.tag_text(),
    {
        match self {
            QualityPreset::Low => "low",
            QualityPreset::Medium => "medium",
            QualityPreset::High => "high",
        }
    }

    /// The preset that `tag` is the word for, if it is one.
    pub fn from_tag(tag: &str) -> (preset: Option<QualityPreset>)
        ensures
            preset == QualityPreset::parse_tag(tag@),
    {
        if same_text(tag, "low") {
            Some(QualityPreset::Low)
        } else if same_text(tag, "medium") {
            Some(QualityPreset::Medium)
        } else if same_text(tag, "high") {
            Some(QualityPreset::High)
        } else {
            None
        }
    }

    /// Every preset is read back from its word.
    pub proof fn law_tag_round_trip(self)
        ensures
            QualityPreset::parse_tag(self.tag_text()) == Some(self),
    {
        reveal_strlit("low");
        reveal_strlit("medium");
        reveal_strlit("high");
        assert("low"@.len() == 3 && "medium"@.len() == 6 && "high"@.len() == 4);
    }
}

impl AudioMode {
    /// The word for this mode.
    pub open spec fn tag_text(self) -> Seq<char> {
        match self {
            AudioMode::Disabled => "disabled"@,
            AudioMode::Copy => "copy"@,
            AudioMode::Transcode => "transcode"@,
        }
    }

    /// The mode that `tag` is the word for.
    pub open spec fn parse_tag(tag: Seq<char>) -> Option<AudioMode> {
        if tag == "disabled"@ {
            Some(AudioMode::Disabled)
        } else if tag == "copy"@ {
            Some(AudioMode::Copy)
        } else if tag == "transcode"@ {
            Some(AudioMode::Transcode)
        } else {
            None
        }
    }

    /// The word for this mode.
    pub fn tag(&self) -> (tag: &'static str)
        ensures
            tag@ == self.tag_text(),
    {
        match self {
            AudioMode::Disabled => "disabled",
            AudioMode::Copy => "copy",
            AudioMode::Transcode => "transcode",
        }
    }

    /// The mode that `tag` is the word for, if it is one.
    pub fn from_tag(tag: &str) -> (mode: Option<AudioMode>)
        ensures
            mode == AudioMode::parse_tag(tag@),
    {
        if same_text(tag, "disabled") {
            Some(AudioMode::Disabled)
        } else if same_text(tag, "copy") {
            Some(AudioMode::Copy)
        } else if same_text(tag, "transcode") {
            Some(AudioMode::Transcode)
        } else {
            None
        }
    }

    /// Every mode is read back from its word.
    pub proof fn law_tag_round_trip(self)
        ensures
            AudioMode::parse_tag(self.tag_text()) == Some(self),
    {
        reveal_strlit("disabled");
        reveal_strlit("copy");
        reveal_strlit("transcode");
        assert("disabled"@.len() == 8 && "copy"@.len() == 4 && "transcode"@.len() == 9);
    }
}

impl ProcessStatus {
    /// The word for this status.
    pub open spec fn tag_text(self) -> Seq<char> {
        match self {
            ProcessStatus::Stopped => "stopped"@,
            ProcessStatus::Running => "running"@,
            ProcessStatus::Reconnecting => "reconnecting"@,
            ProcessStatus::Failed => "failed"@,
        }
    }

    /// The status that `tag` is the word for.
    pub open spec fn parse_tag(tag: Seq<char>) -> Option<ProcessStatus> {
        if tag == "stopped"@ {
            Some(ProcessStatus::Stopped)
        } else if tag == "running"@ {
            Some(ProcessStatus::Running)
        } else if tag == "reconnecting"@ {
            Some(ProcessStatus::Reconnecting)
        } else if tag == "failed"@ {
            Some(ProcessStatus::Failed)
        } else {
            None
        }
    }

    /// The word for this status.
    pub fn tag(&self) -> (tag: &'static str)
        ensures
            tag@ == self.tag_text(),
    {
        match self {
            ProcessStatus::Stopped => "stopped",
            ProcessStatus::Running => "running",
            ProcessStatus::Reconnecting => "reconnecting",
            ProcessStatus::Failed => "failed",
        }
    }

    /// The status that `tag` is the word for, if it is one.
    pub fn from_tag(tag: &str) -> (status: Option<ProcessStatus>)
        ensures
            status == ProcessStatus::parse_tag(tag@),
    {
        if same_text(tag, "stopped") {
            Some(ProcessStatus::Stopped)
        } else if same_text(tag, "running") {
            Some(ProcessStatus::Running)
        } else if same_text(tag, "reconnecting") {
            Some(ProcessStatus::Reconnecting)
        } else if same_text(tag, "failed") {
            Some(ProcessStatus::Failed)
        } else {
            None
        }
    }

    /// Every status is read back from its word.
    pub proof fn law_tag_round_trip(self)
        ensures
            ProcessStatus::parse_tag(self.tag_text()) == Some(self),
    {
        reveal_strlit("stopped");
        reveal_strlit("running");
        reveal_strlit("reconnecting");
        reveal_strlit("failed");
        assert("stopped"@.len() == 7 && "running"@.len() == 7);
        assert("reconnecting"@.len() == 12 && "failed"@.len() == 6);
        assert("stopped"@[0] == 's' && "running"@[0] == 'r');
    }
}

} // verus!
