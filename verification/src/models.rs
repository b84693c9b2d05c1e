//! The speech models the app can download: what they are, where they go,
//! and how the app tells whether each is installed.
use vstd::prelude::*;

use crate::config::{join, join_path, PARAKEET_DIR_NAME};
use crate::text::{chars_equal, chars_of, owned, push_str};

verus! {

/// How a model is shipped.
#[derive(PartialEq, Eq, Clone, Copy, Debug)]
pub enum Kind {
    /// A single file saved under the models folder as `dest`.
    File { dest: &'static str },
    /// A `.tar.bz2` archive that unpacks into `dest_dir` in the models folder.
    Archive { dest_dir: &'static str },
}

/// The file whose presence shows a model is installed.
#[derive(PartialEq, Eq, Clone, Copy, Debug)]
pub enum Sentinel {
    /// `tokens.txt` in the Parakeet folder.
    ParakeetTokens,
    /// The Whisper model file.
    WhisperModel,
    /// A path relative to the models folder.
    InModelsRoot(&'static str),
}

/// A downloadable model.
#[derive(Clone, Copy, Debug)]
pub struct ModelDef {
    pub id: &'static str,
    pub label: &'static str,
    pub category: &'static str,
    pub approx_mb: u32,
    pub url: &'static str,
    pub kind: Kind,
    pub sentinel: Sentinel,
}

/// Whether `d` has the given fields.
pub open spec fn has_fields(
    d: ModelDef,
    id: Seq<char>,
    label: Seq<char>,
    category: Seq<char>,
    approx_mb: u32,
    url: Seq<char>,
) -> bool {
    &&& d.id@ == id
    &&& d.label@ == label
    &&& d.category@ == category
    &&& d.approx_mb == approx_mb
    &&& d.url@ == url
}

/// The ids of the known models, in order.
pub open spec fn model_ids() -> Seq<Seq<char>> {
    seq!["parakeet"@, "whisper"@, "silero_vad"@, "diarize_seg"@, "diarize_emb"@]
}

/// Every known model: Parakeet for dictation; Whisper, Silero VAD and the
/// two diarization models for ghost mode.
pub fn registry() -> (r: Vec<ModelDef>)
    ensures
        r@.len() == 5,
        forall|i: int| 0 <= i < 5 ==> #[trigger] r@[i].id@ == model_ids()[i],
        has_fields(
            r@[0],
            "parakeet"@,
            "Parakeet (dictation)"@,
            "dictation"@,
            480,
            "https://github.com/k2-fsa/sherpa-onnx/releases/download/asr-models/sherpa-onnx-nemo-parakeet-tdt-0.6b-v2-int8.tar.bz2"@,
        ),
        r@[0].kind == (Kind::Archive { dest_dir: PARAKEET_DIR_NAME }),
        r@[0].sentinel == Sentinel::ParakeetTokens,
        has_fields(
            r@[1],
            "whisper"@,
            "Whisper Large V3 (ghost)"@,
            "ghost"@,
            3100,
            "https://huggingface.co/ggerganov/whisper.cpp/resolve/main/ggml-large-v3.bin"@,
        ),
        r@[1].kind == (Kind::File { dest: "ggml-large-v3.bin" }),
        r@[1].sentinel == Sentinel::WhisperModel,
        has_fields(
            r@[2],
            "silero_vad"@,
            "Silero VAD (ghost)"@,
            "ghost"@,
            2,
            "https://github.com/k2-fsa/sherpa-onnx/releases/download/asr-models/silero_vad.onnx"@,
        ),
        r@[2].kind == (Kind::File { dest: "silero_vad.onnx" }),
        r@[2].sentinel == Sentinel::InModelsRoot("silero_vad.onnx"),
        has_fields(
            r@[3],
            "diarize_seg"@,
            "Diarization segmentation (ghost)"@,
            "ghost"@,
            6,
            "https://github.com/k2-fsa/sherpa-onnx/releases/download/speaker-segmentation-models/sherpa-onnx-pyannote-segmentation-3-0.tar.bz2"@,
        ),
        r@[3].kind == (Kind::Archive { dest_dir: "sherpa-onnx-pyannote-segmentation-3-0" }),
        r@[3].sentinel == Sentinel::InModelsRoot("sherpa-onnx-pyannote-segmentation-3-0/model.onnx"),
        has_fields(
            r@[4],
            "diarize_emb"@,
            "Diarization embedding (ghost)"@,
            "ghost"@,
            28,
            "https://github.com/k2-fsa/sherpa-onnx/releases/download/speaker-recongition-models/3dspeaker_speech_eres2net_base_sv_zh-cn_3dspeaker_16k.onnx"@,
        ),
        r@[4].kind == (Kind::File { dest: "3dspeaker_speech_eres2net_base_sv_zh-cn_3dspeaker_16k.onnx" }),
        r@[4].sentinel == Sentinel::InModelsRoot("3dspeaker_speech_eres2net_base_sv_zh-cn_3dspeaker_16k.onnx"),
{
    vec![
        ModelDef {
            id: "parakeet",
            label: "Parakeet (dictation)",
            category: "dictation",
            approx_mb: 480,
            url: "https://github.com/k2-fsa/sherpa-onnx/releases/download/asr-models/sherpa-onnx-nemo-parakeet-tdt-0.6b-v2-int8.tar.bz2",
            kind: Kind::Archive { dest_dir: PARAKEET_DIR_NAME },
            sentinel: Sentinel::ParakeetTokens,
        },
        ModelDef {
            id: "whisper",
            label: "Whisper Large V3 (ghost)",
            category: "ghost",
            approx_mb: 3100,
            url: "https://huggingface.co/ggerganov/whisper.cpp/resolve/main/ggml-large-v3.bin",
            kind: Kind::File { dest: "ggml-large-v3.bin" },
            sentinel: Sentinel::WhisperModel,
        },
        ModelDef {
            id: "silero_vad",
            label: "Silero VAD (ghost)",
            category: "ghost",
            approx_mb: 2,
            url: "https://github.com/k2-fsa/sherpa-onnx/releases/download/asr-models/silero_vad.onnx",
            kind: Kind::File { dest: "silero_vad.onnx" },
            sentinel: Sentinel::InModelsRoot("silero_vad.onnx"),
        },
        ModelDef {
            id: "diarize_seg",
            label: "Diarization segmentation (ghost)",
            category: "ghost",
            approx_mb: 6,
            url: "https://github.com/k2-fsa/sherpa-onnx/releases/download/speaker-segmentation-models/sherpa-onnx-pyannote-segmentation-3-0.tar.bz2",
            kind: Kind::Archive { dest_dir: "sherpa-onnx-pyannote-segmentation-3-0" },
            sentinel: Sentinel::InModelsRoot("sherpa-onnx-pyannote-segmentation-3-0/model.onnx"),
        },
        ModelDef {
            id: "diarize_emb",
            label: "Diarization embedding (ghost)",
            category: "ghost",
            approx_mb: 28,
            url: "https://github.com/k2-fsa/sherpa-onnx/releases/download/speaker-recongition-models/3dspeaker_speech_eres2net_base_sv_zh-cn_3dspeaker_16k.onnx",
            kind: Kind::File { dest: "3dspeaker_speech_eres2net_base_sv_zh-cn_3dspeaker_16k.onnx" },
            sentinel: Sentinel::InModelsRoot(
                "3dspeaker_speech_eres2net_base_sv_zh-cn_3dspeaker_16k.onnx",
            ),
        },
    ]
}

/// The index of the first model in `defs` with this id, if any.
pub open spec fn index_of(defs: Seq<ModelDef>, id: Seq<char>, from: int) -> Option<int>
    decreases defs.len() - from,
{
    if from < 0 || from >= defs.len() {
        None
    } else if defs[from].id@ == id {
        Some(from)
    } else {
        index_of(defs, id, from + 1)
    }
}

/// The model with this id among `defs` (the first, should two share it), or
/// the error `unknown model id <id>`.
pub fn find_model(defs: &Vec<ModelDef>, id: &str) -> (r: Result<ModelDef, String>)
    ensures
        match index_of(defs@, id@, 0) {
            Some(i) => r == Ok::<ModelDef, String>(defs@[i]),
            None => r matches Err(e) && e@ == "unknown model id "@ + id@,
        },
{
    let wanted = chars_of(id);
    let mut i: usize = 0;
    while i < defs.len()
        invariant
            i <= defs.len(),
            wanted@ == id@,
            index_of(defs@, id@, 0) == index_of(defs@, id@, i as int),
        decreases defs.len() - i,
    {
        let have = chars_of(defs[i].id);
        if chars_equal(&have, &wanted) {
            return Ok(defs[i]);
        }
        i = i + 1;
    }
    let mut e = owned("unknown model id ");
    push_str(&mut e, id);
    Err(e)
}

/// Where a download is saved in the models folder `root`: the file itself,
/// or `<dest_dir>.tar.bz2` for an archive (removed once unpacked).
pub open spec fn download_target_of(kind: Kind, root: Seq<char>) -> Seq<char> {
    match kind {
        Kind::File { dest } => join_path(root, dest@),
        Kind::Archive { dest_dir } => join_path(root, dest_dir@ + ".tar.bz2"@),
    }
}

/// Where a download is saved in the models folder `root`.
pub fn download_target(kind: Kind, root: &str) -> (r: String)
    ensures
        r@ == download_target_of(kind, root@),
{
    match kind {
        Kind::File { dest } => join(root, dest),
        Kind::Archive { dest_dir } => {
            let mut name = owned(dest_dir);
            push_str(&mut name, ".tar.bz2");
            join(root, name.as_str())
        },
    }
}

/// The file whose presence shows the model is installed, given the
/// Parakeet folder, the Whisper model path and the models folder in use.
pub open spec fn sentinel_path_of(
    sentinel: Sentinel,
    parakeet_dir: Seq<char>,
    whisper_model: Seq<char>,
    root: Seq<char>,
) -> Seq<char> {
    match sentinel {
        Sentinel::ParakeetTokens => join_path(parakeet_dir, "tokens.txt"@),
        Sentinel::WhisperModel => whisper_model,
        Sentinel::InModelsRoot(rel) => join_path(root, rel@),
    }
}

/// The file whose presence shows the model is installed.
pub fn sentinel_path(sentinel: Sentinel, parakeet_dir: &str, whisper_model: &str, root: &str) -> (r:
    String)
    ensures
        r@ == sentinel_path_of(sentinel, parakeet_dir@, whisper_model@, root@),
{
    match sentinel {
        Sentinel::ParakeetTokens => join(parakeet_dir, "tokens.txt"),
        Sentinel::WhisperModel => owned(whisper_model),
        Sentinel::InModelsRoot(rel) => join(root, rel),
    }
}

/// The ids of the known models are distinct, so each known model is found by
/// its own id: looking up the `i`-th id in the registry gives the `i`-th model.
pub proof fn law_models_found_by_id(defs: Seq<ModelDef>, i: int)
    requires
        defs.len() == 5,
        forall|j: int| 0 <= j < 5 ==> #[trigger] defs[j].id@ == model_ids()[j],
        0 <= i < 5,
    ensures
        index_of(defs, model_ids()[i], 0) == Some(i),
{
    reveal_strlit("parakeet");
    reveal_strlit("whisper");
    reveal_strlit("silero_vad");
    reveal_strlit("diarize_seg");
    reveal_strlit("diarize_emb");
    assert(defs[0].id@ == model_ids()[0]);
    assert(defs[1].id@ == model_ids()[1]);
    assert(defs[2].id@ == model_ids()[2]);
    assert(defs[3].id@ == model_ids()[3]);
    assert(defs[4].id@ == model_ids()[4]);
    assert(model_ids()[3][8] != model_ids()[4][8]);
    reveal_with_fuel(index_of, 6);
}

/// How often, at most, a running download reports its progress.
pub const PROGRESS_INTERVAL_MS: u64 = 250;

/// The bytes a running download has written so far.
pub struct DownloadProgress {
    pub downloaded: u64,
}

impl DownloadProgress {
    /// A download that has written nothing yet.
    pub fn new() -> (p: DownloadProgress)
        ensures
            p.downloaded == 0,
    {
        DownloadProgress { downloaded: 0 }
    }

    /// A chunk of `n` bytes was written, `elapsed_ms` after the last report:
    /// count it, and say whether to report the count now (once at least
    /// [`PROGRESS_INTERVAL_MS`] have passed).
    pub fn on_chunk(&mut self, n: u64, elapsed_ms: u64) -> (report: bool)
        requires
            old(self).downloaded + n <= u64::MAX,
        ensures
            final(self).downloaded == old(self).downloaded + n,
            report == (elapsed_ms >= PROGRESS_INTERVAL_MS),
    {
        self.downloaded = self.downloaded + n;
        elapsed_ms >= PROGRESS_INTERVAL_MS
    }
}

} // verus!
