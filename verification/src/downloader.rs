//! Model files: where they live, where they are fetched from, and the
//! bookkeeping of a download in progress.

use vstd::prelude::*;

use crate::app::AppEvent;
use crate::config::{Config, HomePath};

verus! {

/// Where whisper.cpp models are published.
pub const HF_BASE: &'static str = "https://huggingface.co/ggerganov/whisper.cpp/resolve/main";

/// The file name of a model, `ggml-<model>.bin`.
pub open spec fn model_file(model: Seq<char>) -> Seq<char> {
    "ggml-"@ + model + ".bin"@
}

/// The file name of a model, `ggml-<model>.bin`.
pub fn model_file_name(model: &str) -> (r: String)
    ensures
        r@ == model_file(model@),
{
    let r = String::from_str("ggml-").concat(model).concat(".bin");
    r
}

/// Where a model file is stored, `~/.murmur/models/ggml-<model>.bin`.
pub fn model_path(model: &str) -> (r: HomePath)
    ensures
        r@ == seq![".murmur"@, "models"@, model_file(model@)],
{
    let mut r = Config::models_dir();
    let ghost before = r@;
    r.parts.push(model_file_name(model));
    assert(r@ =~= before.push(model_file(model@)));
    r
}

/// The address a model file is downloaded from.
pub fn model_url(model: &str) -> (r: String)
    ensures
        r@ == HF_BASE@ + "/"@ + model_file(model@),
{
    let r = String::from_str(HF_BASE).concat("/").concat(model_file_name(model).as_str());
    assert(r@ =~= HF_BASE@ + "/"@ + model_file(model@));
    r
}

/// Where a download is written before it replaces the model file: the model
/// file's name with `.tmp` appended, in the same directory.
pub fn temp_model_path(model: &str) -> (r: HomePath)
    ensures
        r@ == seq![".murmur"@, "models"@, model_file(model@) + ".tmp"@],
{
    let mut r = Config::models_dir();
    let ghost before = r@;
    r.parts.push(model_file_name(model).concat(".tmp"));
    assert(r@ =~= before.push(model_file(model@) + ".tmp"@));
    r
}

/// Everything a model download needs to know.
#[derive(Clone, Debug)]
pub struct DownloadPlan {
    pub url: String,
    pub dest: HomePath,
    pub temp: HomePath,
}

impl DownloadPlan {
    /// The download of the model named `model`.
    pub open spec fn is_for(self, model: Seq<char>) -> bool {
        &&& self.url@ == HF_BASE@ + "/"@ + model_file(model)
        &&& self.dest@ == seq![".murmur"@, "models"@, model_file(model)]
        &&& self.temp@ == seq![".murmur"@, "models"@, model_file(model) + ".tmp"@]
    }

    /// The download of the model named `model`.
    pub fn for_model(model: &str) -> (r: DownloadPlan)
        ensures
            r.is_for(model@),
    {
        DownloadPlan { url: model_url(model), dest: model_path(model), temp: temp_model_path(model) }
    }
}

/// How to obtain a model file.
#[derive(Clone, Debug)]
pub enum ModelFetch {
    /// It is on disk at this location.
    Ready(HomePath),
    /// It must be downloaded first.
    Download(DownloadPlan),
}

/// Makes sure a model is available: a file already present is used as it is,
/// otherwise it is downloaded. `present` says whether the model file exists.
pub fn ensure_model(model: &str, present: bool) -> (r: ModelFetch)
    ensures
        present ==> (r matches ModelFetch::Ready(p) && p@ == seq![
            ".murmur"@,
            "models"@,
            model_file(model@),
        ]),
        !present ==> (r matches ModelFetch::Download(plan) && plan.is_for(model@)),
{
    if present {
        ModelFetch::Ready(model_path(model))
    } else {
        ModelFetch::Download(DownloadPlan::for_model(model))
    }
}

/// The percentage shown for `downloaded` of `total` bytes: capped at 99 until
/// the download completes.
pub open spec fn percent_of(downloaded: int, total: int) -> int {
    if downloaded * 100 / total > 99 {
        99
    } else {
        downloaded * 100 / total
    }
}

/// The bookkeeping of a streaming download: bytes written so far, the size
/// announced by the server (0 when unknown), and the last percentage reported.
#[derive(Clone, Copy, Debug)]
pub struct DownloadProgress {
    pub downloaded: u64,
    pub total: u64,
    pub last_pct: u8,
}

impl DownloadProgress {
    /// The last reported percentage is that of the bytes written so far (0 when
    /// the size is unknown).
    pub open spec fn wf(self) -> bool {
        if self.total > 0 {
            self.last_pct == percent_of(self.downloaded as int, self.total as int)
        } else {
            self.last_pct == 0
        }
    }

    /// A download of `total` bytes that has not started.
    pub fn new(total: u64) -> (r: DownloadProgress)
        ensures
            r.downloaded == 0,
            r.total == total,
            r.last_pct == 0,
            r.wf(),
    {
        DownloadProgress { downloaded: 0, total, last_pct: 0 }
    }

    /// Counts `n` more bytes written and returns the percentage to report, if
    /// the size is known and the percentage changed.
    pub fn record(&mut self, n: u64) -> (r: Option<u8>)
        requires
            old(self).downloaded + n <= u64::MAX,
            old(self).total > 0 ==> (old(self).downloaded + n) * 100 <= u64::MAX,
        ensures
            final(self).downloaded == old(self).downloaded + n,
            final(self).total == old(self).total,
            ({
                let pct = percent_of(final(self).downloaded as int, old(self).total as int);
                if old(self).total > 0 && pct != old(self).last_pct {
                    r == Some(pct as u8) && final(self).last_pct == pct
                } else {
                    r is None && final(self).last_pct == old(self).last_pct
                }
            }),
            r matches Some(p) ==> p <= 99,
            old(self).wf() ==> final(self).wf(),
            old(self).wf() ==> (r matches Some(p) ==> p > old(self).last_pct),
    {
        self.downloaded = self.downloaded + n;
        if self.total > 0 {
            let raw: u64 = self.downloaded * 100 / self.total;
            let pct: u8 = if raw > 99 { 99 } else { raw as u8 };
            proof {
                lemma_percent_monotone(
                    old(self).downloaded as int,
                    self.downloaded as int,
                    self.total as int,
                );
            }
            if pct != self.last_pct {
                self.last_pct = pct;
                return Some(pct);
            }
        }
        None
    }
}

/// More bytes never give a smaller percentage.
pub proof fn lemma_percent_monotone(a: int, b: int, total: int)
    requires
        0 <= a <= b,
        total > 0,
    ensures
        0 <= percent_of(a, total) <= percent_of(b, total) <= 99,
{
    assert(a * 100 <= b * 100) by (nonlinear_arith)
        requires
            a <= b,
    ;
    assert(a * 100 / total <= b * 100 / total) by (nonlinear_arith)
        requires
            a * 100 <= b * 100,
            total > 0,
    ;
    assert(0 <= a * 100 / total) by (nonlinear_arith)
        requires
            0 <= a,
            total > 0,
    ;
}

/// Why a model is being downloaded.
#[derive(Clone, Copy, Debug, PartialEq, Eq, Structural)]
pub enum DownloadPurpose {
    /// The user picked a tier whose model is missing.
    Selection,
    /// The tier's model replaces the bootstrap model in the background.
    Upgrade,
}

/// The event reported when a background download ends; a failed upgrade is
/// only logged, so it reports nothing.
pub fn download_finished(purpose: DownloadPurpose, model: String, result: Result<(), String>) -> (r:
    Option<AppEvent>)
    ensures
        purpose == DownloadPurpose::Selection ==> match result {
            Ok(_) => r == Some(AppEvent::ModelDownloadComplete(model)),
            Err(e) => r matches Some(AppEvent::TranscriptionError(m)) && m@ == "download failed: "@
                + e@,
        },
        purpose == DownloadPurpose::Upgrade ==> match result {
            Ok(_) => r == Some(AppEvent::BackendUpgradeReady),
            Err(_) => r is None,
        },
{
    match (purpose, result) {
        (DownloadPurpose::Selection, Ok(())) => Some(AppEvent::ModelDownloadComplete(model)),
        (DownloadPurpose::Selection, Err(e)) => Some(
            AppEvent::TranscriptionError(String::from_str("download failed: ").concat(e.as_str())),
        ),
        (DownloadPurpose::Upgrade, Ok(())) => Some(AppEvent::BackendUpgradeReady),
        (DownloadPurpose::Upgrade, Err(_)) => None,
    }
}

} // verus!
