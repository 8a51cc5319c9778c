//! The model store: where a model lives, whether it must be fetched, and the
//! accounting of a download.
use vstd::prelude::*;
use vstd::string::StringExecFns;

verus! {

/// Where model files are downloaded from; a model's file name is appended.
pub const MODEL_BASE_URL: &'static str = "https://huggingface.co/ggerganov/whisper.cpp/resolve/main";

/// The name of the directory, under the configuration directory, that holds
/// the models.
pub const MODELS_DIR_NAME: &'static str = "models";

/// `dir` and `name` joined by one `/`.
pub open spec fn joined(dir: Seq<char>, name: Seq<char>) -> Seq<char> {
    dir + seq!['/'] + name
}

/// Joins a directory and a name into a path.
pub fn join_path(dir: &str, name: &str) -> (r: String)
    ensures
        r@ == joined(dir@, name@),
{
    let mut s = String::from_str(dir);
    proof { reveal_strlit("/"); }
    s.append("/");
    s.append(name);
    s
}

/// The directory of the model cache under the configuration directory.
pub fn get_models_dir(config_dir: &str) -> (r: String)
    ensures
        r@ == joined(config_dir@, MODELS_DIR_NAME@),
{
    join_path(config_dir, MODELS_DIR_NAME)
}

/// The local path of the model `model_name` in the cache `models_dir`.
pub fn get_model_path(models_dir: &str, model_name: &str) -> (r: String)
    ensures
        r@ == joined(models_dir@, model_name@),
{
    join_path(models_dir, model_name)
}

/// The address a model is downloaded from.
pub fn model_url(model_name: &str) -> (r: String)
    ensures
        r@ == joined(MODEL_BASE_URL@, model_name@),
{
    join_path(MODEL_BASE_URL, model_name)
}

/// What `ensure` has to do for a model.
#[derive(Debug, PartialEq, Eq)]
pub enum EnsurePlan {
    /// The file is there: use it, with no network access.
    UseCached,
    /// The file is missing: download it from `url`.
    Download { url: String },
}

/// Decides how to make the model `model_name` present, given whether its
/// file is already in the cache.
pub fn plan_ensure(present: bool, model_name: &str) -> (r: EnsurePlan)
    ensures
        present ==> r == EnsurePlan::UseCached,
        !present ==> (r matches EnsurePlan::Download { url } && url@ == joined(
            MODEL_BASE_URL@,
            model_name@,
        )),
{
    if present {
        EnsurePlan::UseCached
    } else {
        EnsurePlan::Download { url: model_url(model_name) }
    }
}

/// A failure of the model store.
#[derive(Clone, Debug, PartialEq, Eq)]
pub enum ModelError {
    /// The request or the transfer failed.
    Network(String),
    /// The model file could not be written.
    Io(String),
    /// The server did not say how large the model is.
    SizeUnknown,
    /// The server sent more or fewer bytes than it announced.
    LengthMismatch { expected: u64 },
}

/// How far a download has come.
pub struct DownloadProgress {
    pub bytes_downloaded: u64,
    pub total_bytes: u64,
}

impl DownloadProgress {
    pub open spec fn wf(&self) -> bool {
        self.bytes_downloaded <= self.total_bytes
    }

    /// Starts a download whose size the server gave as `content_length`; a
    /// download of unknown size is refused, since its progress cannot be told.
    pub fn start(content_length: Option<u64>) -> (r: Result<DownloadProgress, ModelError>)
        ensures
            content_length is None ==> r == Err::<DownloadProgress, ModelError>(
                ModelError::SizeUnknown,
            ),
            content_length matches Some(n) ==> (r matches Ok(p) && p.bytes_downloaded == 0
                && p.total_bytes == n),
            r matches Ok(p) ==> p.wf(),
    {
        match content_length {
            Some(n) => Ok(DownloadProgress { bytes_downloaded: 0, total_bytes: n }),
            None => Err(ModelError::SizeUnknown),
        }
    }

    /// Accounts for a chunk of `len` bytes about to be written. A chunk that
    /// would take the download past its announced size is refused and
    /// changes nothing.
    pub fn record_chunk(&mut self, len: u64) -> (r: Result<(), ModelError>)
        requires
            old(self).wf(),
        ensures
            final(self).wf(),
            final(self).total_bytes == old(self).total_bytes,
            chunk_step(*old(self), len) matches Some(p) ==> (r is Ok && *final(self) == p),
            chunk_step(*old(self), len) is None ==> *final(self) == *old(self) && r == Err::<
                (),
                ModelError,
            >(ModelError::LengthMismatch { expected: old(self).total_bytes }),
    {
        if len > self.total_bytes - self.bytes_downloaded {
            Err(ModelError::LengthMismatch { expected: self.total_bytes })
        } else {
            self.bytes_downloaded = self.bytes_downloaded + len;
            Ok(())
        }
    }

    /// Ends a download: it succeeds only where exactly the announced number
    /// of bytes arrived.
    pub fn finish(&self) -> (r: Result<(), ModelError>)
        ensures
            self.bytes_downloaded == self.total_bytes ==> r is Ok,
            self.bytes_downloaded != self.total_bytes ==> r == Err::<(), ModelError>(
                ModelError::LengthMismatch { expected: self.total_bytes },
            ),
    {
        if self.bytes_downloaded == self.total_bytes {
            Ok(())
        } else {
            Err(ModelError::LengthMismatch { expected: self.total_bytes })
        }
    }
}

/// The progress after a chunk of `len` bytes, or `None` where the chunk is
/// refused.
pub open spec fn chunk_step(p: DownloadProgress, len: u64) -> Option<DownloadProgress> {
    if p.bytes_downloaded + len > p.total_bytes {
        None
    } else {
        Some(
            DownloadProgress {
                bytes_downloaded: (p.bytes_downloaded + len) as u64,
                total_bytes: p.total_bytes,
            },
        )
    }
}

/// The progress after the chunks `chunks`, in order, or `None` where one of
/// them is refused.
pub open spec fn after_chunks(p: DownloadProgress, chunks: Seq<u64>) -> Option<DownloadProgress>
    decreases chunks.len(),
{
    if chunks.len() == 0 {
        Some(p)
    } else {
        match chunk_step(p, chunks[0]) {
            Some(q) => after_chunks(q, chunks.drop_first()),
            None => None,
        }
    }
}

/// The number of bytes in `chunks`.
pub open spec fn total_len(chunks: Seq<u64>) -> int
    decreases chunks.len(),
{
    if chunks.len() == 0 {
        0
    } else {
        chunks[0] + total_len(chunks.drop_first())
    }
}

proof fn lemma_total_len_nonneg(chunks: Seq<u64>)
    ensures
        total_len(chunks) >= 0,
    decreases chunks.len(),
{
    if chunks.len() > 0 {
        lemma_total_len_nonneg(chunks.drop_first());
    }
}

proof fn lemma_chunks_from(p: DownloadProgress, chunks: Seq<u64>)
    requires
        p.wf(),
    ensures
        (after_chunks(p, chunks) matches Some(q) && q.bytes_downloaded == q.total_bytes) <==> (
        p.bytes_downloaded + total_len(chunks) == p.total_bytes),
        after_chunks(p, chunks) matches Some(q) ==> q.bytes_downloaded == p.bytes_downloaded
            + total_len(chunks) && q.total_bytes == p.total_bytes,
    decreases chunks.len(),
{
    if chunks.len() > 0 {
        lemma_total_len_nonneg(chunks.drop_first());
        match chunk_step(p, chunks[0]) {
            Some(q) => {
                lemma_chunks_from(q, chunks.drop_first());
            },
            None => {},
        }
    }
}

/// A download that starts with an announced size of `total` bytes ends
/// successfully exactly when its chunks are accepted and together hold
/// `total` bytes: the model file written is then exactly that long.
pub proof fn lemma_download_exact(total: u64, chunks: Seq<u64>)
    ensures
        ({
            let p = DownloadProgress { bytes_downloaded: 0, total_bytes: total };
            (after_chunks(p, chunks) matches Some(q) && q.bytes_downloaded == q.total_bytes) <==> (
            total_len(chunks) == total)
        }),
        ({
            let p = DownloadProgress { bytes_downloaded: 0, total_bytes: total };
            after_chunks(p, chunks) matches Some(q) ==> q.bytes_downloaded == total_len(chunks)
        }),
{
    lemma_chunks_from(DownloadProgress { bytes_downloaded: 0, total_bytes: total }, chunks);
}

} // verus!
