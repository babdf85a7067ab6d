use vstd::prelude::*;

use std::collections::VecDeque;

use crate::chars::{push_str_chars, string_from_chars};

verus! {

/// The message bus between the desktop shell's user interface and its core: messages
/// wait in the order they were sent until they are drained.
pub struct DesktopIpcBridge<E> {
    queue: VecDeque<E>,
}

impl<E> DesktopIpcBridge<E> {
    /// The messages waiting, oldest first.
    pub closed spec fn pending(&self) -> Seq<E> {
        self.queue@
    }

    /// A bridge with no message waiting.
    pub fn new() -> (r: DesktopIpcBridge<E>)
        ensures
            r.pending() == Seq::<E>::empty(),
    {
        DesktopIpcBridge { queue: VecDeque::new() }
    }

    /// Sends a message: it waits after those already waiting.
    pub fn send(&mut self, envelope: E)
        ensures
            final(self).pending() == old(self).pending().push(envelope),
    {
        self.queue.push_back(envelope);
    }

    /// Takes every waiting message, oldest first; none waits afterwards.
    pub fn drain(&mut self) -> (r: Vec<E>)
        ensures
            r@ == old(self).pending(),
            final(self).pending() == Seq::<E>::empty(),
    {
        let mut envelopes: Vec<E> = Vec::new();
        let ghost all = self.queue@;
        while self.queue.len() > 0
            invariant
                envelopes@ + self.queue@ == all,
            decreases self.queue.len(),
        {
            let ghost before = self.queue@;
            match self.queue.pop_front() {
                Some(envelope) => {
                    envelopes.push(envelope);
                    assert(envelopes@ + self.queue@ =~= all);
                },
                None => {},
            }
        }
        assert(envelopes@ =~= all);
        envelopes
    }
}

proof fn lemma_sends_accumulate<E>(bridges: Seq<DesktopIpcBridge<E>>, sent: Seq<E>, k: int)
    requires
        bridges.len() == sent.len() + 1,
        bridges[0].pending() == Seq::<E>::empty(),
        forall|i: int|
            0 <= i < sent.len() ==> #[trigger] bridges[i + 1].pending() == bridges[i].pending().push(
                sent[i],
            ),
        0 <= k <= sent.len(),
    ensures
        bridges[k].pending() == sent.take(k),
    decreases k,
{
    if k > 0 {
        lemma_sends_accumulate(bridges, sent, k - 1);
        assert(bridges[(k - 1) + 1].pending() == bridges[k - 1].pending().push(sent[k - 1]));
        assert(sent.take(k) =~= sent.take(k - 1).push(sent[k - 1]));
    } else {
        assert(sent.take(0) =~= Seq::<E>::empty());
    }
}

/// Messages sent one after another to a bridge with none waiting come out of the next
/// drain all together, in the order they were sent, none lost or repeated, and a drain
/// right after that gives nothing. `bridges[i]` is the bridge after the first `i` sends,
/// `after` the bridge after the first drain, which gave `drained`, and `drained_again`
/// what a second drain gave.
pub proof fn sent_messages_drain_in_order<E>(
    bridges: Seq<DesktopIpcBridge<E>>,
    sent: Seq<E>,
    drained: Seq<E>,
    after: DesktopIpcBridge<E>,
    drained_again: Seq<E>,
)
    requires
        bridges.len() == sent.len() + 1,
        bridges[0].pending() == Seq::<E>::empty(),
        forall|i: int|
            0 <= i < sent.len() ==> #[trigger] bridges[i + 1].pending() == bridges[i].pending().push(
                sent[i],
            ),
        drained == bridges[sent.len() as int].pending(),
        after.pending() == Seq::<E>::empty(),
        drained_again == after.pending(),
    ensures
        drained == sent,
        drained_again == Seq::<E>::empty(),
{
    lemma_sends_accumulate(bridges, sent, sent.len() as int);
    assert(sent.take(sent.len() as int) =~= sent);
}

/// How many snapshot mappings the desktop shell keeps open for the overlay to read.
pub const RECENT_MAPPING_LIMIT: usize = 4;

/// The snapshot mappings kept open, newest last: no more than the limit.
pub struct RecentMappings<T> {
    mappings: VecDeque<T>,
}

/// The last `n` items of `s`, or all of them when there are fewer.
pub open spec fn last_items<T>(s: Seq<T>, n: nat) -> Seq<T> {
    if s.len() <= n {
        s
    } else {
        s.subrange(s.len() - n, s.len() as int)
    }
}

impl<T> RecentMappings<T> {
    /// The mappings kept, oldest first.
    pub closed spec fn kept(&self) -> Seq<T> {
        self.mappings@
    }

    /// Whether no more than the limit are kept.
    pub open spec fn well_formed(&self) -> bool {
        self.kept().len() <= RECENT_MAPPING_LIMIT
    }

    /// None kept.
    pub fn new() -> (r: RecentMappings<T>)
        ensures
            r.kept() == Seq::<T>::empty(),
            r.well_formed(),
    {
        RecentMappings { mappings: VecDeque::new() }
    }

    /// The mappings kept, oldest first.
    pub fn kept_mappings(&self) -> (r: &VecDeque<T>)
        ensures
            r@ == self.kept(),
    {
        &self.mappings
    }

    /// Keeps a new mapping open; the oldest ones beyond the limit are released.
    pub fn keep_mapping(&mut self, mapping: T)
        ensures
            final(self).kept() == last_items(old(self).kept().push(mapping), RECENT_MAPPING_LIMIT as nat),
            final(self).well_formed(),
    {
        let ghost all = self.mappings@.push(mapping);
        self.mappings.push_back(mapping);
        assert(self.mappings@ =~= all.subrange(0, all.len() as int));
        while self.mappings.len() > RECENT_MAPPING_LIMIT
            invariant
                self.mappings@.len() <= all.len(),
                self.mappings@ == all.subrange(all.len() - self.mappings@.len(), all.len() as int),
                self.mappings@.len() >= RECENT_MAPPING_LIMIT || self.mappings@.len() == all.len(),
            decreases self.mappings.len(),
        {
            let _released = self.mappings.pop_front();
            assert(self.mappings@ =~= all.subrange(
                all.len() - self.mappings@.len(),
                all.len() as int,
            ));
        }
        assert(self.mappings@.len() <= RECENT_MAPPING_LIMIT);
        proof {
            if all.len() <= RECENT_MAPPING_LIMIT as nat {
                assert(self.mappings@ =~= all);
            } else {
                assert(self.mappings@.len() == RECENT_MAPPING_LIMIT);
            }
        }
    }
}

/// Progress of a built-in model download, as the settings page polls it.
#[derive(Debug)]
pub struct ModelDownloadProgress<R> {
    pub running: bool,
    pub model_id: String,
    pub role: String,
    pub file_name: String,
    pub file_index: usize,
    pub file_count: usize,
    pub downloaded_bytes: u64,
    pub total_bytes: Option<u64>,
    pub error: Option<String>,
    pub result: Option<R>,
}

impl<R> ModelDownloadProgress<R> {
    /// A download of `model_id` that has just started.
    pub fn started(model_id: String) -> (r: ModelDownloadProgress<R>)
        ensures
            r.running,
            r.model_id == model_id,
            r.role@ == Seq::<char>::empty(),
            r.file_name@ == Seq::<char>::empty(),
            r.file_index == 0,
            r.file_count == 0,
            r.downloaded_bytes == 0,
            r.total_bytes is None,
            r.error is None,
            r.result is None,
    {
        ModelDownloadProgress {
            running: true,
            model_id,
            role: String::new(),
            file_name: String::new(),
            file_index: 0,
            file_count: 0,
            downloaded_bytes: 0,
            total_bytes: None,
            error: None,
            result: None,
        }
    }

    /// Records how far the download of one file has come.
    pub fn record(
        &mut self,
        role: String,
        file_name: String,
        file_index: usize,
        file_count: usize,
        downloaded_bytes: u64,
        total_bytes: Option<u64>,
    )
        ensures
            final(self).role == role,
            final(self).file_name == file_name,
            final(self).file_index == file_index,
            final(self).file_count == file_count,
            final(self).downloaded_bytes == downloaded_bytes,
            final(self).total_bytes == total_bytes,
            final(self).running == old(self).running,
            final(self).model_id == old(self).model_id,
            final(self).error == old(self).error,
            final(self).result == old(self).result,
    {
        self.role = role;
        self.file_name = file_name;
        self.file_index = file_index;
        self.file_count = file_count;
        self.downloaded_bytes = downloaded_bytes;
        self.total_bytes = total_bytes;
    }

    /// Records how the download ended: it no longer runs, and holds its result or error.
    pub fn finish(&mut self, outcome: Result<R, String>)
        ensures
            !final(self).running,
            final(self).model_id == old(self).model_id,
            final(self).downloaded_bytes == old(self).downloaded_bytes,
            final(self).total_bytes == old(self).total_bytes,
            match outcome {
                Ok(v) => final(self).result == Some(v) && final(self).error is None,
                Err(e) => final(self).error == Some(e) && final(self).result == old(self).result,
            },
    {
        self.running = false;
        match outcome {
            Ok(v) => {
                self.result = Some(v);
                self.error = None;
            },
            Err(e) => {
                self.error = Some(e);
            },
        }
    }
}

/// The error for starting a download while another one runs.
pub open spec fn download_running_message(model_id: Seq<char>) -> Seq<char> {
    "model_download_already_running: '"@ + model_id + "' is already downloading"@
}

/// Whether a new download may start, given the model and state of the last one: not
/// while that one still runs.
pub fn check_download_can_start(current: Option<(&str, bool)>) -> (r: Result<(), String>)
    ensures
        match current {
            Some((id, true)) => r matches Err(e) && e@ == download_running_message(id@),
            _ => r is Ok,
        },
{
    match current {
        Some((id, true)) => {
            let mut v: Vec<char> = Vec::new();
            push_str_chars(&mut v, "model_download_already_running: '");
            push_str_chars(&mut v, id);
            push_str_chars(&mut v, "' is already downloading");
            Err(string_from_chars(&v))
        },
        _ => Ok(()),
    }
}

/// The error for moving the models while a download runs.
pub open spec fn storage_busy_message() -> Seq<char> {
    "model_storage_busy: wait for the current model download to finish"@
}

/// Whether the model location may change, given whether the last download still runs
/// (`None` when there was none).
pub fn ensure_no_model_download_running(running: Option<bool>) -> (r: Result<(), String>)
    ensures
        running == Some(true) ==> (r matches Err(e) && e@ == storage_busy_message()),
        running != Some(true) ==> r is Ok,
{
    match running {
        Some(true) => Err(
            "model_storage_busy: wait for the current model download to finish".to_owned(),
        ),
        _ => Ok(()),
    }
}

/// The error for a model that has no built-in package to download.
pub open spec fn download_source_missing_message(model_id: Seq<char>) -> Seq<char> {
    "model_download_source_missing: unsupported model id '"@ + model_id + "'"@
}

/// A built-in model download under way or done: the model, whether it was asked to
/// stop, and how far it came.
#[derive(Debug)]
pub struct ModelDownloadTask<R> {
    pub model_id: String,
    pub cancel_requested: bool,
    pub progress: ModelDownloadProgress<R>,
}

/// The desktop shell's built-in model download: the last one started, if any.
#[derive(Debug)]
pub struct ModelDownloadRuntime<R> {
    pub task: Option<ModelDownloadTask<R>>,
}

impl<R> ModelDownloadRuntime<R> {
    /// No download started yet.
    pub fn new() -> (r: Self)
        ensures
            r.task is None,
    {
        ModelDownloadRuntime { task: None }
    }

    /// Starts downloading a model (`source_found` tells whether it has a built-in
    /// package): refused when it has none, then while the last download still runs,
    /// with the task left as it was; otherwise the new download becomes the task, just
    /// started and not asked to stop.
    pub fn start(&mut self, model_id: String, source_found: bool) -> (r: Result<(), String>)
        ensures
            !source_found ==> (r matches Err(e) && e@ == download_source_missing_message(model_id@))
                && final(self).task == old(self).task,
            source_found && (old(self).task matches Some(t) && t.progress.running) ==> (r matches Err(e)
                && e@ == download_running_message(old(self).task->0.model_id@))
                && final(self).task == old(self).task,
            source_found && !(old(self).task matches Some(t) && t.progress.running) ==> {
                &&& r is Ok
                &&& final(self).task matches Some(t) && {
                    &&& t.model_id == model_id
                    &&& !t.cancel_requested
                    &&& t.progress.running
                    &&& t.progress.model_id == model_id
                    &&& t.progress.role@ == Seq::<char>::empty()
                    &&& t.progress.file_name@ == Seq::<char>::empty()
                    &&& t.progress.file_index == 0
                    &&& t.progress.file_count == 0
                    &&& t.progress.downloaded_bytes == 0
                    &&& t.progress.total_bytes is None
                    &&& t.progress.error is None
                    &&& t.progress.result is None
                }
            },
    {
        if !source_found {
            let mut v: Vec<char> = Vec::new();
            push_str_chars(&mut v, "model_download_source_missing: unsupported model id '");
            push_str_chars(&mut v, model_id.as_str());
            push_str_chars(&mut v, "'");
            return Err(string_from_chars(&v));
        }
        let current = match &self.task {
            Some(t) => Some((t.model_id.as_str(), t.progress.running)),
            None => None,
        };
        match check_download_can_start(current) {
            Err(e) => Err(e),
            Ok(()) => {
                let progress = ModelDownloadProgress::started(model_id.clone());
                self.task = Some(ModelDownloadTask { model_id, cancel_requested: false, progress });
                Ok(())
            },
        }
    }

    /// Asks the download to stop: nothing when none was started (false); otherwise the
    /// task is asked to stop and is otherwise unchanged (true).
    pub fn cancel(&mut self) -> (had_task: bool)
        ensures
            had_task == old(self).task is Some,
            old(self).task is None ==> final(self).task is None,
            old(self).task matches Some(t) ==> final(self).task matches Some(u) && u.cancel_requested
                && u.model_id == t.model_id && u.progress == t.progress,
    {
        match &mut self.task {
            Some(t) => {
                t.cancel_requested = true;
                true
            },
            None => false,
        }
    }

    /// Whether the models may move: not while the last download still runs.
    pub fn ensure_idle(&self) -> (r: Result<(), String>)
        ensures
            (self.task matches Some(t) && t.progress.running) ==> (r matches Err(e) && e@
                == storage_busy_message()),
            !(self.task matches Some(t) && t.progress.running) ==> r is Ok,
    {
        let running = match &self.task {
            Some(t) => Some(t.progress.running),
            None => None,
        };
        ensure_no_model_download_running(running)
    }
}

} // verus!
