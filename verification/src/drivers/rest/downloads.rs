use vstd::prelude::*;

use crate::text::str_eq;

verus! {

/// Where a download stands.
#[derive(Debug, Clone, Copy, PartialEq, Eq, Structural)]
pub enum SessionStatus {
    Downloading,
    Complete,
    Error,
}

/// A download that clients follow: the name it is offered under, its progress, and its
/// result once it ended.
pub struct DownloadSession {
    pub filename: String,
    pub bytes_downloaded: u64,
    pub total_bytes: u64,
    pub status: SessionStatus,
    pub error: Option<String>,
    pub data: Option<Vec<u8>>,
}

/// A download session as values.
pub struct SessionView {
    pub filename: Seq<char>,
    pub bytes_downloaded: u64,
    pub total_bytes: u64,
    pub status: SessionStatus,
    pub error: Option<Seq<char>>,
    pub data: Option<Seq<u8>>,
}

impl DownloadSession {
    /// The session as values.
    pub open spec fn sv(&self) -> SessionView {
        SessionView {
            filename: self.filename@,
            bytes_downloaded: self.bytes_downloaded,
            total_bytes: self.total_bytes,
            status: self.status,
            error: match self.error {
                Some(e) => Some(e@),
                None => None,
            },
            data: match self.data {
                Some(d) => Some(d@),
                None => None,
            },
        }
    }
}

/// A session that just started: nothing downloaded yet.
pub open spec fn fresh_session(filename: Seq<char>, total_bytes: u64) -> SessionView {
    SessionView {
        filename,
        bytes_downloaded: 0,
        total_bytes,
        status: SessionStatus::Downloading,
        error: None,
        data: None,
    }
}

/// The sessions of a registry by id, as values.
pub type RegistryView = Seq<(Seq<char>, SessionView)>;

/// Position of the session `id`, or the number of sessions when there is none.
pub open spec fn spec_find(v: RegistryView, id: Seq<char>) -> int
    decreases v.len(),
{
    if v.len() == 0 {
        0
    } else if spec_find(v.drop_last(), id) < v.len() - 1 {
        spec_find(v.drop_last(), id)
    } else if v.last().0 == id {
        v.len() - 1
    } else {
        v.len() as int
    }
}

/// `spec_find` finds the session `id`, or none when there is none.
pub proof fn lemma_find(v: RegistryView, id: Seq<char>)
    ensures
        0 <= spec_find(v, id) <= v.len(),
        spec_find(v, id) < v.len() ==> v[spec_find(v, id)].0 == id,
        forall|i: int| 0 <= i < spec_find(v, id) ==> (#[trigger] v[i]).0 != id,
    decreases v.len(),
{
    if v.len() > 0 {
        lemma_find(v.drop_last(), id);
        assert forall|i: int| 0 <= i < v.len() - 1 implies #[trigger] v[i] == v.drop_last()[i] by {}
    }
}

/// The registry after starting the session `id` as `s`: it replaces a session of that id,
/// or comes last.
pub open spec fn spec_start(v: RegistryView, id: Seq<char>, s: SessionView) -> RegistryView {
    let f = spec_find(v, id);
    if f < v.len() { v.update(f, (id, s)) } else { v.push((id, s)) }
}

/// The registry after `bytes` of the download `id` arrived; unchanged when no session has
/// that id.
pub open spec fn spec_set_progress(v: RegistryView, id: Seq<char>, bytes: u64) -> RegistryView {
    let f = spec_find(v, id);
    if f < v.len() {
        v.update(f, (v[f].0, SessionView { bytes_downloaded: bytes, ..v[f].1 }))
    } else {
        v
    }
}

/// The registry after a run of progress reports of the download `id`, in order.
pub open spec fn spec_progress_run(v: RegistryView, id: Seq<char>, reports: Seq<u64>) -> RegistryView
    decreases reports.len(),
{
    if reports.len() == 0 {
        v
    } else {
        spec_set_progress(spec_progress_run(v, id, reports.drop_last()), id, reports.last())
    }
}

/// The registry after the download `id` ended with `result`: its data and `Complete`, or its
/// error and `Error`; unchanged when no session has that id.
pub open spec fn spec_finish(v: RegistryView, id: Seq<char>, result: Result<Seq<u8>, Seq<char>>) -> RegistryView {
    let f = spec_find(v, id);
    if f < v.len() {
        let s = v[f].1;
        v.update(f, (v[f].0, match result {
            Ok(d) => SessionView { status: SessionStatus::Complete, data: Some(d), ..s },
            Err(e) => SessionView { status: SessionStatus::Error, error: Some(e), ..s },
        }))
    } else {
        v
    }
}

/// What taking the data of the download `id` hands out, with the registry after it: the
/// name and data of a completed session, which is forgotten; otherwise nothing, and the
/// registry is unchanged.
pub open spec fn spec_take(v: RegistryView, id: Seq<char>) -> (Option<(Seq<char>, Seq<u8>)>, RegistryView) {
    let f = spec_find(v, id);
    if f < v.len() && v[f].1.status == SessionStatus::Complete && v[f].1.data is Some {
        (Some((v[f].1.filename, v[f].1.data->0)), v.remove(f))
    } else {
        (None, v)
    }
}

/// The first session of an id keeps its position when that session is replaced.
proof fn lemma_find_after_update(v: RegistryView, id: Seq<char>, e: (Seq<char>, SessionView))
    requires
        spec_find(v, id) < v.len(),
        e.0 == id,
    ensures
        spec_find(v.update(spec_find(v, id), e), id) == spec_find(v, id),
{
    let f = spec_find(v, id);
    let w = v.update(f, e);
    lemma_find(v, id);
    lemma_find(w, id);
    let g = spec_find(w, id);
    assert(w[f].0 == id);
    if g < f {
        assert(w[g] == v[g]);
        assert(v[g].0 != id);
    }
}

/// A download that was started and then completed hands out the name it started with and
/// the data it completed with.
pub proof fn lemma_completed_download_taken(v: RegistryView, id: Seq<char>, filename: Seq<char>, total_bytes: u64, data: Seq<u8>)
    ensures
        spec_take(spec_finish(spec_start(v, id, fresh_session(filename, total_bytes)), id, Ok(data)), id).0
            == Some((filename, data)),
{
    lemma_find(v, id);
    let s = fresh_session(filename, total_bytes);
    let started = spec_start(v, id, s);
    let f = spec_find(v, id);
    if f < v.len() {
        lemma_find_after_update(v, id, (id, s));
    } else {
        lemma_find(started, id);
        let g = spec_find(started, id);
        if g < v.len() {
            assert(started[g] == v[g]);
        }
        assert(started[v.len() as int].0 == id);
    }
    let p = spec_find(started, id);
    assert(p < started.len());
    lemma_find_after_update(started, id, (started[p].0, SessionView { status: SessionStatus::Complete, data: Some(data), ..started[p].1 }));
}

/// A started download that only reports progress stays where it started, under the name and
/// total it started with, still downloading, with the last progress reported (none yet: 0);
/// when no report exceeds the total, neither does its progress.
pub proof fn lemma_progress_run(v: RegistryView, id: Seq<char>, filename: Seq<char>, total_bytes: u64, reports: Seq<u64>)
    ensures
        ({
            let w = spec_progress_run(spec_start(v, id, fresh_session(filename, total_bytes)), id, reports);
            let f = spec_find(w, id);
            &&& f < w.len()
            &&& w[f].1.filename == filename
            &&& w[f].1.total_bytes == total_bytes
            &&& w[f].1.status == SessionStatus::Downloading
            &&& w[f].1.bytes_downloaded == if reports.len() == 0 { 0 } else { reports.last() }
            &&& (forall|k: int| 0 <= k < reports.len() ==> #[trigger] reports[k] <= total_bytes)
                ==> w[f].1.bytes_downloaded <= total_bytes
        }),
    decreases reports.len(),
{
    let s = fresh_session(filename, total_bytes);
    let started = spec_start(v, id, s);
    lemma_find(v, id);
    if spec_find(v, id) < v.len() {
        lemma_find_after_update(v, id, (id, s));
    } else {
        lemma_find(started, id);
        let g = spec_find(started, id);
        if g < v.len() {
            assert(started[g] == v[g]);
        }
        assert(started[v.len() as int].0 == id);
    }
    if reports.len() > 0 {
        let d = reports.drop_last();
        lemma_progress_run(v, id, filename, total_bytes, d);
        let w0 = spec_progress_run(started, id, d);
        let f = spec_find(w0, id);
        lemma_find(w0, id);
        lemma_find_after_update(w0, id, (w0[f].0, SessionView { bytes_downloaded: reports.last(), ..w0[f].1 }));
        if forall|k: int| 0 <= k < reports.len() ==> #[trigger] reports[k] <= total_bytes {
            assert(reports[reports.len() - 1] <= total_bytes);
        }
    }
}

/// Data is handed out once: after a take that gave the data of the download `id`, no
/// session of that id is left, so another take gives nothing and there is no progress to
/// report.
pub proof fn lemma_take_once(v: RegistryView, id: Seq<char>)
    requires
        unique_ids(v),
        spec_take(v, id).0 is Some,
    ensures
        spec_find(spec_take(v, id).1, id) == spec_take(v, id).1.len(),
        spec_take(spec_take(v, id).1, id).0 is None,
{
    let f = spec_find(v, id);
    lemma_find(v, id);
    let w = spec_take(v, id).1;
    lemma_find(w, id);
    let g = spec_find(w, id);
    if g < w.len() {
        let a = if g < f { g } else { g + 1 };
        assert(w[g] == v[a]);
        assert(v[f].0 == id);
        if a < f {
            assert(v[a].0 != id);
        } else {
            assert(v[f].0 != v[a].0);
        }
    }
}

/// Each id names one session at most.
pub open spec fn unique_ids(v: RegistryView) -> bool {
    forall|i: int, j: int| 0 <= i < j < v.len() ==> (#[trigger] v[i]).0 != (#[trigger] v[j]).0
}

/// What a client sees of a download.
#[derive(Debug)]
pub struct DownloadReport {
    pub filename: String,
    pub bytes_downloaded: u64,
    pub total_bytes: u64,
    pub status: SessionStatus,
    pub error: Option<String>,
}

/// The downloads that clients follow, by download id.
pub struct DownloadRegistry {
    sessions: Vec<(String, DownloadSession)>,
}

impl View for DownloadRegistry {
    type V = RegistryView;

    closed spec fn view(&self) -> RegistryView {
        self.sessions@.map_values(|e: (String, DownloadSession)| (e.0@, e.1.sv()))
    }
}

impl DownloadRegistry {
    /// Each id names one session at most.
    pub open spec fn wf(&self) -> bool {
        unique_ids(self@)
    }

    /// A registry without downloads.
    pub fn new() -> (r: Self)
        ensures
            r.wf(),
            r@ == Seq::<(Seq<char>, SessionView)>::empty(),
    {
        let r = DownloadRegistry { sessions: Vec::new() };
        assert(r@ =~= Seq::<(Seq<char>, SessionView)>::empty());
        r
    }

    /// The position of the session `id`, or the number of sessions.
    fn find(&self, id: &str) -> (r: usize)
        ensures
            r == spec_find(self@, id@),
    {
        proof {
            lemma_find(self@, id@);
        }
        let mut i: usize = 0;
        while i < self.sessions.len() && !str_eq(self.sessions[i].0.as_str(), id)
            invariant
                0 <= i <= self.sessions@.len(),
                self@.len() == self.sessions@.len(),
                forall|k: int| 0 <= k < i ==> (#[trigger] self@[k]).0 != id@,
                0 <= spec_find(self@, id@) <= self@.len(),
                spec_find(self@, id@) < self@.len() ==> self@[spec_find(self@, id@)].0 == id@,
                forall|k: int| 0 <= k < spec_find(self@, id@) ==> (#[trigger] self@[k]).0 != id@,
            decreases self.sessions@.len() - i,
        {
            assert(self@[i as int].0 == self.sessions@[i as int].0@);
            i = i + 1;
        }
        if i < self.sessions.len() {
            assert(self@[i as int].0 == self.sessions@[i as int].0@);
        }
        i
    }

    /// Starts following a download under `id`, replacing any session of that id.
    pub fn start(&mut self, id: String, filename: String, total_bytes: u64)
        requires
            old(self).wf(),
        ensures
            final(self).wf(),
            final(self)@ == spec_start(old(self)@, id@, fresh_session(filename@, total_bytes)),
    {
        proof {
            lemma_find(self@, id@);
        }
        let f = self.find(id.as_str());
        let ghost v = self@;
        let session = DownloadSession {
            filename,
            bytes_downloaded: 0,
            total_bytes,
            status: SessionStatus::Downloading,
            error: None,
            data: None,
        };
        if f < self.sessions.len() {
            self.sessions.set(f, (id, session));
            proof {
                assert(self@ =~= v.update(f as int, (id@, fresh_session(filename@, total_bytes))));
                assert forall|i: int, j: int| 0 <= i < j < self@.len() implies (#[trigger] self@[i]).0 != (#[trigger] self@[j]).0 by {
                    assert(self@[i].0 == v[i].0 && self@[j].0 == v[j].0);
                }
            }
        } else {
            self.sessions.push((id, session));
            proof {
                assert(self@ =~= v.push((id@, fresh_session(filename@, total_bytes))));
                assert forall|i: int, j: int| 0 <= i < j < self@.len() implies (#[trigger] self@[i]).0 != (#[trigger] self@[j]).0 by {
                    if j == v.len() {
                        assert(v[i].0 != id@);
                    }
                }
            }
        }
    }

    /// Records that `bytes` of the download `id` arrived; nothing when no session has that id.
    pub fn set_progress(&mut self, id: &str, bytes: u64)
        requires
            old(self).wf(),
        ensures
            final(self).wf(),
            final(self)@ == spec_set_progress(old(self)@, id@, bytes),
    {
        let f = self.find(id);
        if f < self.sessions.len() {
            let ghost v = self@;
            let mut entry = self.sessions.remove(f);
            entry.1.bytes_downloaded = bytes;
            self.sessions.insert(f, entry);
            proof {
                assert(self@ =~= v.update(f as int, (v[f as int].0, SessionView { bytes_downloaded: bytes, ..v[f as int].1 })));
                assert forall|i: int, j: int| 0 <= i < j < self@.len() implies (#[trigger] self@[i]).0 != (#[trigger] self@[j]).0 by {
                    assert(self@[i].0 == v[i].0 && self@[j].0 == v[j].0);
                }
            }
        }
    }

    /// Records how the download `id` ended: its data and `Complete`, or its error and
    /// `Error`; nothing when no session has that id (it was cancelled).
    pub fn finish(&mut self, id: &str, result: Result<Vec<u8>, String>)
        requires
            old(self).wf(),
        ensures
            final(self).wf(),
            final(self)@ == spec_finish(old(self)@, id@, match result {
                Ok(d) => Ok(d@),
                Err(e) => Err(e@),
            }),
    {
        let f = self.find(id);
        if f < self.sessions.len() {
            let ghost v = self@;
            let ghost s = v[f as int].1;
            let mut entry = self.sessions.remove(f);
            match result {
                Ok(d) => {
                    entry.1.data = Some(d);
                    entry.1.status = SessionStatus::Complete;
                },
                Err(e) => {
                    entry.1.error = Some(e);
                    entry.1.status = SessionStatus::Error;
                },
            }
            self.sessions.insert(f, entry);
            proof {
                assert(self@ =~= v.update(f as int, (v[f as int].0, match result {
                    Ok(d) => SessionView { status: SessionStatus::Complete, data: Some(d@), ..s },
                    Err(e) => SessionView { status: SessionStatus::Error, error: Some(e@), ..s },
                })));
                assert forall|i: int, j: int| 0 <= i < j < self@.len() implies (#[trigger] self@[i]).0 != (#[trigger] self@[j]).0 by {
                    assert(self@[i].0 == v[i].0 && self@[j].0 == v[j].0);
                }
            }
        }
    }

    /// What a client sees of the download `id`, `None` when no session has that id.
    pub fn report(&self, id: &str) -> (r: Option<DownloadReport>)
        ensures
            r is None <==> spec_find(self@, id@) == self@.len(),
            r matches Some(rep) ==> {
                let s = self@[spec_find(self@, id@)].1;
                &&& rep.filename@ == s.filename
                &&& rep.bytes_downloaded == s.bytes_downloaded
                &&& rep.total_bytes == s.total_bytes
                &&& rep.status == s.status
                &&& match rep.error {
                    Some(e) => s.error == Some(e@),
                    None => s.error is None,
                }
            },
    {
        proof {
            lemma_find(self@, id@);
        }
        let f = self.find(id);
        if f == self.sessions.len() {
            return None;
        }
        let s = &self.sessions[f].1;
        let error = match &s.error {
            Some(e) => Some(e.clone()),
            None => None,
        };
        Some(DownloadReport {
            filename: s.filename.clone(),
            bytes_downloaded: s.bytes_downloaded,
            total_bytes: s.total_bytes,
            status: s.status,
            error,
        })
    }

    /// Hands out the data of the completed download `id` with its name and forgets the
    /// session; `None`, leaving the registry as it was, when there is no such session, it
    /// has not completed, or its data is gone.
    pub fn take(&mut self, id: &str) -> (r: Option<(String, Vec<u8>)>)
        requires
            old(self).wf(),
        ensures
            final(self).wf(),
            (match r {
                Some((name, data)) => Some((name@, data@)),
                None => None,
            }, final(self)@) == spec_take(old(self)@, id@),
    {
        proof {
            lemma_find(self@, id@);
        }
        let f = self.find(id);
        if f == self.sessions.len() {
            return None;
        }
        if self.sessions[f].1.status != SessionStatus::Complete {
            return None;
        }
        if self.sessions[f].1.data.is_none() {
            return None;
        }
        let ghost v = self@;
        let (_, session) = self.sessions.remove(f);
        proof {
            assert(self@ =~= v.remove(f as int));
            assert forall|i: int, j: int| 0 <= i < j < self@.len() implies (#[trigger] self@[i]).0 != (#[trigger] self@[j]).0 by {
                let a = if i < f { i } else { i + 1 };
                let b = if j < f { j } else { j + 1 };
                assert(self@[i] == v[a] && self@[j] == v[b]);
            }
        }
        match session.data {
            Some(data) => Some((session.filename, data)),
            None => None,
        }
    }

    /// Stops following the download `id`; returns whether there was such a session.
    pub fn cancel(&mut self, id: &str) -> (found: bool)
        requires
            old(self).wf(),
        ensures
            final(self).wf(),
            found == (spec_find(old(self)@, id@) < old(self)@.len()),
            final(self)@ == if found { old(self)@.remove(spec_find(old(self)@, id@)) } else { old(self)@ },
    {
        let f = self.find(id);
        if f == self.sessions.len() {
            return false;
        }
        let ghost v = self@;
        let _ = self.sessions.remove(f);
        proof {
            assert(self@ =~= v.remove(f as int));
            assert forall|i: int, j: int| 0 <= i < j < self@.len() implies (#[trigger] self@[i]).0 != (#[trigger] self@[j]).0 by {
                let a = if i < f { i } else { i + 1 };
                let b = if j < f { j } else { j + 1 };
                assert(self@[i] == v[a] && self@[j] == v[b]);
            }
        }
        true
    }
}

} // verus!
