use vstd::prelude::*;

use super::protocol::{LogDataPacket, LOG_CHUNK_BINS, LOG_CHUNK_SIZE, LOG_DATA_PACKET_SIZE};

verus! {

/// Number of `true` entries in a sequence of flags.
pub open spec fn count_true(s: Seq<bool>) -> nat
    decreases s.len(),
{
    if s.len() == 0 {
        0
    } else {
        count_true(s.drop_last()) + if s.last() { 1nat } else { 0nat }
    }
}

/// Smallest number of `size`-byte pieces that cover `total` bytes.
pub open spec fn div_ceil_spec(total: int, size: int) -> int {
    (total + size - 1) / size
}

/// Number of `LOG_DATA` bins of a file of `file_size` bytes.
pub open spec fn num_bins_of(file_size: int) -> int {
    div_ceil_spec(file_size, LOG_DATA_PACKET_SIZE as int)
}

/// Number of download chunks of a file of `file_size` bytes.
pub open spec fn num_chunks_of(file_size: int) -> int {
    div_ceil_spec(file_size, LOG_CHUNK_SIZE as int)
}

/// No more bins are counted as received than there are bins.
pub proof fn lemma_count_true_bound(s: Seq<bool>)
    ensures
        count_true(s) <= s.len(),
    decreases s.len(),
{
    if s.len() > 0 {
        lemma_count_true_bound(s.drop_last());
    }
}

/// All bins are received exactly when the count reaches the number of bins.
pub proof fn lemma_count_true_all(s: Seq<bool>)
    ensures
        count_true(s) == s.len() <==> (forall|i: int| 0 <= i < s.len() ==> #[trigger] s[i]),
    decreases s.len(),
{
    if s.len() > 0 {
        lemma_count_true_all(s.drop_last());
        lemma_count_true_bound(s.drop_last());
        if forall|i: int| 0 <= i < s.len() ==> #[trigger] s[i] {
            assert forall|i: int| 0 <= i < s.drop_last().len() implies #[trigger] s.drop_last()[i] by {
                assert(s[i]);
            }
        }
        if count_true(s) == s.len() {
            assert forall|i: int| 0 <= i < s.len() implies #[trigger] s[i] by {
                if i < s.len() - 1 {
                    assert(s.drop_last()[i]);
                }
            }
        }
    }
}

/// Marking a bin received counts it once more, unless it already was.
pub proof fn lemma_count_true_set(s: Seq<bool>, i: int)
    requires
        0 <= i < s.len(),
    ensures
        count_true(s.update(i, true)) == count_true(s) + if s[i] { 0int } else { 1int },
    decreases s.len(),
{
    let t = s.update(i, true);
    if i == s.len() - 1 {
        assert(t.drop_last() =~= s.drop_last());
    } else {
        lemma_count_true_set(s.drop_last(), i);
        assert(t.drop_last() =~= s.drop_last().update(i, true));
    }
}

/// No bin of a fresh download is counted as received.
pub proof fn lemma_count_true_all_false(n: nat)
    ensures
        count_true(Seq::new(n, |_i: int| false)) == 0,
    decreases n,
{
    if n > 0 {
        lemma_count_true_all_false((n - 1) as nat);
        assert(Seq::new(n, |_i: int| false).drop_last() =~= Seq::new((n - 1) as nat, |_i: int| false));
    }
}

/// The window of bins that belong to one download chunk.
#[derive(Clone, Copy, Debug)]
pub struct ChunkWindow {
    pub first_bin: usize,
    pub last_bin: usize,
    pub end_byte: usize,
}

impl ChunkWindow {
    /// The bins of the window form a non-empty range that ends before `end_byte`.
    pub open spec fn wf(self) -> bool {
        &&& self.first_bin <= self.last_bin
        &&& self.last_bin * LOG_DATA_PACKET_SIZE < self.end_byte
    }

    /// Whether bin `i` of the window is still missing.
    pub open spec fn is_gap(self, received: Seq<bool>, i: int) -> bool {
        self.first_bin <= i <= self.last_bin && !received[i]
    }

    /// Whether every bin of the window was received.
    pub open spec fn spec_complete(self, received: Seq<bool>) -> bool {
        forall|i: int| self.first_bin <= i <= self.last_bin ==> #[trigger] received[i]
    }

    /// The window's bins can be looked up in `received`.
    pub open spec fn in_range(self, received: Seq<bool>) -> bool {
        &&& self.first_bin <= self.last_bin + 1
        &&& self.last_bin < received.len()
    }

    /// `gap` is the first missing bin of the window.
    pub open spec fn is_first_gap(self, received: Seq<bool>, gap: int) -> bool {
        &&& self.is_gap(received, gap)
        &&& forall|j: int| self.first_bin <= j < gap ==> #[trigger] received[j]
    }

    /// The first missing bin of the window and the byte request that covers it up to the
    /// end of the window: `(offset, remaining bytes)`, or `None` when the window is complete.
    pub fn first_gap_request(&self, received: &[bool]) -> (r: Option<(usize, usize)>)
        requires
            self.in_range(received@),
            forall|gap: int| #[trigger] self.is_first_gap(received@, gap)
                ==> gap * LOG_DATA_PACKET_SIZE <= self.end_byte,
        ensures
            r is None <==> self.spec_complete(received@),
            r matches Some((ofs, count)) ==> exists|gap: int|
                #![trigger received@[gap]]
                {
                    &&& self.is_first_gap(received@, gap)
                    &&& ofs == gap * LOG_DATA_PACKET_SIZE
                    &&& count == self.end_byte - gap * LOG_DATA_PACKET_SIZE
                },
    {
        let mut bin = self.first_bin;
        while bin <= self.last_bin
            invariant
                self.in_range(received@),
                forall|gap: int| #[trigger] self.is_first_gap(received@, gap)
                    ==> gap * LOG_DATA_PACKET_SIZE <= self.end_byte,
                self.first_bin <= bin <= self.last_bin + 1,
                forall|j: int| self.first_bin <= j < bin ==> #[trigger] received@[j],
            decreases self.last_bin + 1 - bin,
        {
            if !received[bin] {
                assert(self.is_first_gap(received@, bin as int));
                let ofs = bin * LOG_DATA_PACKET_SIZE;
                assert(received@[bin as int] == false);
                return Some((ofs, self.end_byte - ofs));
            }
            bin = bin + 1;
        }
        None
    }

    /// Whether every bin of the window was received.
    pub fn is_complete(&self, received: &[bool]) -> (r: bool)
        requires
            self.in_range(received@),
        ensures
            r == self.spec_complete(received@),
    {
        let mut bin = self.first_bin;
        while bin <= self.last_bin
            invariant
                self.in_range(received@),
                self.first_bin <= bin <= self.last_bin + 1,
                forall|j: int| self.first_bin <= j < bin ==> #[trigger] received@[j],
            decreases self.last_bin + 1 - bin,
        {
            if !received[bin] {
                return false;
            }
            bin = bin + 1;
        }
        true
    }

    /// A well-formed window that fits in `received` can be searched for gaps: every bin
    /// starts before the end of the window.
    pub proof fn lemma_wf_window_searchable(self, received: Seq<bool>)
        requires
            self.wf(),
            self.last_bin < received.len(),
        ensures
            self.in_range(received),
            forall|gap: int| #[trigger] self.is_first_gap(received, gap)
                ==> gap * LOG_DATA_PACKET_SIZE <= self.end_byte,
    {
        assert forall|gap: int| #[trigger] self.is_first_gap(received, gap)
            implies gap * LOG_DATA_PACKET_SIZE <= self.end_byte by {
            let last = self.last_bin as int;
            assert(gap * LOG_DATA_PACKET_SIZE <= last * LOG_DATA_PACKET_SIZE) by (nonlinear_arith)
                requires
                    gap <= last,
            ;
        }
    }
}

/// Progress of one log download: the file being assembled and which bins arrived.
pub struct DownloadState {
    pub file_data: Vec<u8>,
    pub received: Vec<bool>,
    pub received_count: usize,
    pub num_bins: usize,
    pub num_chunks: usize,
    pub current_chunk: usize,
    pub total_packets: u64,
    pub duplicate_packets: u64,
}

impl DownloadState {
    /// The bookkeeping of the download agrees with the file it assembles.
    pub open spec fn wf(&self) -> bool {
        &&& self.file_data@.len() <= isize::MAX
        &&& self.num_bins == num_bins_of(self.file_data@.len() as int)
        &&& self.num_chunks == num_chunks_of(self.file_data@.len() as int)
        &&& self.received@.len() == self.num_bins
        &&& self.received_count == count_true(self.received@)
        &&& self.current_chunk <= self.num_chunks
    }

    /// Starts the download of a file of `file_size` bytes with nothing received.
    pub fn new(file_size: usize) -> (s: Self)
        requires
            file_size <= isize::MAX,
        ensures
            s.wf(),
            s.file_data@ == Seq::new(file_size as nat, |_i: int| 0u8),
            s.received@ == Seq::new(s.num_bins as nat, |_i: int| false),
            s.received_count == 0,
            s.current_chunk == 0,
            s.total_packets == 0,
            s.duplicate_packets == 0,
    {
        let num_bins = file_size / LOG_DATA_PACKET_SIZE + if file_size % LOG_DATA_PACKET_SIZE == 0 { 0 } else { 1 };
        let num_chunks = file_size / LOG_CHUNK_SIZE + if file_size % LOG_CHUNK_SIZE == 0 { 0 } else { 1 };
        let file_data = vec![0u8; file_size];
        let received = vec![false; num_bins];
        proof {
            lemma_count_true_all_false(num_bins as nat);
            assert(received@ =~= Seq::new(num_bins as nat, |_i: int| false));
            assert(file_data@ =~= Seq::new(file_size as nat, |_i: int| 0u8));
        }
        DownloadState {
            file_data,
            received,
            received_count: 0,
            num_bins,
            num_chunks,
            current_chunk: 0,
            total_packets: 0,
            duplicate_packets: 0,
        }
    }

    /// The window of the current chunk, when it starts before `file_size`.
    pub open spec fn spec_chunk_window(current_chunk: int, file_size: int) -> Option<(int, int, int)> {
        let chunk_ofs = current_chunk * LOG_CHUNK_SIZE;
        if chunk_ofs >= file_size {
            None
        } else {
            let chunk_end = if chunk_ofs + LOG_CHUNK_SIZE < file_size {
                chunk_ofs + LOG_CHUNK_SIZE
            } else {
                file_size
            };
            Some(
                (
                    chunk_ofs / LOG_DATA_PACKET_SIZE as int,
                    (chunk_end - 1) / LOG_DATA_PACKET_SIZE as int,
                    chunk_end,
                ),
            )
        }
    }

    /// The window of bins of the current chunk, or `None` once the chunk starts at or after
    /// `file_size`.
    pub fn current_chunk_window(&self, file_size: usize) -> (r: Option<ChunkWindow>)
        requires
            self.wf(),
            file_size <= isize::MAX,
        ensures
            match Self::spec_chunk_window(self.current_chunk as int, file_size as int) {
                None => r is None,
                Some((first, last, end)) => r matches Some(w) && w.first_bin == first
                    && w.last_bin == last && w.end_byte == end,
            },
            r matches Some(w) ==> w.wf(),
            r matches Some(w) ==> (file_size <= self.file_data@.len() ==> w.last_bin < self.received@.len()),
    {
        let n = self.current_chunk;
        assert(n * LOG_CHUNK_SIZE <= self.num_chunks * LOG_CHUNK_SIZE) by (nonlinear_arith)
            requires n <= self.num_chunks;
        let len = self.file_data.len();
        assert(self.num_chunks * LOG_CHUNK_SIZE <= len + LOG_CHUNK_SIZE) by (nonlinear_arith)
            requires self.num_chunks == (len + LOG_CHUNK_SIZE - 1) / LOG_CHUNK_SIZE as int;
        let chunk_ofs = n * LOG_CHUNK_SIZE;
        if chunk_ofs >= file_size {
            return None;
        }
        let chunk_end = if chunk_ofs + LOG_CHUNK_SIZE < file_size {
            chunk_ofs + LOG_CHUNK_SIZE
        } else {
            file_size
        };
        let w = ChunkWindow {
            first_bin: chunk_ofs / LOG_DATA_PACKET_SIZE,
            last_bin: (chunk_end - 1) / LOG_DATA_PACKET_SIZE,
            end_byte: chunk_end,
        };
        assert(w.first_bin <= w.last_bin) by (nonlinear_arith)
            requires w.first_bin == chunk_ofs / 90, w.last_bin == (chunk_end - 1) / 90, chunk_ofs <= chunk_end - 1;
        assert(w.last_bin * 90 < w.end_byte) by (nonlinear_arith)
            requires w.last_bin == (chunk_end - 1) / 90, w.end_byte == chunk_end, chunk_end >= 1;
        assert(file_size <= len ==> w.last_bin < self.num_bins) by (nonlinear_arith)
            requires
                w.last_bin == (chunk_end - 1) / 90,
                chunk_end <= file_size,
                self.num_bins == (len + 90 - 1) / 90,
                chunk_end >= 1,
        ;
        Some(w)
    }

    /// The bins touched by a packet that starts at byte `ofs` and ends before `end`.
    pub open spec fn packet_bins(ofs: int, end: int, i: int) -> bool {
        ofs / LOG_DATA_PACKET_SIZE as int <= i <= (end - 1) / LOG_DATA_PACKET_SIZE as int
    }

    /// Copies a `LOG_DATA` packet into the file and marks the bins it covers.
    /// Returns whether any of those bins was new.
    pub fn apply_packet(&mut self, packet: &LogDataPacket) -> (new_bins: bool)
        requires
            old(self).wf(),
            old(self).total_packets < u64::MAX,
            old(self).duplicate_packets < u64::MAX,
            (packet.ofs as int) < old(self).file_data@.len() && packet.count > 0 ==> (if packet.ofs
                + packet.count <= old(self).file_data@.len() {
                packet.ofs + packet.count
            } else {
                old(self).file_data@.len() as int
            }) - packet.ofs <= LOG_DATA_PACKET_SIZE,
        ensures
            final(self).wf(),
            final(self).num_bins == old(self).num_bins,
            final(self).current_chunk == old(self).current_chunk,
            final(self).file_data@.len() == old(self).file_data@.len(),
            ({
                let len = old(self).file_data@.len() as int;
                let ofs = packet.ofs as int;
                let end = if ofs + packet.count <= len { ofs + packet.count } else { len };
                if ofs >= len || packet.count == 0 {
                    &&& !new_bins
                    &&& *final(self) == *old(self)
                } else {
                    &&& final(self).file_data@ == old(self).file_data@.subrange(0, ofs)
                        + packet.data@.subrange(0, end - ofs) + old(self).file_data@.subrange(end, len)
                    &&& final(self).received@.len() == old(self).received@.len()
                    &&& forall|i: int| 0 <= i < old(self).received@.len() ==>
                        #[trigger] final(self).received@[i] == (old(self).received@[i]
                            || Self::packet_bins(ofs, end, i))
                    &&& new_bins == exists|i: int| 0 <= i < old(self).received@.len()
                        && Self::packet_bins(ofs, end, i) && !#[trigger] old(self).received@[i]
                    &&& final(self).total_packets == old(self).total_packets + 1
                    &&& final(self).duplicate_packets == old(self).duplicate_packets + if new_bins { 0int } else { 1int }
                }
            }),
    {
        let ofs = packet.ofs as usize;
        let count = packet.count as usize;
        let len = self.file_data.len();
        if ofs >= len || count == 0 {
            return false;
        }
        self.total_packets = self.total_packets + 1;
        let end = if ofs + count <= len { ofs + count } else { len };
        let data_len = end - ofs;
        let ghost old_data = self.file_data@;
        let mut k: usize = 0;
        while k < data_len
            invariant
                ofs + data_len == end,
                end <= len,
                data_len <= 90,
                self.received@ == old(self).received@,
                self.received_count == old(self).received_count,
                self.num_bins == old(self).num_bins,
                self.num_chunks == old(self).num_chunks,
                self.current_chunk == old(self).current_chunk,
                self.total_packets == old(self).total_packets + 1,
                self.duplicate_packets == old(self).duplicate_packets,
                self.file_data@.len() == len,
                old_data.len() == len,
                0 <= k <= data_len,
                forall|i: int| 0 <= i < ofs ==> self.file_data@[i] == old_data[i],
                forall|i: int| end <= i < len ==> self.file_data@[i] == old_data[i],
                forall|i: int| ofs + k <= i < end ==> self.file_data@[i] == old_data[i],
                forall|i: int| ofs <= i < ofs + k ==> self.file_data@[i] == packet.data@[i - ofs],
            decreases data_len - k,
        {
            self.file_data.set(ofs + k, packet.data[k]);
            k = k + 1;
        }
        proof {
            assert(self.file_data@ =~= old_data.subrange(0, ofs as int) + packet.data@.subrange(
                0,
                end - ofs,
            ) + old_data.subrange(end as int, len as int));
        }
        let first_bin = ofs / LOG_DATA_PACKET_SIZE;
        let last_bin = (end - 1) / LOG_DATA_PACKET_SIZE;
        let ghost old_received = self.received@;
        let ghost old_count = self.received_count;
        let mut new_bins = false;
        let mut bin = first_bin;
        let nbins = self.received.len();
        proof {
            lemma_count_true_bound(self.received@);
        }
        while bin <= last_bin
            invariant
                first_bin == ofs / 90,
                last_bin == (end - 1) / 90,
                first_bin <= bin <= last_bin + 1,
                nbins == self.received@.len(),
                old_received.len() == nbins,
                old_received == old(self).received@,
                self.file_data@ == old_data.subrange(0, ofs as int) + packet.data@.subrange(0, end - ofs) + old_data.subrange(end as int, len as int),
                self.num_bins == old(self).num_bins,
                self.num_chunks == old(self).num_chunks,
                self.current_chunk == old(self).current_chunk,
                self.total_packets == old(self).total_packets + 1,
                self.duplicate_packets == old(self).duplicate_packets,
                self.received_count == count_true(self.received@),
                self.received_count <= nbins,
                forall|i: int| 0 <= i < nbins ==> #[trigger] self.received@[i] == (old_received[i]
                    || (first_bin <= i < bin)),
                new_bins == exists|i: int| 0 <= i < nbins && first_bin <= i < bin
                    && !#[trigger] old_received[i],
            decreases last_bin + 1 - bin,
        {
            if bin < nbins && !self.received[bin] {
                proof {
                    lemma_count_true_set(self.received@, bin as int);
                    lemma_count_true_bound(self.received@.update(bin as int, true));
                }
                self.received.set(bin, true);
                self.received_count = self.received_count + 1;
                new_bins = true;
            }
            bin = bin + 1;
        }
        if !new_bins {
            self.duplicate_packets = self.duplicate_packets + 1;
        }
        proof {
            assert forall|i: int| 0 <= i < nbins implies #[trigger] self.received@[i] == (
            old_received[i] || Self::packet_bins(ofs as int, end as int, i)) by {}
        }
        new_bins
    }

    /// Bytes received so far, counting each received bin as a full packet, capped at the file size.
    pub open spec fn spec_bytes_received(&self) -> int {
        if self.received_count * LOG_DATA_PACKET_SIZE <= self.file_data@.len() {
            self.received_count * LOG_DATA_PACKET_SIZE
        } else {
            self.file_data@.len() as int
        }
    }

    /// Bytes received so far; see [`DownloadState::spec_bytes_received`].
    pub fn bytes_received(&self) -> (r: u64)
        requires
            self.wf(),
        ensures
            r == self.spec_bytes_received(),
    {
        proof {
            lemma_count_true_bound(self.received@);
        }
        let len = self.file_data.len() as u64;
        let count = self.received_count as u64;
        assert(count * 90 <= u64::MAX) by (nonlinear_arith)
            requires count <= self.num_bins, self.num_bins == (len + 89) / 90, len <= isize::MAX;
        let bytes = count * (LOG_DATA_PACKET_SIZE as u64);
        if bytes <= len { bytes } else { len }
    }
}


/// What downloading a chunk does when it checks its timers.
#[derive(Debug, Clone, Copy, PartialEq, Eq, Structural)]
pub enum ChunkTick {
    /// The chunk made no progress for too long: the download fails.
    Stalled,
    /// Stop working on this chunk: it is complete, or it ran out of retries.
    Done,
    /// Ask again for `count` bytes from `ofs`, the first missing bin of the chunk.
    Retry { ofs: usize, count: usize },
    /// Keep listening for data.
    Listen,
}

impl DownloadState {
    /// Checks the timers of the chunk being downloaded: a stalled chunk fails the download;
    /// when no data came for a while the chunk is asked for again from its first missing bin,
    /// until the retries exceed the limit or the chunk is complete.
    pub fn chunk_tick(&self, chunk: &ChunkWindow, stalled: bool, data_timed_out: bool, retries: &mut u32) -> (r: ChunkTick)
        requires
            chunk.wf(),
            chunk.last_bin < self.received@.len(),
            *old(retries) <= super::listing::LOG_MAX_RETRIES,
        ensures
            stalled ==> r == ChunkTick::Stalled && *final(retries) == *old(retries),
            !stalled && !data_timed_out ==> r == ChunkTick::Listen && *final(retries) == *old(retries),
            !stalled && data_timed_out ==> {
                &&& *final(retries) == *old(retries) + 1
                &&& (r == ChunkTick::Done) == (*final(retries) > super::listing::LOG_MAX_RETRIES
                    || chunk.spec_complete(self.received@))
                &&& r matches ChunkTick::Retry { ofs, count } ==> exists|gap: int|
                    #![trigger self.received@[gap]]
                    {
                        &&& chunk.is_gap(self.received@, gap)
                        &&& forall|j: int| chunk.first_bin <= j < gap ==> #[trigger] self.received@[j]
                        &&& ofs == gap * LOG_DATA_PACKET_SIZE
                        &&& count == chunk.end_byte - gap * LOG_DATA_PACKET_SIZE
                    }
                &&& r != ChunkTick::Listen && r != ChunkTick::Stalled
            },
    {
        if stalled {
            return ChunkTick::Stalled;
        }
        if !data_timed_out {
            return ChunkTick::Listen;
        }
        *retries = *retries + 1;
        if *retries > super::listing::LOG_MAX_RETRIES {
            return ChunkTick::Done;
        }
        proof {
            chunk.lemma_wf_window_searchable(self.received@);
        }
        match chunk.first_gap_request(self.received.as_slice()) {
            Some((ofs, count)) => ChunkTick::Retry { ofs, count },
            None => ChunkTick::Done,
        }
    }

    /// Whether the chunk is finished after a packet: the file or the chunk is complete.
    pub fn chunk_finished(&self, chunk: &ChunkWindow) -> (r: bool)
        requires
            chunk.wf(),
            chunk.last_bin < self.received@.len(),
        ensures
            r == (self.received_count >= self.num_bins || chunk.spec_complete(self.received@)),
    {
        proof {
            chunk.lemma_wf_window_searchable(self.received@);
        }
        self.received_count >= self.num_bins || chunk.is_complete(self.received.as_slice())
    }
}

impl DownloadState {
    /// Every bin of the chunks before the current one was received.
    pub open spec fn prefix_received(&self) -> bool {
        forall|i: int|
            0 <= i < self.num_bins && i < self.current_chunk * LOG_CHUNK_BINS
                ==> #[trigger] self.received@[i]
    }

    /// Moves past complete chunks and returns the window of the first incomplete chunk with
    /// the request `(offset, count)` for its first missing bin, or `None` once every bin of the
    /// file was received.
    pub fn next_request(&mut self) -> (r: Option<(ChunkWindow, usize, usize)>)
        requires
            old(self).wf(),
            old(self).prefix_received(),
        ensures
            final(self).wf(),
            final(self).prefix_received(),
            final(self).file_data@ == old(self).file_data@,
            final(self).received@ == old(self).received@,
            final(self).received_count == old(self).received_count,
            final(self).total_packets == old(self).total_packets,
            final(self).duplicate_packets == old(self).duplicate_packets,
            old(self).current_chunk <= final(self).current_chunk,
            r is None <==> final(self).received_count == final(self).num_bins,
            r is None ==> forall|i: int| 0 <= i < final(self).num_bins ==> #[trigger] final(self).received@[i],
            r matches Some((w, ofs, count)) ==> {
                &&& Self::spec_chunk_window(final(self).current_chunk as int, final(self).file_data@.len() as int)
                    == Some((w.first_bin as int, w.last_bin as int, w.end_byte as int))
                &&& w.wf()
                &&& w.last_bin < final(self).received@.len()
                &&& !w.spec_complete(final(self).received@)
                &&& exists|gap: int| #![trigger final(self).received@[gap]]
                    {
                        &&& w.is_gap(final(self).received@, gap)
                        &&& forall|j: int| w.first_bin <= j < gap ==> #[trigger] final(self).received@[j]
                        &&& ofs == gap * LOG_DATA_PACKET_SIZE
                        &&& count == w.end_byte - gap * LOG_DATA_PACKET_SIZE
                    }
            },
    {
        let file_size = self.file_data.len();
        loop
            invariant
                self.wf(),
                self.prefix_received(),
                file_size == self.file_data@.len(),
                self.file_data@ == old(self).file_data@,
                self.received@ == old(self).received@,
                self.received_count == old(self).received_count,
                self.total_packets == old(self).total_packets,
                self.duplicate_packets == old(self).duplicate_packets,
                old(self).current_chunk <= self.current_chunk,
            decreases self.num_chunks - self.current_chunk,
        {
            proof {
                lemma_count_true_bound(self.received@);
                lemma_count_true_all(self.received@);
            }
            if self.received_count >= self.num_bins {
                return None;
            }
            match self.current_chunk_window(file_size) {
                None => {
                    proof {
                        let cc = self.current_chunk as int;
                        assert(cc * LOG_CHUNK_BINS >= self.num_bins) by (nonlinear_arith)
                            requires
                                cc * 184320 >= file_size,
                                self.num_bins == (file_size + 89) / 90,
                        ;
                        assert(forall|i: int| 0 <= i < self.num_bins ==> #[trigger] self.received@[i]);
                    }
                    return None;
                },
                Some(w) => {
                    proof {
                        w.lemma_wf_window_searchable(self.received@);
                    }
                    match w.first_gap_request(&self.received) {
                        Some((ofs, count)) => {
                            return Some((w, ofs, count));
                        },
                        None => {
                            proof {
                                lemma_chunk_window_bins(self.current_chunk as int, file_size as int, w.first_bin as int, w.last_bin as int, w.end_byte as int);
                            }
                            self.current_chunk = self.current_chunk + 1;
                        },
                    }
                },
            }
        }
    }

    /// After a chunk was worked on: moves to the next chunk when the window is complete.
    pub fn finish_chunk(&mut self, chunk: &ChunkWindow)
        requires
            old(self).wf(),
            old(self).prefix_received(),
            Self::spec_chunk_window(old(self).current_chunk as int, old(self).file_data@.len() as int)
                == Some((chunk.first_bin as int, chunk.last_bin as int, chunk.end_byte as int)),
        ensures
            final(self).wf(),
            final(self).prefix_received(),
            final(self).file_data@ == old(self).file_data@,
            final(self).received@ == old(self).received@,
            final(self).received_count == old(self).received_count,
            final(self).total_packets == old(self).total_packets,
            final(self).duplicate_packets == old(self).duplicate_packets,
            final(self).current_chunk == old(self).current_chunk + if chunk.spec_complete(old(self).received@) { 1int } else { 0int },
    {
        let file_size = self.file_data.len();
        let w = self.current_chunk_window(file_size);
        proof {
            assert(w is Some);
        }
        proof {
            chunk.lemma_wf_window_searchable(self.received@);
        }
        if chunk.is_complete(&self.received) {
            proof {
                lemma_chunk_window_bins(self.current_chunk as int, file_size as int, chunk.first_bin as int, chunk.last_bin as int, chunk.end_byte as int);
            }
            self.current_chunk = self.current_chunk + 1;
        }
    }
}

/// The bins of chunk `cc` of a file of `file_size` bytes: the window starts at the chunk's
/// first bin and ends at the last bin of the chunk or of the file, and the chunk is one of
/// the file's chunks.
pub proof fn lemma_chunk_window_bins(cc: int, file_size: int, first: int, last: int, end: int)
    requires
        0 <= cc,
        0 <= file_size,
        DownloadState::spec_chunk_window(cc, file_size) == Some((first, last, end)),
    ensures
        first == cc * LOG_CHUNK_BINS,
        (cc + 1) * LOG_CHUNK_BINS >= num_bins_of(file_size) ==> last == num_bins_of(file_size) - 1,
        (cc + 1) * LOG_CHUNK_BINS < num_bins_of(file_size) ==> last == (cc + 1) * LOG_CHUNK_BINS - 1,
        cc < num_chunks_of(file_size),
{
    let num_bins = num_bins_of(file_size);
    let num_chunks = num_chunks_of(file_size);
    assert(first == cc * LOG_CHUNK_BINS) by (nonlinear_arith)
        requires first == (cc * 184320) / 90;
    assert((cc + 1) * LOG_CHUNK_BINS >= num_bins ==> last == num_bins - 1) by (nonlinear_arith)
        requires
            last == (end - 1) / 90,
            end == if cc * 184320 + 184320 < file_size { cc * 184320 + 184320 } else { file_size },
            num_bins == (file_size + 89) / 90,
            cc * 184320 < file_size,
    ;
    assert((cc + 1) * LOG_CHUNK_BINS < num_bins ==> last == (cc + 1) * LOG_CHUNK_BINS - 1) by (nonlinear_arith)
        requires
            last == (end - 1) / 90,
            end == if cc * 184320 + 184320 < file_size { cc * 184320 + 184320 } else { file_size },
            num_bins == (file_size + 89) / 90,
            cc * 184320 < file_size,
    ;
    assert(cc < num_chunks) by (nonlinear_arith)
        requires
            cc * 184320 < file_size,
            num_chunks == (file_size + 184319) / 184320,
    ;
}

/// Once every bin arrived, the progress a download reports is the size of the file.
pub proof fn lemma_complete_progress(s: DownloadState)
    requires
        s.wf(),
        s.received_count == s.num_bins,
    ensures
        s.spec_bytes_received() == s.file_data@.len(),
{
    let len = s.file_data@.len() as int;
    assert(s.num_bins * 90 >= len) by (nonlinear_arith)
        requires s.num_bins == (len + 89) / 90, len >= 0;
}

/// What every operation of a download keeps: the bookkeeping stays well formed and the file
/// keeps its size (`next_step`, `finish_chunk` and `apply_packet` state it of their results).
pub open spec fn download_keeps(before: DownloadState, after: DownloadState) -> bool {
    after.wf() && after.file_data@.len() == before.file_data@.len()
}

/// A whole log download of `n` bytes: a download cancelled before anything arrived is not
/// complete, so its first step is the cancellation; and a run of operations that ends with
/// every bin received hands over a file of `n` bytes with progress `n`.
pub proof fn lemma_download_run(n: int, states: Seq<DownloadState>)
    requires
        states.len() >= 1,
        states[0].wf(),
        states[0].file_data@.len() == n,
        states[0].received_count == 0,
        forall|k: int| 0 <= k < states.len() - 1 ==> download_keeps(#[trigger] states[k], states[k + 1]),
    ensures
        n > 0 ==> states[0].received_count < states[0].num_bins,
        forall|k: int| 0 <= k < states.len() ==> (#[trigger] states[k]).file_data@.len() == n,
        states.last().received_count == states.last().num_bins ==> states.last().spec_bytes_received() == n,
    decreases states.len(),
{
    assert(n > 0 ==> states[0].num_bins > 0) by (nonlinear_arith)
        requires states[0].num_bins == (n + 89) / 90, n >= 0;
    if states.len() > 1 {
        let d = states.drop_last();
        assert forall|k: int| 0 <= k < d.len() - 1 implies download_keeps(#[trigger] d[k], d[k + 1]) by {
            assert(d[k] == states[k] && d[k + 1] == states[k + 1]);
        }
        lemma_download_run(n, d);
        assert forall|k: int| 0 <= k < states.len() implies (#[trigger] states[k]).file_data@.len() == n by {
            if k < d.len() {
                assert(d[k] == states[k]);
            } else {
                assert(download_keeps(states[k - 1], states[k]));
                assert(d[k - 1] == states[k - 1]);
            }
        }
    }
    if states.last().received_count == states.last().num_bins {
        lemma_complete_progress(states.last());
    }
}

/// What a log download does next.
#[derive(Debug)]
pub enum DownloadStep {
    /// The download was cancelled before the file was complete: end the transfer and fail.
    Cancelled,
    /// Ask for `count` bytes from `ofs`, the first missing bin of `chunk`, then receive.
    Request { chunk: ChunkWindow, ofs: usize, count: usize },
    /// Every bin arrived: end the transfer and hand over the file.
    Complete,
}

/// How the download of a log of `file_size` bytes begins: an empty log has nothing to
/// download (the transfer is ended and the empty file handed over at once); otherwise with a
/// fresh download state.
pub fn start_download(file_size: usize) -> (r: Option<DownloadState>)
    requires
        file_size <= isize::MAX,
    ensures
        r is None <==> file_size == 0,
        r matches Some(s) ==> {
            &&& s.wf()
            &&& s.prefix_received()
            &&& s.file_data@.len() == file_size
            &&& s.received_count == 0
            &&& s.current_chunk == 0
        },
{
    if file_size == 0 {
        return None;
    }
    let s = DownloadState::new(file_size);
    assert(s.prefix_received());
    Some(s)
}

impl DownloadState {
    /// Decides the next step of a download: it is complete once every bin arrived; otherwise
    /// a cancellation ends it; otherwise the first missing bin of the first incomplete chunk
    /// is asked for.
    pub fn next_step(&mut self, cancelled: bool) -> (r: DownloadStep)
        requires
            old(self).wf(),
            old(self).prefix_received(),
        ensures
            final(self).wf(),
            final(self).prefix_received(),
            final(self).file_data@ == old(self).file_data@,
            final(self).received@ == old(self).received@,
            final(self).received_count == old(self).received_count,
            final(self).total_packets == old(self).total_packets,
            final(self).duplicate_packets == old(self).duplicate_packets,
            old(self).received_count >= old(self).num_bins ==> r is Complete && *final(self) == *old(self),
            old(self).received_count < old(self).num_bins && cancelled ==> r is Cancelled && *final(self) == *old(self),
            old(self).received_count < old(self).num_bins && !cancelled ==> (r matches DownloadStep::Request { chunk, ofs, count } && {
                &&& Self::spec_chunk_window(final(self).current_chunk as int, final(self).file_data@.len() as int)
                    == Some((chunk.first_bin as int, chunk.last_bin as int, chunk.end_byte as int))
                &&& chunk.wf()
                &&& chunk.last_bin < final(self).received@.len()
                &&& exists|gap: int| #![trigger final(self).received@[gap]]
                    {
                        &&& chunk.is_gap(final(self).received@, gap)
                        &&& forall|j: int| chunk.first_bin <= j < gap ==> #[trigger] final(self).received@[j]
                        &&& ofs == gap * LOG_DATA_PACKET_SIZE
                        &&& count == chunk.end_byte - gap * LOG_DATA_PACKET_SIZE
                    }
            }),
            r is Complete ==> final(self).received_count == final(self).num_bins,
    {
        proof {
            lemma_count_true_bound(self.received@);
        }
        if self.received_count >= self.num_bins {
            return DownloadStep::Complete;
        }
        if cancelled {
            return DownloadStep::Cancelled;
        }
        match self.next_request() {
            Some((chunk, ofs, count)) => DownloadStep::Request { chunk, ofs, count },
            None => DownloadStep::Complete,
        }
    }

    /// Hands over the file of a complete download with the progress to report: the file's size.
    pub fn finished_file(self) -> (r: (Vec<u8>, u64))
        requires
            self.wf(),
            self.received_count == self.num_bins,
        ensures
            r.0@ == self.file_data@,
            r.1 == self.file_data@.len(),
    {
        let progress = self.bytes_received();
        proof {
            lemma_complete_progress(self);
        }
        (self.file_data, progress)
    }
}

/// Receiving a packet never loses a bin and keeps the chunks behind the current one complete.
pub proof fn lemma_apply_packet_keeps_progress(
    before: DownloadState,
    after: DownloadState,
    ofs: int,
    end: int,
)
    requires
        before.wf(),
        before.prefix_received(),
        after.num_bins == before.num_bins,
        after.current_chunk == before.current_chunk,
        after.received@.len() == before.received@.len(),
        forall|i: int| 0 <= i < before.received@.len() ==>
            #[trigger] after.received@[i] == (before.received@[i] || DownloadState::packet_bins(ofs, end, i)),
    ensures
        after.prefix_received(),
        forall|i: int| 0 <= i < before.received@.len() && #[trigger] before.received@[i] ==> after.received@[i],
{
    assert forall|i: int|
        0 <= i < after.num_bins && i < after.current_chunk * LOG_CHUNK_BINS implies #[trigger] after.received@[i] by {
        assert(before.received@[i]);
    }
}
} // verus!
