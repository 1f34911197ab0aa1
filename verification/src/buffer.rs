//! In-memory replay buffers of encoded packets, and the replay snapshot cut
//! from them: the last stretch of video from its first keyframe on, with
//! the audio of that stretch, both rebased to start at zero.
use vstd::prelude::*;
use std::collections::VecDeque;
use crate::encoding::StreamKind;

verus! {

/// The immutable byte buffer of the `bytes` crate that packets carry; its
/// contents are known only through `bytes_contents`.
#[verifier::external_type_specification]
#[verifier::external_body]
pub struct ExBytes(bytes::Bytes);

/// The bytes a `Bytes` handle holds.
pub uninterp spec fn bytes_contents(b: bytes::Bytes) -> Seq<u8>;

/// `Bytes::clone`: another handle on the same bytes.
#[verifier::external_body]
fn clone_bytes(b: &bytes::Bytes) -> (r: bytes::Bytes)
    ensures
        bytes_contents(r) == bytes_contents(*b),
{
    b.clone()
}

/// An encoded packet of one stream, with its timestamps in microseconds.
pub struct EncodedPacket {
    pub stream: StreamKind,
    pub data: bytes::Bytes,
    pub pts: i64,
    pub dts: i64,
    pub duration: i64,
    pub is_keyframe: bool,
    pub seq: u64,
}

pub struct PacketView {
    pub stream: StreamKind,
    pub data: Seq<u8>,
    pub pts: int,
    pub dts: int,
    pub duration: int,
    pub key: bool,
    pub seq: u64,
}

pub open spec fn pview(p: EncodedPacket) -> PacketView {
    PacketView {
        stream: p.stream,
        data: bytes_contents(p.data),
        pts: p.pts as int,
        dts: p.dts as int,
        duration: p.duration as int,
        key: p.is_keyframe,
        seq: p.seq,
    }
}

pub open spec fn pviews(s: Seq<EncodedPacket>) -> Seq<PacketView> {
    s.map_values(|p: EncodedPacket| pview(p))
}

impl EncodedPacket {
    /// A copy sharing the same bytes.
    pub fn clone_packet(&self) -> (r: Self)
        ensures
            pview(r) == pview(*self),
    {
        EncodedPacket {
            stream: self.stream,
            data: clone_bytes(&self.data),
            pts: self.pts,
            dts: self.dts,
            duration: self.duration,
            is_keyframe: self.is_keyframe,
            seq: self.seq,
        }
    }
}

/// Index of the first packet at or after `cutoff`, from `i` on.
pub open spec fn first_kept(s: Seq<PacketView>, cutoff: int, i: int) -> int
    decreases s.len() - i,
{
    if i < 0 || i >= s.len() {
        s.len() as int
    } else if s[i].pts >= cutoff {
        i
    } else {
        first_kept(s, cutoff, i + 1)
    }
}

/// The packets without the leading ones older than `cutoff`.
pub open spec fn evicted(s: Seq<PacketView>, window: int) -> Seq<PacketView> {
    if s.len() == 0 {
        s
    } else {
        s.skip(first_kept(s, s.last().pts - window, 0))
    }
}

pub open spec fn at_or_after(cutoff: int) -> spec_fn(PacketView) -> bool {
    |p: PacketView| p.pts >= cutoff
}

pub open spec fn in_range(x: int) -> bool {
    -0x1000_0000_0000_0000 <= x <= 0x1000_0000_0000_0000
}

/// Timestamps and durations that arithmetic on them cannot overflow.
pub open spec fn sane(p: PacketView) -> bool {
    in_range(p.pts) && in_range(p.dts) && in_range(p.duration)
}

pub open spec fn all_sane(s: Seq<PacketView>) -> bool {
    forall|k: int| 0 <= k < s.len() ==> sane(#[trigger] s[k])
}

fn evict_old(packets: &mut VecDeque<EncodedPacket>, window_us: i64)
    requires
        all_sane(pviews(old(packets)@)),
        in_range(window_us as int),
    ensures
        pviews(final(packets)@) == evicted(pviews(old(packets)@), window_us as int),
{
    let ghost s = pviews(packets@);
    if packets.len() == 0 {
        return;
    }
    let last_pts = packets[packets.len() - 1].pts;
    proof {
        assert(s[s.len() - 1] == pview(packets@[packets@.len() - 1]));
        assert(sane(s[s.len() - 1]));
    }
    let cutoff = last_pts - window_us;
    let ghost mut k: int = 0;
    assert(s.skip(0) =~= s);
    while packets.len() > 0 && packets[0].pts < cutoff
        invariant
            0 <= k <= s.len(),
            pviews(packets@) == s.skip(k),
            first_kept(s, cutoff as int, 0) == first_kept(s, cutoff as int, k),
            s.len() > 0,
            cutoff == s.last().pts - window_us,
        decreases packets.len(),
    {
        let ghost before = packets@;
        proof {
            assert(pviews(before).len() == before.len());
            assert(k < s.len());
            assert(s.skip(k)[0] == s[k]);
            assert(pviews(before)[0] == pview(before[0]));
        }
        let _ = packets.pop_front();
        proof {
            assert(packets@ =~= before.drop_first());
            assert forall|j: int| 0 <= j < packets@.len() implies pviews(packets@)[j] == s.skip(
                k + 1,
            )[j] by {
                assert(pviews(packets@)[j] == pview(before[j + 1]));
                assert(pviews(before)[j + 1] == pview(before[j + 1]));
                assert(s.skip(k)[j + 1] == s[k + 1 + j]);
            }
            assert(pviews(packets@) =~= s.skip(k + 1));
            k = k + 1;
        }
    }
    proof {
        if packets.len() > 0 {
            assert(pviews(packets@)[0] == pview(packets@[0]));
            assert(s.skip(k)[0] == s[k]);
        }
    }
}

} // verus!

verus! {

/// The buffered packets at or after `cutoff`, in order.
pub open spec fn kept_from(s: Seq<PacketView>, cutoff: int) -> Seq<PacketView> {
    crate::seqs::filter_seq(s, at_or_after(cutoff))
}

/// The packets of the last `duration` microseconds (counted back from the
/// newest packet), in order; none when the buffer is empty.
pub open spec fn spec_snapshot_last(s: Seq<PacketView>, duration: int) -> Seq<PacketView> {
    if s.len() == 0 {
        Seq::empty()
    } else {
        kept_from(
            s,
            s.last().pts - if duration > 0 {
                duration
            } else {
                0
            },
        )
    }
}

fn snapshot_last(packets: &VecDeque<EncodedPacket>, duration_us: i64) -> (r: Vec<EncodedPacket>)
    requires
        all_sane(pviews(packets@)),
        in_range(duration_us as int),
    ensures
        pviews(r@) == spec_snapshot_last(pviews(packets@), duration_us as int),
{
    let ghost s = pviews(packets@);
    let mut out: Vec<EncodedPacket> = Vec::new();
    if packets.len() == 0 {
        assert(pviews(out@) =~= Seq::<PacketView>::empty());
        return out;
    }
    proof {
        assert(s[s.len() - 1] == pview(packets@[packets@.len() - 1]));
        assert(sane(s[s.len() - 1]));
    }
    let d = if duration_us > 0 {
        duration_us
    } else {
        0
    };
    let cutoff = packets[packets.len() - 1].pts - d;
    let ghost f = at_or_after(cutoff as int);
    let mut i: usize = 0;
    assert(s.take(0) =~= Seq::<PacketView>::empty());
    assert(pviews(out@) =~= Seq::<PacketView>::empty());
    while i < packets.len()
        invariant
            i <= packets.len(),
            s == pviews(packets@),
            f == at_or_after(cutoff as int),
            pviews(out@) == crate::seqs::filter_seq(s.take(i as int), f),
        decreases packets.len() - i,
    {
        proof {
            crate::seqs::lemma_filter_step(s, f, i as int);
            assert(s[i as int] == pview(packets@[i as int]));
        }
        if packets[i].pts >= cutoff {
            let c = packets[i].clone_packet();
            let ghost before = out@;
            out.push(c);
            assert(pviews(out@) =~= pviews(before).push(pview(c)));
        }
        i = i + 1;
    }
    assert(s.take(packets.len() as int) =~= s);
    out
}

/// The span covered, in microseconds: from the first packet's start to the
/// end of the last one, never negative; zero when empty.
pub open spec fn spec_fill_us(s: Seq<PacketView>) -> int {
    if s.len() == 0 {
        0
    } else {
        let span = s.last().pts + s.last().duration - s[0].pts;
        if span > 0 {
            span
        } else {
            0
        }
    }
}

fn fill_span_us(packets: &VecDeque<EncodedPacket>) -> (r: i64)
    requires
        all_sane(pviews(packets@)),
    ensures
        r as int == spec_fill_us(pviews(packets@)),
{
    let ghost s = pviews(packets@);
    if packets.len() == 0 {
        return 0;
    }
    proof {
        assert(s[s.len() - 1] == pview(packets@[packets@.len() - 1]));
        assert(s[0] == pview(packets@[0]));
        assert(sane(s[s.len() - 1]));
        assert(sane(s[0]));
    }
    let last = &packets[packets.len() - 1];
    let span = last.pts + last.duration - packets[0].pts;
    if span > 0 {
        span
    } else {
        0
    }
}

/// The rolling buffer of video packets within a time window.
pub struct VideoBuffer {
    packets: VecDeque<EncodedPacket>,
    window_us: i64,
}

/// The rolling buffer of audio packets within a time window.
pub struct AudioBuffer {
    packets: VecDeque<EncodedPacket>,
    window_us: i64,
}

pub open spec fn push_spec(s: Seq<PacketView>, p: PacketView, kind: StreamKind, window: int) -> Seq<
    PacketView,
> {
    if p.stream != kind {
        s
    } else {
        evicted(s.push(p), window)
    }
}

pub proof fn lemma_evicted_sane(s: Seq<PacketView>, window: int)
    requires
        all_sane(s),
    ensures
        all_sane(evicted(s, window)),
        s.len() > 0 ==> 0 <= first_kept(s, s.last().pts - window, 0) <= s.len(),
{
    if s.len() > 0 {
        lemma_first_kept_bounds(s, s.last().pts - window, 0);
        let k = first_kept(s, s.last().pts - window, 0);
        assert forall|j: int| 0 <= j < evicted(s, window).len() implies sane(
            #[trigger] evicted(s, window)[j],
        ) by {
            assert(evicted(s, window)[j] == s[k + j]);
        }
    }
}

pub proof fn lemma_first_kept_bounds(s: Seq<PacketView>, cutoff: int, i: int)
    requires
        0 <= i <= s.len(),
    ensures
        i <= first_kept(s, cutoff, i) <= s.len(),
        forall|j: int| i <= j < first_kept(s, cutoff, i) ==> s[j].pts < cutoff,
        first_kept(s, cutoff, i) < s.len() ==> s[first_kept(s, cutoff, i)].pts >= cutoff,
    decreases s.len() - i,
{
    if i < s.len() && s[i].pts < cutoff {
        lemma_first_kept_bounds(s, cutoff, i + 1);
    }
}

impl VideoBuffer {
    pub closed spec fn view(&self) -> Seq<PacketView> {
        pviews(self.packets@)
    }

    pub closed spec fn window(&self) -> int {
        self.window_us as int
    }

    /// Packets and window within the range where their arithmetic is exact.
    pub closed spec fn wf(&self) -> bool {
        all_sane(pviews(self.packets@)) && in_range(self.window_us as int)
    }

    pub fn new(window_us: i64) -> (r: Self)
        requires
            in_range(window_us as int),
        ensures
            r.wf(),
            r.view().len() == 0,
            r.window() == window_us,
    {
        let r = VideoBuffer { packets: VecDeque::new(), window_us };
        assert(pviews(r.packets@) =~= Seq::<PacketView>::empty());
        r
    }

    /// Changes the window and drops what falls out of it.
    pub fn set_window_us(&mut self, window_us: i64)
        requires
            old(self).wf(),
            in_range(window_us as int),
        ensures
            final(self).wf(),
            final(self).window() == window_us,
            final(self).view() == evicted(old(self).view(), window_us as int),
    {
        self.window_us = window_us;
        evict_old(&mut self.packets, window_us);
        proof {
            lemma_evicted_sane(old(self).view(), window_us as int);
        }
    }

    /// Adds a video packet (a packet of another stream is ignored) and drops
    /// the packets older than the window before it.
    pub fn push(&mut self, packet: EncodedPacket)
        requires
            old(self).wf(),
            sane(pview(packet)),
        ensures
            final(self).wf(),
            final(self).window() == old(self).window(),
            final(self).view() == push_spec(
                old(self).view(),
                pview(packet),
                StreamKind::Video,
                old(self).window(),
            ),
    {
        if packet.stream != StreamKind::Video {
            return;
        }
        let ghost before = self.packets@;
        self.packets.push_back(packet);
        proof {
            assert(pviews(self.packets@) =~= pviews(before).push(pview(packet)));
            assert(all_sane(pviews(self.packets@)));
        }
        evict_old(&mut self.packets, self.window_us);
        proof {
            lemma_evicted_sane(pviews(before).push(pview(packet)), self.window_us as int);
        }
    }

    /// The packets of the last `duration_us` microseconds.
    pub fn snapshot_last_us(&self, duration_us: i64) -> (r: Vec<EncodedPacket>)
        requires
            self.wf(),
            in_range(duration_us as int),
        ensures
            pviews(r@) == spec_snapshot_last(self.view(), duration_us as int),
    {
        snapshot_last(&self.packets, duration_us)
    }

    /// The span the buffer covers, in microseconds.
    pub fn fill_us(&self) -> (r: i64)
        requires
            self.wf(),
        ensures
            r as int == spec_fill_us(self.view()),
    {
        fill_span_us(&self.packets)
    }
}

impl AudioBuffer {
    pub closed spec fn view(&self) -> Seq<PacketView> {
        pviews(self.packets@)
    }

    pub closed spec fn window(&self) -> int {
        self.window_us as int
    }

    /// Packets and window within the range where their arithmetic is exact.
    pub closed spec fn wf(&self) -> bool {
        all_sane(pviews(self.packets@)) && in_range(self.window_us as int)
    }

    pub fn new(window_us: i64) -> (r: Self)
        requires
            in_range(window_us as int),
        ensures
            r.wf(),
            r.view().len() == 0,
            r.window() == window_us,
    {
        let r = AudioBuffer { packets: VecDeque::new(), window_us };
        assert(pviews(r.packets@) =~= Seq::<PacketView>::empty());
        r
    }

    /// Changes the window and drops what falls out of it.
    pub fn set_window_us(&mut self, window_us: i64)
        requires
            old(self).wf(),
            in_range(window_us as int),
        ensures
            final(self).wf(),
            final(self).window() == window_us,
            final(self).view() == evicted(old(self).view(), window_us as int),
    {
        self.window_us = window_us;
        evict_old(&mut self.packets, window_us);
        proof {
            lemma_evicted_sane(old(self).view(), window_us as int);
        }
    }

    /// Adds an audio packet (a packet of another stream is ignored) and drops
    /// the packets older than the window before it.
    pub fn push(&mut self, packet: EncodedPacket)
        requires
            old(self).wf(),
            sane(pview(packet)),
        ensures
            final(self).wf(),
            final(self).window() == old(self).window(),
            final(self).view() == push_spec(
                old(self).view(),
                pview(packet),
                StreamKind::Audio,
                old(self).window(),
            ),
    {
        if packet.stream != StreamKind::Audio {
            return;
        }
        let ghost before = self.packets@;
        self.packets.push_back(packet);
        proof {
            assert(pviews(self.packets@) =~= pviews(before).push(pview(packet)));
            assert(all_sane(pviews(self.packets@)));
        }
        evict_old(&mut self.packets, self.window_us);
        proof {
            lemma_evicted_sane(pviews(before).push(pview(packet)), self.window_us as int);
        }
    }

    /// The packets of the last `duration_us` microseconds.
    pub fn snapshot_last_us(&self, duration_us: i64) -> (r: Vec<EncodedPacket>)
        requires
            self.wf(),
            in_range(duration_us as int),
        ensures
            pviews(r@) == spec_snapshot_last(self.view(), duration_us as int),
    {
        snapshot_last(&self.packets, duration_us)
    }

    /// The span the buffer covers, in microseconds.
    pub fn fill_us(&self) -> (r: i64)
        requires
            self.wf(),
        ensures
            r as int == spec_fill_us(self.view()),
    {
        fill_span_us(&self.packets)
    }
}

/// After a push of a packet of the buffer's stream, the newest packet is the
/// one pushed and every packet older than the window before it is gone from
/// the front.
pub proof fn push_keeps_newest_and_window(s: Seq<PacketView>, p: PacketView, kind: StreamKind, window: int)
    requires
        p.stream == kind,
        window >= 0,
    ensures
        push_spec(s, p, kind, window).len() >= 1,
        push_spec(s, p, kind, window).last() == p,
        push_spec(s, p, kind, window)[0].pts >= p.pts - window,
{
    let t = s.push(p);
    lemma_first_kept_bounds(t, p.pts - window, 0);
    let k = first_kept(t, p.pts - window, 0);
    assert(t.last() == p);
    assert(t[t.len() - 1].pts >= p.pts - window);
    assert(k < t.len());
    assert(push_spec(s, p, kind, window) == t.skip(k));
}

} // verus!

verus! {

/// Index of the first keyframe from `i` on (the length when none).
pub open spec fn first_key(s: Seq<PacketView>, i: int) -> int
    decreases s.len() - i,
{
    if i < 0 || i >= s.len() {
        s.len() as int
    } else if s[i].key {
        i
    } else {
        first_key(s, i + 1)
    }
}

pub open spec fn rebased(p: PacketView, base: int) -> PacketView {
    PacketView { pts: p.pts - base, dts: p.dts - base, ..p }
}

pub open spec fn rebase_all(s: Seq<PacketView>, base: int) -> Seq<PacketView> {
    s.map_values(|p: PacketView| rebased(p, base))
}

/// Where a packet goes in a list sorted by time: after every packet not
/// later than it.
pub open spec fn insert_pos(t: Seq<PacketView>, x: PacketView, j: int) -> int
    decreases t.len() - j,
{
    if j < 0 || j >= t.len() {
        t.len() as int
    } else if t[j].pts > x.pts {
        j
    } else {
        insert_pos(t, x, j + 1)
    }
}

/// The packets ordered by time, packets of equal time kept in their order.
pub open spec fn sort_by_pts(s: Seq<PacketView>) -> Seq<PacketView>
    decreases s.len(),
{
    if s.len() == 0 {
        s
    } else {
        let t = sort_by_pts(s.drop_last());
        t.insert(insert_pos(t, s.last(), 0), s.last())
    }
}

pub open spec fn stream_end(s: Seq<PacketView>) -> int {
    if s.len() == 0 {
        0
    } else {
        s.last().pts + s.last().duration
    }
}

pub struct SnapshotView {
    pub video: Seq<PacketView>,
    pub audio: Seq<PacketView>,
    pub duration: int,
}

/// The replay snapshot of the last `duration` microseconds of video: from
/// its first keyframe on, with the audio from that keyframe on, both
/// rebased to that keyframe and the audio in time order; its length reaches
/// the later end of the two streams.
pub open spec fn spec_build_replay_snapshot(
    video: Seq<PacketView>,
    audio: Seq<PacketView>,
    duration: int,
) -> Result<SnapshotView, Seq<char>> {
    if video.len() == 0 {
        Err("Buffer has no video packets yet"@)
    } else {
        let v1 = spec_snapshot_last(video, duration);
        if v1.len() == 0 {
            Err("No packets available in replay window"@)
        } else {
            let k = first_key(v1, 0);
            if k >= v1.len() {
                Err("No keyframe found in replay window. Increase buffer duration or reduce GOP"@)
            } else {
                let v2 = v1.skip(k);
                let first = v2[0].pts;
                let v3 = rebase_all(v2, first);
                let a = sort_by_pts(rebase_all(kept_from(audio, first), first));
                Ok(
                    SnapshotView {
                        video: v3,
                        audio: a,
                        duration: if stream_end(v3) >= stream_end(a) {
                            stream_end(v3)
                        } else {
                            stream_end(a)
                        },
                    },
                )
            }
        }
    }
}

/// A replay cut out of the buffers.
pub struct ReplaySnapshot {
    pub video_packets: Vec<EncodedPacket>,
    pub audio_packets: Vec<EncodedPacket>,
    pub duration_us: i64,
}

fn rebase_packet(p: EncodedPacket, base: i64) -> (r: EncodedPacket)
    requires
        sane(pview(p)),
        in_range(base as int),
    ensures
        pview(r) == rebased(pview(p), base as int),
{
    EncodedPacket { pts: p.pts - base, dts: p.dts - base, ..p }
}

pub proof fn lemma_kept_sane(s: Seq<PacketView>, cutoff: int)
    requires
        all_sane(s),
    ensures
        all_sane(kept_from(s, cutoff)),
        forall|k: int| 0 <= k < kept_from(s, cutoff).len() ==> #[trigger] kept_from(s, cutoff)[k].pts
            >= cutoff,
{
    crate::seqs::lemma_filter_all(s, at_or_after(cutoff));
    lemma_filter_subset(s, at_or_after(cutoff));
}

pub proof fn lemma_filter_subset(s: Seq<PacketView>, p: spec_fn(PacketView) -> bool)
    ensures
        forall|k: int|
            0 <= k < crate::seqs::filter_seq(s, p).len() ==> s.contains(
                #[trigger] crate::seqs::filter_seq(s, p)[k],
            ),
    decreases s.len(),
{
    if s.len() > 0 {
        lemma_filter_subset(s.drop_last(), p);
        let prev = crate::seqs::filter_seq(s.drop_last(), p);
        assert forall|k: int| 0 <= k < prev.len() implies s.contains(#[trigger] prev[k]) by {
            let j = choose|j: int| 0 <= j < s.drop_last().len() && s.drop_last()[j] == prev[k];
            assert(s[j] == prev[k]);
        }
        if p(s.last()) {
            assert(s[s.len() - 1] == s.last());
            assert forall|k: int| 0 <= k < prev.push(s.last()).len() implies s.contains(
                #[trigger] prev.push(s.last())[k],
            ) by {
                if k < prev.len() {
                    assert(prev.push(s.last())[k] == prev[k]);
                }
            }
        }
    }
}

} // verus!

verus! {

fn kept_packets(s: &Vec<EncodedPacket>, cutoff: i64) -> (r: Vec<EncodedPacket>)
    ensures
        pviews(r@) == kept_from(pviews(s@), cutoff as int),
{
    let ghost sv = pviews(s@);
    let ghost f = at_or_after(cutoff as int);
    let mut out: Vec<EncodedPacket> = Vec::new();
    let mut i: usize = 0;
    assert(sv.take(0) =~= Seq::<PacketView>::empty());
    assert(pviews(out@) =~= Seq::<PacketView>::empty());
    while i < s.len()
        invariant
            i <= s.len(),
            sv == pviews(s@),
            f == at_or_after(cutoff as int),
            pviews(out@) == crate::seqs::filter_seq(sv.take(i as int), f),
        decreases s.len() - i,
    {
        proof {
            crate::seqs::lemma_filter_step(sv, f, i as int);
            assert(sv[i as int] == pview(s@[i as int]));
        }
        if s[i].pts >= cutoff {
            let c = s[i].clone_packet();
            let ghost before = out@;
            out.push(c);
            assert(pviews(out@) =~= pviews(before).push(pview(c)));
        }
        i = i + 1;
    }
    assert(sv.take(s.len() as int) =~= sv);
    out
}

fn first_keyframe(s: &Vec<EncodedPacket>) -> (r: usize)
    ensures
        r as int == first_key(pviews(s@), 0),
{
    let ghost sv = pviews(s@);
    let mut i: usize = 0;
    while i < s.len()
        invariant
            i <= s.len(),
            sv == pviews(s@),
            first_key(sv, 0) == first_key(sv, i as int),
        decreases s.len() - i,
    {
        proof {
            assert(sv[i as int] == pview(s@[i as int]));
        }
        if s[i].is_keyframe {
            return i;
        }
        i = i + 1;
    }
    i
}

fn rebase_from(s: &Vec<EncodedPacket>, start: usize, base: i64) -> (r: Vec<EncodedPacket>)
    requires
        start <= s.len(),
        all_sane(pviews(s@)),
        in_range(base as int),
    ensures
        pviews(r@) == rebase_all(pviews(s@).skip(start as int), base as int),
{
    let ghost sv = pviews(s@);
    let mut out: Vec<EncodedPacket> = Vec::new();
    let mut i: usize = start;
    while i < s.len()
        invariant
            start <= i <= s.len(),
            sv == pviews(s@),
            all_sane(sv),
            in_range(base as int),
            pviews(out@) == rebase_all(sv.subrange(start as int, i as int), base as int),
        decreases s.len() - i,
    {
        proof {
            assert(sv[i as int] == pview(s@[i as int]));
            assert(sane(sv[i as int]));
        }
        let c = rebase_packet(s[i].clone_packet(), base);
        let ghost before = out@;
        out.push(c);
        proof {
            assert(pviews(out@) =~= pviews(before).push(pview(c)));
            assert(sv.subrange(start as int, i + 1) =~= sv.subrange(start as int, i as int).push(
                sv[i as int],
            ));
            assert(rebase_all(sv.subrange(start as int, i + 1), base as int) =~= rebase_all(
                sv.subrange(start as int, i as int),
                base as int,
            ).push(rebased(sv[i as int], base as int)));
        }
        i = i + 1;
    }
    assert(sv.subrange(start as int, s.len() as int) =~= sv.skip(start as int));
    out
}

fn insert_sorted(t: &mut Vec<EncodedPacket>, x: EncodedPacket)
    ensures
        pviews(final(t)@) == pviews(old(t)@).insert(
            insert_pos(pviews(old(t)@), pview(x), 0),
            pview(x),
        ),
{
    let ghost tv = pviews(t@);
    let mut j: usize = 0;
    while j < t.len() && t[j].pts <= x.pts
        invariant
            j <= t.len(),
            tv == pviews(t@),
            insert_pos(tv, pview(x), 0) == insert_pos(tv, pview(x), j as int),
        decreases t.len() - j,
    {
        proof {
            assert(tv[j as int] == pview(t@[j as int]));
        }
        j = j + 1;
    }
    proof {
        if j < t.len() {
            assert(tv[j as int] == pview(t@[j as int]));
        }
    }
    let ghost before = t@;
    let ghost px = pview(x);
    t.insert(j, x);
    assert(pviews(t@) =~= pviews(before).insert(j as int, px));
}

fn sorted_by_pts(s: &Vec<EncodedPacket>) -> (r: Vec<EncodedPacket>)
    ensures
        pviews(r@) == sort_by_pts(pviews(s@)),
{
    let ghost sv = pviews(s@);
    let mut out: Vec<EncodedPacket> = Vec::new();
    let mut i: usize = 0;
    assert(sv.take(0) =~= Seq::<PacketView>::empty());
    assert(pviews(out@) =~= Seq::<PacketView>::empty());
    while i < s.len()
        invariant
            i <= s.len(),
            sv == pviews(s@),
            pviews(out@) == sort_by_pts(sv.take(i as int)),
        decreases s.len() - i,
    {
        proof {
            assert(sv.take(i + 1).drop_last() =~= sv.take(i as int));
            assert(sv.take(i + 1).last() == sv[i as int]);
            assert(sv[i as int] == pview(s@[i as int]));
        }
        insert_sorted(&mut out, s[i].clone_packet());
        i = i + 1;
    }
    assert(sv.take(s.len() as int) =~= sv);
    out
}

fn end_of(s: &Vec<EncodedPacket>) -> (r: i64)
    requires
        forall|k: int|
            0 <= k < s@.len() ==> -0x2000_0000_0000_0000 <= #[trigger] s@[k].pts
                <= 0x2000_0000_0000_0000 && -0x1000_0000_0000_0000 <= s@[k].duration
                <= 0x1000_0000_0000_0000,
    ensures
        r as int == stream_end(pviews(s@)),
{
    if s.len() == 0 {
        return 0;
    }
    proof {
        assert(pviews(s@).last() == pview(s@[s@.len() - 1]));
    }
    s[s.len() - 1].pts + s[s.len() - 1].duration
}

/// Cuts the replay snapshot out of the buffered packets; see
/// `spec_build_replay_snapshot`.
pub fn build_replay_snapshot(
    video_packets: Vec<EncodedPacket>,
    audio_packets: Vec<EncodedPacket>,
    replay_duration_us: i64,
) -> (r: Result<ReplaySnapshot, String>)
    requires
        all_sane(pviews(video_packets@)),
        all_sane(pviews(audio_packets@)),
        in_range(replay_duration_us as int),
    ensures
        match spec_build_replay_snapshot(
            pviews(video_packets@),
            pviews(audio_packets@),
            replay_duration_us as int,
        ) {
            Err(e) => r is Err && r->Err_0@ == e,
            Ok(v) => r is Ok && pviews(r->Ok_0.video_packets@) == v.video && pviews(
                r->Ok_0.audio_packets@,
            ) == v.audio && r->Ok_0.duration_us as int == v.duration,
        },
{
    let ghost vv = pviews(video_packets@);
    let ghost av = pviews(audio_packets@);
    if video_packets.len() == 0 {
        return Err("Buffer has no video packets yet".to_string());
    }
    proof {
        assert(vv.last() == pview(video_packets@[video_packets@.len() - 1]));
        assert(sane(vv[vv.len() - 1]));
    }
    let d = if replay_duration_us > 0 {
        replay_duration_us
    } else {
        0
    };
    let cutoff = video_packets[video_packets.len() - 1].pts - d;
    let v1 = kept_packets(&video_packets, cutoff);
    if v1.len() == 0 {
        return Err("No packets available in replay window".to_string());
    }
    let k = first_keyframe(&v1);
    if k >= v1.len() {
        return Err(
            "No keyframe found in replay window. Increase buffer duration or reduce GOP".to_string(),
        );
    }
    proof {
        lemma_kept_sane(vv, cutoff as int);
        assert(pviews(v1@)[k as int] == pview(v1@[k as int]));
        assert(sane(pviews(v1@)[k as int]));
    }
    let first_pts = v1[k].pts;
    let video = rebase_from(&v1, k, first_pts);
    proof {
        assert(pviews(v1@).skip(k as int)[0] == pviews(v1@)[k as int]);
    }
    let a1 = kept_packets(&audio_packets, first_pts);
    proof {
        lemma_kept_sane(av, first_pts as int);
    }
    let a2 = rebase_from(&a1, 0, first_pts);
    proof {
        assert(pviews(a1@).skip(0) =~= pviews(a1@));
    }
    let audio = sorted_by_pts(&a2);
    proof {
        lemma_rebased_bounds(pviews(v1@).skip(k as int), first_pts as int);
        assert forall|j: int| 0 <= j < video@.len() implies -0x2000_0000_0000_0000
            <= #[trigger] video@[j].pts <= 0x2000_0000_0000_0000 && -0x1000_0000_0000_0000
            <= video@[j].duration <= 0x1000_0000_0000_0000 by {
            assert(pviews(video@)[j] == pview(video@[j]));
        }
        lemma_rebased_bounds(pviews(a1@), first_pts as int);
        lemma_sort_keeps(pviews(a2@));
        assert forall|j: int| 0 <= j < audio@.len() implies -0x2000_0000_0000_0000
            <= #[trigger] audio@[j].pts <= 0x2000_0000_0000_0000 && -0x1000_0000_0000_0000
            <= audio@[j].duration <= 0x1000_0000_0000_0000 by {
            assert(pviews(audio@)[j] == pview(audio@[j]));
            let x = pviews(audio@)[j];
            assert(sort_by_pts(pviews(a2@)).contains(x));
            assert(pviews(a2@).contains(x));
            let i = choose|i: int| 0 <= i < pviews(a2@).len() && pviews(a2@)[i] == x;
            assert(pviews(a2@) == rebase_all(pviews(a1@), first_pts as int));
            assert(loose(rebase_all(pviews(a1@), first_pts as int)[i]));
        }
    }
    let ve = end_of(&video);
    let ae = end_of(&audio);
    Ok(
        ReplaySnapshot {
            video_packets: video,
            audio_packets: audio,
            duration_us: if ve >= ae {
                ve
            } else {
                ae
            },
        },
    )
}

pub open spec fn loose(p: PacketView) -> bool {
    -0x2000_0000_0000_0000 <= p.pts <= 0x2000_0000_0000_0000 && -0x1000_0000_0000_0000
        <= p.duration <= 0x1000_0000_0000_0000
}

pub proof fn lemma_rebased_bounds(s: Seq<PacketView>, base: int)
    requires
        all_sane(s),
        in_range(base),
    ensures
        forall|j: int| 0 <= j < rebase_all(s, base).len() ==> loose(#[trigger] rebase_all(s, base)[j]),
{
    assert forall|j: int| 0 <= j < rebase_all(s, base).len() implies loose(
        #[trigger] rebase_all(s, base)[j],
    ) by {
        assert(sane(s[j]));
    }
}

/// Sorting keeps exactly the packets it was given.
pub proof fn lemma_sort_keeps(s: Seq<PacketView>)
    ensures
        sort_by_pts(s).len() == s.len(),
        forall|x: PacketView| sort_by_pts(s).contains(x) ==> s.contains(x),
    decreases s.len(),
{
    if s.len() > 0 {
        let d = s.drop_last();
        lemma_sort_keeps(d);
        let t = sort_by_pts(d);
        lemma_insert_pos_bounds(t, s.last(), 0);
        let p = insert_pos(t, s.last(), 0);
        t.insert_ensures(p, s.last());
        assert(sort_by_pts(s) == t.insert(p, s.last()));
        assert forall|x: PacketView| sort_by_pts(s).contains(x) implies s.contains(x) by {
            let j = choose|j: int| 0 <= j < sort_by_pts(s).len() && sort_by_pts(s)[j] == x;
            if j == p {
                assert(s[s.len() - 1] == x);
            } else {
                if j < p {
                    assert(t[j] == x);
                } else {
                    assert(t[j - 1] == x);
                }
                assert(t.contains(x));
                assert(d.contains(x));
                let i = choose|i: int| 0 <= i < d.len() && d[i] == x;
                assert(s[i] == x);
            }
        }
    }
}

pub proof fn lemma_insert_pos_bounds(t: Seq<PacketView>, x: PacketView, j: int)
    requires
        0 <= j <= t.len(),
    ensures
        j <= insert_pos(t, x, j) <= t.len(),
        forall|k: int| j <= k < insert_pos(t, x, j) ==> t[k].pts <= x.pts,
        insert_pos(t, x, j) < t.len() ==> t[insert_pos(t, x, j)].pts > x.pts,
    decreases t.len() - j,
{
    if j < t.len() && t[j].pts <= x.pts {
        lemma_insert_pos_bounds(t, x, j + 1);
    }
}

} // verus!

verus! {

pub open spec fn time_ordered(s: Seq<PacketView>) -> bool {
    forall|i: int, j: int| 0 <= i < j < s.len() ==> #[trigger] s[i].pts <= #[trigger] s[j].pts
}

pub proof fn lemma_sort_ordered(s: Seq<PacketView>)
    ensures
        time_ordered(sort_by_pts(s)),
    decreases s.len(),
{
    if s.len() > 0 {
        let d = s.drop_last();
        lemma_sort_ordered(d);
        lemma_sort_keeps(d);
        let t = sort_by_pts(d);
        let x = s.last();
        lemma_insert_pos_bounds(t, x, 0);
        let p = insert_pos(t, x, 0);
        t.insert_ensures(p, x);
        let r = t.insert(p, x);
        assert(sort_by_pts(s) == r);
        assert forall|i: int, j: int| 0 <= i < j < r.len() implies #[trigger] r[i].pts
            <= #[trigger] r[j].pts by {
            if j < p {
            } else if j == p {
                assert(r[i] == t[i]);
            } else if i < p {
                assert(r[j] == t[j - 1]);
                assert(t[p].pts > x.pts);
                assert(t[i].pts <= t[j - 1].pts);
            } else if i == p {
                assert(r[j] == t[j - 1]);
                assert(t[p].pts > x.pts);
                assert(t[p].pts <= t[j - 1].pts);
            } else {
                assert(r[i] == t[i - 1]);
                assert(r[j] == t[j - 1]);
            }
        }
    }
}

/// A replay snapshot starts at a keyframe at time zero, its audio is in time
/// order and starts no earlier than that keyframe, and its length covers the
/// end of both streams.
pub proof fn snapshot_starts_at_keyframe(video: Seq<PacketView>, audio: Seq<PacketView>, duration: int)
    ensures
        spec_build_replay_snapshot(video, audio, duration) matches Ok(sn) ==> {
            &&& sn.video.len() >= 1
            &&& sn.video[0].key
            &&& sn.video[0].pts == 0
            &&& time_ordered(sn.audio)
            &&& forall|k: int| 0 <= k < sn.audio.len() ==> #[trigger] sn.audio[k].pts >= 0
            &&& sn.duration >= stream_end(sn.video)
            &&& sn.duration >= stream_end(sn.audio)
        },
{
    if video.len() > 0 {
        let v1 = spec_snapshot_last(video, duration);
        if v1.len() > 0 {
            lemma_first_key_bounds(v1, 0);
            let k = first_key(v1, 0);
            if k < v1.len() {
                let first = v1.skip(k)[0].pts;
                assert(v1.skip(k)[0] == v1[k]);
                let kept = kept_from(audio, first);
                crate::seqs::lemma_filter_all(audio, at_or_after(first));
                let a = rebase_all(kept, first);
                lemma_sort_ordered(a);
                lemma_sort_keeps(a);
                let sa = sort_by_pts(a);
                assert forall|j: int| 0 <= j < sa.len() implies #[trigger] sa[j].pts >= 0 by {
                    assert(sa.contains(sa[j]));
                    assert(a.contains(sa[j]));
                    let i = choose|i: int| 0 <= i < a.len() && a[i] == sa[j];
                    assert(at_or_after(first)(kept[i]));
                }
            }
        }
    }
}

pub proof fn lemma_first_key_bounds(s: Seq<PacketView>, i: int)
    requires
        0 <= i <= s.len(),
    ensures
        i <= first_key(s, i) <= s.len(),
        first_key(s, i) < s.len() ==> s[first_key(s, i)].key,
    decreases s.len() - i,
{
    if i < s.len() && !s[i].key {
        lemma_first_key_bounds(s, i + 1);
    }
}

} // verus!
