//! Audio samples: interleaved and per channel, and as bytes.
//!
//! How a sample is represented does not matter to most of this: a sample is any value that can be
//! copied. As bytes, a sample is the 32 bits of a single-precision number.
use vstd::prelude::*;

verus! {

/// The samples of channel `c` among `n` interleaved channels.
pub open spec fn channel_of<T>(samples: Seq<T>, c: int, n: int) -> Seq<T>
    decreases samples.len(),
{
    if samples.len() == 0 {
        seq![]
    } else {
        let before = channel_of(samples.drop_last(), c, n);
        if (samples.len() - 1) % n == c {
            before.push(samples.last())
        } else {
            before
        }
    }
}

/// The first `frames` samples of `n` channels, frame by frame.
pub open spec fn interleaved<T>(channels: Seq<Seq<T>>, frames: int, n: int) -> Seq<T> {
    Seq::new((frames * n) as nat, |i: int| channels[i % n][i / n])
}

/// The first two samples of each whole frame of `n` channels.
pub open spec fn front_pair<T>(samples: Seq<T>, n: int) -> Seq<T> {
    Seq::new((samples.len() / n as nat * 2) as nat, |i: int| samples[(i / 2) * n + i % 2])
}

/// Each sample twice.
pub open spec fn doubled<T>(samples: Seq<T>) -> Seq<T> {
    Seq::new(samples.len() * 2, |i: int| samples[i / 2])
}

/// The samples with the wanted number of channels: of more than two channels the first two are
/// kept where two are wanted, one channel is doubled, and anything else stays as it is.
pub open spec fn with_channels<T>(samples: Seq<T>, channels: int, wanted: int) -> Seq<T> {
    if channels == wanted {
        samples
    } else if channels > wanted && wanted == 2 {
        front_pair(samples, channels)
    } else if channels == 1 && wanted == 2 {
        doubled(samples)
    } else {
        samples
    }
}

/// The four bytes of a sample, lowest first.
pub open spec fn sample_bytes(bits: u32) -> Seq<u8> {
    seq![
        (bits % 256) as u8,
        ((bits / 256) % 256) as u8,
        ((bits / 65536) % 256) as u8,
        (bits / 16777216) as u8,
    ]
}

/// The sample that four bytes from a position on make up.
pub open spec fn sample_at(bytes: Seq<u8>, at: int) -> int {
    bytes[at] + 256 * bytes[at + 1] + 65536 * bytes[at + 2] + 16777216 * bytes[at + 3]
}

/// The bytes of samples.
pub open spec fn bytes_of_samples(samples: Seq<u32>) -> Seq<u8> {
    Seq::new(samples.len() * 4, |i: int| sample_bytes(samples[i / 4])[i % 4])
}

/// The samples in bytes; what is left over at the end is ignored.
pub open spec fn samples_of_bytes(bytes: Seq<u8>) -> Seq<u32> {
    Seq::new(bytes.len() / 4, |i: int| sample_at(bytes, i * 4) as u32)
}

/// Samples per channel, waiting to be processed.
pub struct PlanarBuffer<T> {
    pub channels: Vec<Vec<T>>,
}

impl<T> View for PlanarBuffer<T> {
    type V = Seq<Seq<T>>;

    open spec fn view(&self) -> Seq<Seq<T>> {
        self.channels@.map_values(|channel: Vec<T>| channel@)
    }
}

/// Whether every channel holds a whole chunk.
pub open spec fn has_chunk<T>(channels: Seq<Seq<T>>, chunk: int) -> bool {
    forall|c: int| 0 <= c < channels.len() ==> (#[trigger] channels[c]).len() >= chunk
}

/// Whether any channel holds anything.
pub open spec fn has_any<T>(channels: Seq<Seq<T>>) -> bool {
    exists|c: int| 0 <= c < channels.len() && (#[trigger] channels[c]).len() > 0
}

/// A channel filled up to a length with the given sample.
pub open spec fn padded<T>(channel: Seq<T>, len: int, filler: T) -> Seq<T> {
    if channel.len() < len {
        channel + Seq::new((len - channel.len()) as nat, |i: int| filler)
    } else {
        channel
    }
}

impl<T: Copy> PlanarBuffer<T> {
    /// Empty channels.
    pub fn new(channels: usize) -> (buffer: Self)
        ensures
            buffer@ == Seq::new(channels as nat, |c: int| Seq::<T>::empty()),
    {
        let mut all: Vec<Vec<T>> = Vec::new();
        for c in 0..channels
            invariant
                all@.len() == c,
                forall|j: int| 0 <= j < c ==> (#[trigger] all@[j])@ == Seq::<T>::empty(),
        {
            all.push(Vec::new());
        }
        let buffer = PlanarBuffer { channels: all };
        assert(buffer@ =~= Seq::new(channels as nat, |c: int| Seq::<T>::empty()));
        buffer
    }

    /// Deals interleaved samples out to the channels.
    pub fn push_interleaved(&mut self, samples: &[T])
        requires
            old(self)@.len() > 0,
        ensures
            final(self)@.len() == old(self)@.len(),
            forall|c: int|
                0 <= c < old(self)@.len() ==> #[trigger] final(self)@[c] == old(self)@[c]
                    + channel_of(samples@, c, old(self)@.len() as int),
    {
        let n: usize = self.channels.len();
        let ghost before = self@;
        assert forall|c: int| 0 <= c < n implies #[trigger] self@[c] == before[c] + channel_of(
            samples@.take(0),
            c,
            n as int,
        ) by {
            assert(before[c] =~= before[c] + channel_of(samples@.take(0), c, n as int));
        }
        for i in 0..samples.len()
            invariant
                n > 0,
                n == self.channels@.len(),
                n == before.len(),
                forall|c: int|
                    0 <= c < n ==> #[trigger] self@[c] == before[c] + channel_of(
                        samples@.take(i as int),
                        c,
                        n as int,
                    ),
        {
            let ghost held = self@;
            let c: usize = i % n;
            let sample: T = samples[i];
            let mut channel: Vec<T> = Vec::new();
            std::mem::swap(&mut channel, &mut self.channels[c]);
            channel.push(sample);
            self.channels[c] = channel;
            proof {
                let part = samples@.take(i + 1);
                assert(part.drop_last() =~= samples@.take(i as int));
                assert(part.last() == sample);
                assert forall|d: int| 0 <= d < n implies #[trigger] self@[d] == before[d]
                    + channel_of(part, d, n as int) by {
                    if d == c {
                        assert(self@[d] =~= held[d].push(sample));
                        assert(self@[d] =~= before[d] + channel_of(part, d, n as int));
                    } else {
                        assert(self@[d] == held[d]);
                    }
                }
            }
        }
        assert(samples@.take(samples@.len() as int) =~= samples@);
    }

    /// Whether every channel holds a whole chunk.
    pub fn chunk_ready(&self, chunk: usize) -> (ready: bool)
        ensures
            ready == has_chunk(self@, chunk as int),
    {
        for c in 0..self.channels.len()
            invariant
                forall|j: int| 0 <= j < c ==> (#[trigger] self@[j]).len() >= chunk,
        {
            if self.channels[c].len() < chunk {
                assert(self@[c as int].len() < chunk);
                return false;
            }
        }
        true
    }

    /// Takes a chunk off the front of every channel.
    pub fn take_chunk(&mut self, chunk: usize) -> (taken: Vec<Vec<T>>)
        requires
            has_chunk(old(self)@, chunk as int),
        ensures
            taken@.len() == old(self)@.len(),
            final(self)@.len() == old(self)@.len(),
            forall|c: int|
                0 <= c < old(self)@.len() ==> (#[trigger] taken@[c])@ == old(self)@[c].take(
                    chunk as int,
                ),
            forall|c: int|
                0 <= c < old(self)@.len() ==> #[trigger] final(self)@[c] == old(self)@[c].skip(
                    chunk as int,
                ),
    {
        let ghost before = self@;
        let mut taken: Vec<Vec<T>> = Vec::new();
        let mut left: Vec<Vec<T>> = Vec::new();
        for c in 0..self.channels.len()
            invariant
                before == self@,
                has_chunk(before, chunk as int),
                taken@.len() == c,
                left@.len() == c,
                forall|j: int|
                    0 <= j < c ==> (#[trigger] taken@[j])@ == before[j].take(chunk as int),
                forall|j: int|
                    0 <= j < c ==> (#[trigger] left@[j])@ == before[j].skip(chunk as int),
        {
            let channel: &Vec<T> = &self.channels[c];
            assert(channel@ == before[c as int]);
            taken.push(copy_range(channel, 0, chunk));
            left.push(copy_range(channel, chunk, channel.len()));
            assert(taken@[c as int]@ =~= before[c as int].take(chunk as int));
            assert(left@[c as int]@ =~= before[c as int].skip(chunk as int));
        }
        self.channels = left;
        taken
    }

    /// Fills every channel up to the given length, where any channel holds anything. Returns
    /// whether that is so.
    pub fn pad_last(&mut self, len: usize, filler: T) -> (any: bool)
        ensures
            any == has_any(old(self)@),
            !any ==> final(self)@ == old(self)@,
            any ==> final(self)@ == old(self)@.map_values(
                |channel: Seq<T>| padded(channel, len as int, filler),
            ),
    {
        let ghost before = self@;
        let mut any: bool = false;
        for c in 0..self.channels.len()
            invariant
                before == self@,
                any == (exists|j: int| 0 <= j < c && (#[trigger] before[j]).len() > 0),
        {
            assert(self.channels@[c as int]@ == before[c as int]);
            if self.channels[c].len() > 0 {
                any = true;
            }
        }
        if !any {
            return false;
        }
        let mut filled: Vec<Vec<T>> = Vec::new();
        for c in 0..self.channels.len()
            invariant
                before == self@,
                filled@.len() == c,
                forall|j: int|
                    0 <= j < c ==> (#[trigger] filled@[j])@ == padded(
                        before[j],
                        len as int,
                        filler,
                    ),
        {
            let held: &Vec<T> = &self.channels[c];
            assert(held@ == before[c as int]);
            let mut channel: Vec<T> = copy_range(held, 0, held.len());
            assert(channel@ =~= before[c as int]);
            let start: usize = channel.len();
            if start < len {
                for k in start..len
                    invariant
                        start <= k,
                        start == before[c as int].len(),
                        channel@ == before[c as int] + Seq::new(
                            (k - start) as nat,
                            |i: int| filler,
                        ),
                {
                    channel.push(filler);
                    assert(channel@ =~= before[c as int] + Seq::new(
                        (k + 1 - start) as nat,
                        |i: int| filler,
                    ));
                }
            }
            filled.push(channel);
        }
        self.channels = filled;
        assert(self@ =~= before.map_values(
            |channel: Seq<T>| padded(channel, len as int, filler),
        ));
        true
    }
}

/// A copy of the samples from `from` up to `to`.
pub fn copy_range<T: Copy>(samples: &Vec<T>, from: usize, to: usize) -> (copy: Vec<T>)
    requires
        from <= to <= samples@.len(),
    ensures
        copy@ == samples@.subrange(from as int, to as int),
{
    let mut copy: Vec<T> = Vec::new();
    for i in from..to
        invariant
            from <= i,
            to <= samples@.len(),
            copy@ == samples@.subrange(from as int, i as int),
    {
        copy.push(samples[i]);
        assert(copy@ =~= samples@.subrange(from as int, i + 1));
    }
    copy
}

/// Puts the first `frames` samples of every channel in a row, frame by frame.
pub fn interleave<T: Copy>(channels: &Vec<Vec<T>>, frames: usize) -> (samples: Vec<T>)
    requires
        forall|c: int| 0 <= c < channels@.len() ==> frames <= (#[trigger] channels@[c])@.len(),
    ensures
        samples@ == interleaved(
            channels@.map_values(|channel: Vec<T>| channel@),
            frames as int,
            channels@.len() as int,
        ),
{
    let n: usize = channels.len();
    let ghost views = channels@.map_values(|channel: Vec<T>| channel@);
    let mut samples: Vec<T> = Vec::new();
    assert(0 * n == 0) by (nonlinear_arith);
    for f in 0..frames
        invariant
            n == channels@.len(),
            views == channels@.map_values(|channel: Vec<T>| channel@),
            samples@.len() == f * n,
            forall|c: int| 0 <= c < n ==> frames <= (#[trigger] channels@[c])@.len(),
            forall|i: int| 0 <= i < samples@.len() ==> samples@[i] == views[i % (n as int)][i / (
            n as int)],
    {
        for c in 0..n
            invariant
                f < frames,
                n == channels@.len(),
                views == channels@.map_values(|channel: Vec<T>| channel@),
                samples@.len() == f * n + c,
                forall|d: int| 0 <= d < n ==> frames <= (#[trigger] channels@[d])@.len(),
                forall|i: int|
                    0 <= i < samples@.len() ==> samples@[i] == views[i % (n as int)][i / (
                    n as int)],
        {
            samples.push(channels[c][f]);
            proof {
                vstd::arithmetic::div_mod::lemma_fundamental_div_mod_converse(
                    f * n + c,
                    n as int,
                    f as int,
                    c as int,
                );
            }
        }
        assert(f * n + n == (f + 1) * n) by (nonlinear_arith);
    }
    assert(samples@ =~= interleaved(views, frames as int, n as int));
    samples
}

/// Keeps the first two samples of each whole frame.
fn keep_front_pair<T: Copy>(samples: &Vec<T>, channels: usize) -> (pairs: Vec<T>)
    requires
        channels > 2,
    ensures
        pairs@ == front_pair(samples@, channels as int),
{
    let len: usize = samples.len();
    let frames: usize = len / channels;
    let mut pairs: Vec<T> = Vec::new();
    let mut at: usize = 0;
    assert(frames * channels <= samples@.len()) by (nonlinear_arith)
        requires
            frames == samples@.len() / channels as nat,
            channels > 2,
    ;
    assert(0 * channels == 0) by (nonlinear_arith);
    for f in 0..frames
        invariant
            channels > 2,
            at == f * channels,
            len == samples@.len(),
            frames * channels <= len,
            pairs@.len() == f * 2,
            forall|i: int|
                0 <= i < pairs@.len() ==> pairs@[i] == samples@[(i / 2) * channels + i % 2],
    {
        assert(f * channels + channels <= frames * channels) by (nonlinear_arith)
            requires
                f + 1 <= frames,
                channels > 2,
        ;
        pairs.push(samples[at]);
        pairs.push(samples[at + 1]);
        at = at + channels;
        assert(f * channels + channels == (f + 1) * channels) by (nonlinear_arith);
    }
    assert(pairs@ =~= front_pair(samples@, channels as int));
    pairs
}

/// Repeats each sample.
fn repeat_each<T: Copy>(samples: &Vec<T>) -> (pairs: Vec<T>)
    ensures
        pairs@ == doubled(samples@),
{
    let mut pairs: Vec<T> = Vec::new();
    for i in 0..samples.len()
        invariant
            pairs@.len() == i * 2,
            forall|j: int| 0 <= j < pairs@.len() ==> pairs@[j] == samples@[j / 2],
    {
        pairs.push(samples[i]);
        pairs.push(samples[i]);
    }
    assert(pairs@ =~= doubled(samples@));
    pairs
}

/// Brings samples to the wanted number of channels.
pub fn convert_channels<T: Copy>(samples: Vec<T>, channels: usize, wanted: u16) -> (converted: Vec<
    T,
>)
    ensures
        converted@ == with_channels(samples@, channels as int, wanted as int),
{
    if channels == wanted as usize {
        samples
    } else if channels > wanted as usize && wanted == 2 {
        keep_front_pair(&samples, channels)
    } else if channels == 1 && wanted == 2 {
        repeat_each(&samples)
    } else {
        samples
    }
}

/// Writes samples as bytes.
pub fn samples_to_bytes(samples: &Vec<u32>) -> (bytes: Vec<u8>)
    ensures
        bytes@ == bytes_of_samples(samples@),
{
    let mut bytes: Vec<u8> = Vec::new();
    for i in 0..samples.len()
        invariant
            bytes@.len() == i * 4,
            forall|j: int|
                0 <= j < bytes@.len() ==> bytes@[j] == sample_bytes(samples@[j / 4])[j % 4],
    {
        let bits: u32 = samples[i];
        bytes.push((bits % 256) as u8);
        bytes.push(((bits / 256) % 256) as u8);
        bytes.push(((bits / 65536) % 256) as u8);
        bytes.push((bits / 16777216) as u8);
    }
    assert(bytes@ =~= bytes_of_samples(samples@));
    bytes
}

/// Reads samples from bytes.
pub fn bytes_to_samples(bytes: &[u8]) -> (samples: Vec<u32>)
    ensures
        samples@ == samples_of_bytes(bytes@),
{
    let len: usize = bytes.len();
    let count: usize = len / 4;
    let mut samples: Vec<u32> = Vec::new();
    for i in 0..count
        invariant
            len == bytes@.len(),
            count == len / 4,
            samples@.len() == i,
            forall|j: int|
                0 <= j < i ==> #[trigger] samples@[j] == sample_at(bytes@, j * 4),
    {
        let at: usize = i * 4;
        let low: u32 = bytes[at] as u32 + 256 * (bytes[at + 1] as u32);
        let high: u32 = bytes[at + 2] as u32 + 256 * (bytes[at + 3] as u32);
        samples.push(low + 65536 * high);
    }
    assert(samples@ =~= samples_of_bytes(bytes@));
    samples
}

/// Samples survive being written as bytes and read back.
pub proof fn law_samples_survive_as_bytes(samples: Seq<u32>)
    ensures
        samples_of_bytes(bytes_of_samples(samples)) == samples,
{
    let bytes = bytes_of_samples(samples);
    assert forall|i: int| 0 <= i < samples.len() implies #[trigger] samples_of_bytes(bytes)[i]
        == samples[i] by {
        let bits = samples[i];
        let b = sample_bytes(bits);
        assert(bytes[i * 4] == b[0]);
        assert(bytes[i * 4 + 1] == b[1]);
        assert(bytes[i * 4 + 2] == b[2]);
        assert(bytes[i * 4 + 3] == b[3]);
    }
    assert(samples_of_bytes(bytes) =~= samples);
}

/// Dealing out one whole frame adds one sample to each channel.
proof fn lemma_frame_adds_one<T>(samples: Seq<T>, frame: Seq<T>, k: int, c: int, n: int)
    requires
        0 <= c < n,
        0 <= k <= n,
        frame.len() == n,
        samples.len() % n as nat == 0,
    ensures
        channel_of(samples + frame.take(k), c, n) == if c < k {
            channel_of(samples, c, n).push(frame[c])
        } else {
            channel_of(samples, c, n)
        },
    decreases k,
{
    if k == 0 {
        assert(samples + frame.take(0) =~= samples);
    } else {
        lemma_frame_adds_one(samples, frame, k - 1, c, n);
        let longer = samples + frame.take(k);
        assert(longer.drop_last() =~= samples + frame.take(k - 1));
        let q = samples.len() as int / n;
        assert(samples.len() == q * n) by {
            vstd::arithmetic::div_mod::lemma_fundamental_div_mod(samples.len() as int, n);
            assert(n * q == q * n) by (nonlinear_arith);
        }
        vstd::arithmetic::div_mod::lemma_fundamental_div_mod_converse(
            longer.len() - 1,
            n,
            q,
            k - 1,
        );
    }
}

/// Dealing out what was interleaved gives every channel back.
pub proof fn law_interleaving_round_trip<T>(channels: Seq<Seq<T>>, frames: int, c: int)
    requires
        0 <= c < channels.len(),
        0 <= frames,
        has_chunk(channels, frames),
    ensures
        channel_of(
            interleaved(channels, frames, channels.len() as int),
            c,
            channels.len() as int,
        ) == channels[c].take(frames),
    decreases frames,
{
    let n = channels.len() as int;
    let all = interleaved(channels, frames, n);
    if frames == 0 {
        assert(0 * n == 0) by (nonlinear_arith);
        assert(all =~= Seq::<T>::empty());
        assert(channels[c].take(0) =~= Seq::<T>::empty());
    } else {
        let before = interleaved(channels, frames - 1, n);
        law_interleaving_round_trip(channels, frames - 1, c);
        let frame = Seq::new(n as nat, |d: int| channels[d][frames - 1]);
        assert(frames * n == (frames - 1) * n + n) by (nonlinear_arith);
        assert(0 <= (frames - 1) * n) by (nonlinear_arith)
            requires
                frames >= 1,
                n >= 1,
        ;
        assert forall|i: int| 0 <= i < all.len() implies all[i] == (before + frame)[i] by {
            if i >= before.len() {
                let d = i - before.len();
                vstd::arithmetic::div_mod::lemma_fundamental_div_mod_converse(
                    i,
                    n,
                    frames - 1,
                    d,
                );
            }
        }
        assert(all =~= before + frame);
        assert(frame.take(n) =~= frame);
        vstd::arithmetic::div_mod::lemma_fundamental_div_mod_converse(
            (frames - 1) * n,
            n,
            frames - 1,
            0,
        );
        lemma_frame_adds_one(before, frame, n, c, n);
        assert(channels[c].take(frames) =~= channels[c].take(frames - 1).push(
            channels[c][frames - 1],
        ));
    }
}

/// Taking a chunk neither loses nor changes a sample.
pub proof fn law_chunks_lose_nothing<T>(channel: Seq<T>, chunk: int)
    requires
        0 <= chunk <= channel.len(),
    ensures
        channel.take(chunk) + channel.skip(chunk) == channel,
{
    assert(channel.take(chunk) + channel.skip(chunk) =~= channel);
}

/// Two channels stay as they are; from one channel both sides hear the same; and of more channels
/// both sides keep what they heard.
pub proof fn law_stereo_keeps_front<T>(samples: Seq<T>, channels: int, frame: int)
    requires
        channels >= 1,
        0 <= frame < samples.len() / channels as nat,
    ensures
        ({
            let stereo = with_channels(samples, channels, 2);
            let left = samples[frame * channels];
            let right = if channels == 1 {
                left
            } else {
                samples[frame * channels + 1]
            };
            stereo[frame * 2] == left && stereo[frame * 2 + 1] == right
        }),
{
    assert((frame * 2) / 2 == frame && (frame * 2 + 1) / 2 == frame);
    assert((frame * 2) % 2 == 0 && (frame * 2 + 1) % 2 == 1);
    if channels == 1 {
        assert(frame * channels == frame) by (nonlinear_arith)
            requires
                channels == 1,
        ;
        assert(samples.len() / 1 == samples.len());
    }
}

/// Each sample becomes four bytes, lowest first: they give its bits back by their weights.
pub proof fn law_bytes_weigh_up_to_samples(samples: Seq<u32>, i: int)
    requires
        0 <= i < samples.len(),
    ensures
        bytes_of_samples(samples).len() == samples.len() * 4,
        bytes_of_samples(samples)[4 * i] + 0x100 * bytes_of_samples(samples)[4 * i + 1] + 0x1_0000
            * bytes_of_samples(samples)[4 * i + 2] + 0x100_0000 * bytes_of_samples(samples)[4 * i
            + 3] == samples[i],
{
    let bytes = bytes_of_samples(samples);
    let b = sample_bytes(samples[i]);
    assert((4 * i) / 4 == i && (4 * i + 1) / 4 == i && (4 * i + 2) / 4 == i && (4 * i + 3) / 4
        == i);
    assert(bytes[4 * i] == b[0]);
    assert(bytes[4 * i + 1] == b[1]);
    assert(bytes[4 * i + 2] == b[2]);
    assert(bytes[4 * i + 3] == b[3]);
}

/// Every four bytes are read as one sample, lowest first, and up to three at the end are ignored.
pub proof fn law_samples_are_read_by_weight(bytes: Seq<u8>, i: int)
    requires
        0 <= i,
        4 * i + 3 < bytes.len(),
    ensures
        samples_of_bytes(bytes).len() * 4 <= bytes.len() < samples_of_bytes(bytes).len() * 4 + 4,
        samples_of_bytes(bytes)[i] == bytes[4 * i] + 0x100 * bytes[4 * i + 1] + 0x1_0000 * bytes[4
            * i + 2] + 0x100_0000 * bytes[4 * i + 3],
{
    assert(i * 4 == 4 * i);
}

/// Interleaving puts the samples of one frame next to each other, in the order of the channels.
pub proof fn law_frames_stand_together<T>(channels: Seq<Seq<T>>, frames: int, f: int, c: int)
    requires
        0 <= f < frames,
        0 <= c < channels.len(),
    ensures
        interleaved(channels, frames, channels.len() as int).len() == frames * channels.len(),
        interleaved(channels, frames, channels.len() as int)[f * channels.len() + c]
            == channels[c][f],
{
    let n = channels.len() as int;
    vstd::arithmetic::div_mod::lemma_fundamental_div_mod_converse(f * n + c, n, f, c);
    assert(0 <= f * n + c < frames * n) by (nonlinear_arith)
        requires
            0 <= f < frames,
            0 <= c < n,
    ;
}

/// A channel of interleaved samples holds one sample of each frame that reaches so far: the one
/// at its own place in the frame.
pub proof fn law_channel_holds_its_place<T>(samples: Seq<T>, c: int, n: int, k: int)
    requires
        0 <= c < n,
        0 <= k,
    ensures
        k < channel_of(samples, c, n).len() <==> k * n + c < samples.len(),
        k * n + c < samples.len() ==> channel_of(samples, c, n)[k] == samples[k * n + c],
    decreases samples.len(),
{
    assert(0 <= k * n) by (nonlinear_arith)
        requires
            0 <= k,
            0 < n,
    ;
    if samples.len() > 0 {
        let last = samples.len() - 1;
        let before = channel_of(samples.drop_last(), c, n);
        law_channel_holds_its_place(samples.drop_last(), c, n, k);
        let q = last / n;
        let r = last % n;
        vstd::arithmetic::div_mod::lemma_fundamental_div_mod(last, n);
        assert(n * q == q * n) by (nonlinear_arith);
        vstd::arithmetic::div_mod::lemma_div_pos_is_pos(last, n);
        if r == c {
            law_channel_holds_its_place(samples.drop_last(), c, n, q);
            if q > 0 {
                law_channel_holds_its_place(samples.drop_last(), c, n, q - 1);
                assert((q - 1) * n == q * n - n) by (nonlinear_arith);
            }
            assert(before.len() == q);
            if k < q {
                assert(k * n + n <= q * n) by (nonlinear_arith)
                    requires
                        k < q,
                        0 < n,
                ;
            } else if k > q {
                assert(k * n >= q * n + n) by (nonlinear_arith)
                    requires
                        k > q,
                        0 < n,
                ;
            }
        } else if k * n + c == last {
            vstd::arithmetic::div_mod::lemma_fundamental_div_mod_converse(last, n, k, c);
        }
    }
}

/// A channel is filled up behind what it holds, just as far as it is short.
pub proof fn law_padding_comes_last<T>(channel: Seq<T>, len: int, filler: T)
    ensures
        padded(channel, len, filler).len() == if channel.len() < len {
            len
        } else {
            channel.len() as int
        },
        forall|i: int|
            0 <= i < channel.len() ==> #[trigger] padded(channel, len, filler)[i] == channel[i],
        forall|i: int|
            channel.len() <= i < len ==> #[trigger] padded(channel, len, filler)[i] == filler,
{
}

/// A chunk is ready unless some channel is shorter, and there is something left unless every
/// channel is empty.
pub proof fn law_readiness_counts_every_channel<T>(channels: Seq<Seq<T>>, chunk: int, c: int)
    requires
        0 <= c < channels.len(),
    ensures
        channels[c].len() < chunk ==> !has_chunk(channels, chunk),
        channels[c].len() > 0 ==> has_any(channels),
        !has_chunk(channels, chunk) ==> exists|d: int|
            0 <= d < channels.len() && (#[trigger] channels[d]).len() < chunk,
        !has_any(channels) ==> channels[c].len() == 0,
        has_chunk(channels, chunk) ==> channels[c].len() >= chunk,
{
}

/// Only a conversion to two channels changes anything: one channel is doubled, of more than two
/// the first two of every whole frame are kept.
pub proof fn law_only_stereo_is_made<T>(samples: Seq<T>, channels: int, wanted: int)
    requires
        channels >= 1,
    ensures
        wanted != 2 || channels == 2 ==> with_channels(samples, channels, wanted) == samples,
        channels == 1 ==> with_channels(samples, channels, 2).len() == 2 * samples.len(),
        channels > 2 ==> with_channels(samples, channels, 2).len() == 2 * (samples.len() as int
            / channels),
{
}

} // verus!
