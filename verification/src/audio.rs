//! The playback side of the audio pipeline: the events the orchestrator
//! sends to it, the send-buffer that repacks audio into hardware chunks, and
//! the decisions of the real-time loop.

use std::collections::VecDeque;
use vstd::arithmetic::div_mod::lemma_fundamental_div_mod_converse;
use vstd::prelude::*;

use crate::pcm::{decode_le, get_volume, pcm_from_le_bytes, scaled, scaled_seq, MAX_VOLUME};

verus! {

/// Names one completion signal. Whoever is handed the signal back fires it;
/// the one who made it waits for that.
#[derive(Debug, Clone, Copy, PartialEq, Eq, Structural)]
pub struct CompletionSignal {
    pub id: u64,
}

/// A command from the orchestrator to the audio loop.
#[derive(Debug, Clone, PartialEq, Eq)]
pub enum AudioEvent {
    /// Play the greeting, then fire the signal.
    Hello(CompletionSignal),
    /// Replace the greeting sound (little-endian PCM bytes).
    SetHello(Vec<u8>),
    /// Stop playback for a barge-in, then fire the signal.
    Interrupt(CompletionSignal),
    /// Speech follows; playback may start.
    StartSpeech,
    /// Speech as little-endian PCM bytes, with the mouth shape that starts
    /// with it.
    SpeechChunk(Vec<u8>, Option<u8>),
    /// Speech as samples, with the mouth shape that starts with it.
    SpeechChunki16(Vec<i16>, Option<u8>),
    /// Fire the signal once everything queued before it has been played.
    EndSpeech(CompletionSignal),
    /// Drop what is queued.
    ClearSpeech,
    /// Set the volume level.
    VolSet(u8),
}

/// What an `AudioEvent` holds.
pub enum AudioEventView {
    Hello(CompletionSignal),
    SetHello(Seq<u8>),
    Interrupt(CompletionSignal),
    StartSpeech,
    SpeechChunk(Seq<u8>, Option<u8>),
    SpeechChunki16(Seq<i16>, Option<u8>),
    EndSpeech(CompletionSignal),
    ClearSpeech,
    VolSet(u8),
}

impl View for AudioEvent {
    type V = AudioEventView;

    open spec fn view(&self) -> AudioEventView {
        match *self {
            AudioEvent::Hello(signal) => AudioEventView::Hello(signal),
            AudioEvent::SetHello(data) => AudioEventView::SetHello(data@),
            AudioEvent::Interrupt(signal) => AudioEventView::Interrupt(signal),
            AudioEvent::StartSpeech => AudioEventView::StartSpeech,
            AudioEvent::SpeechChunk(data, viseme) => AudioEventView::SpeechChunk(data@, viseme),
            AudioEvent::SpeechChunki16(samples, viseme) => AudioEventView::SpeechChunki16(
                samples@,
                viseme,
            ),
            AudioEvent::EndSpeech(signal) => AudioEventView::EndSpeech(signal),
            AudioEvent::ClearSpeech => AudioEventView::ClearSpeech,
            AudioEvent::VolSet(level) => AudioEventView::VolSet(level),
        }
    }
}

/// One entry of the send-buffer's queue.
#[derive(Debug, Clone, PartialEq, Eq)]
pub enum SendBufferItem {
    /// One hardware chunk of scaled samples.
    Audio(Vec<i16>),
    /// The mouth shape that starts with the chunk behind it.
    Viseme(u8),
    /// Fire the signal when this entry is reached.
    EndSpeech(CompletionSignal),
}

/// What a `SendBufferItem` holds.
pub enum ItemView {
    Audio(Seq<i16>),
    Viseme(u8),
    EndSpeech(CompletionSignal),
}

impl View for SendBufferItem {
    type V = ItemView;

    open spec fn view(&self) -> ItemView {
        match *self {
            SendBufferItem::Audio(samples) => ItemView::Audio(samples@),
            SendBufferItem::Viseme(index) => ItemView::Viseme(index),
            SendBufferItem::EndSpeech(signal) => ItemView::EndSpeech(signal),
        }
    }
}

/// The views of a queue's entries, in order.
pub open spec fn item_views(items: Seq<SendBufferItem>) -> Seq<ItemView> {
    items.map_values(|item: SendBufferItem| item@)
}

/// The completion signals among `items`, in order.
pub open spec fn signals_of(items: Seq<ItemView>) -> Seq<CompletionSignal>
    decreases items.len(),
{
    if items.len() == 0 {
        Seq::empty()
    } else {
        match items.last() {
            ItemView::EndSpeech(signal) => signals_of(items.drop_last()).push(signal),
            _ => signals_of(items.drop_last()),
        }
    }
}

/// The chunks of audio among `items`, in order.
pub open spec fn chunks_of(items: Seq<ItemView>) -> Seq<Seq<i16>>
    decreases items.len(),
{
    if items.len() == 0 {
        Seq::empty()
    } else {
        match items.last() {
            ItemView::Audio(samples) => chunks_of(items.drop_last()).push(samples),
            _ => chunks_of(items.drop_last()),
        }
    }
}

/// The last mouth shape among `items`, if there is one.
pub open spec fn last_viseme(items: Seq<ItemView>) -> Option<u8>
    decreases items.len(),
{
    if items.len() == 0 {
        None
    } else {
        match items.last() {
            ItemView::Viseme(index) => Some(index),
            _ => last_viseme(items.drop_last()),
        }
    }
}

/// How many entries stand before the first chunk of audio; the length of
/// `items` where it holds no audio.
pub open spec fn lead(items: Seq<ItemView>) -> int
    decreases items.len(),
{
    if items.len() == 0 {
        0
    } else if items[0] is Audio {
        0
    } else {
        1 + lead(items.drop_first())
    }
}

/// `lead` is the least index that holds audio.
pub proof fn lemma_lead(items: Seq<ItemView>)
    ensures
        0 <= lead(items) <= items.len(),
        lead(items) < items.len() ==> items[lead(items)] is Audio,
        forall|k: int| 0 <= k < lead(items) ==> !(#[trigger] items[k] is Audio),
    decreases items.len(),
{
    if items.len() > 0 && !(items[0] is Audio) {
        let tail = items.drop_first();
        lemma_lead(tail);
        assert forall|k: int| 0 <= k < lead(items) implies !(#[trigger] items[k] is Audio) by {
            if k > 0 {
                assert(tail[k - 1] == items[k]);
            }
        }
    }
}

/// An index that holds audio behind entries that hold none is the `lead`.
pub proof fn lemma_lead_is(items: Seq<ItemView>, at: int)
    requires
        0 <= at <= items.len(),
        at < items.len() ==> items[at] is Audio,
        forall|k: int| 0 <= k < at ==> !(#[trigger] items[k] is Audio),
    ensures
        lead(items) == at,
{
    lemma_lead(items);
    let l = lead(items);
    if l < at {
        assert(!(items[l] is Audio));
    } else if at < l {
        assert(items[at] is Audio);
    }
}

/// The `index`-th full chunk of `all`, scaled by `level`.
pub open spec fn chunk_at(all: Seq<i16>, size: int, level: u8, index: int) -> Seq<i16> {
    scaled_seq(all.subrange(index * size, (index + 1) * size), level as int)
}

/// The full chunks of `size` samples that `all` holds, each scaled by
/// `level`, as queue entries.
pub open spec fn chunked(all: Seq<i16>, size: int, level: u8) -> Seq<ItemView> {
    Seq::new(
        (all.len() as int / size) as nat,
        |i: int| ItemView::Audio(chunk_at(all, size, level, i)),
    )
}

/// What is left of `all` behind its full chunks of `size` samples.
pub open spec fn remainder(all: Seq<i16>, size: int) -> Seq<i16> {
    all.subrange((all.len() as int / size) * size, all.len() as int)
}

/// What a `SendBuffer` holds.
pub struct SendBufferView {
    /// The queue, front first.
    pub items: Seq<ItemView>,
    /// Samples of one chunk.
    pub chunk_size: usize,
    /// Samples that do not fill a chunk yet, unscaled.
    pub rest: Seq<i16>,
    /// The level that completed chunks are scaled by.
    pub volume: u8,
}

impl SendBufferView {
    /// Every chunk in the queue is full, and the carry-over is not.
    pub open spec fn wf(self) -> bool {
        &&& self.chunk_size > 0
        &&& self.rest.len() < self.chunk_size
        &&& forall|i: int|
            0 <= i < self.items.len() ==> (#[trigger] self.items[i] matches ItemView::Audio(
                samples,
            ) ==> samples.len() == self.chunk_size)
    }

    /// The buffer after `data` was pushed: the carry-over and `data`
    /// together are cut into full chunks, which are scaled and queued; what
    /// does not fill a chunk is carried over.
    pub open spec fn pushed(self, data: Seq<i16>) -> SendBufferView {
        SendBufferView {
            items: self.items + chunked(self.rest + data, self.chunk_size as int, self.volume),
            rest: remainder(self.rest + data, self.chunk_size as int),
            ..self
        }
    }

    /// The buffer after one more entry was queued.
    pub open spec fn queued(self, item: ItemView) -> SendBufferView {
        SendBufferView { items: self.items.push(item), ..self }
    }

    /// The buffer after the front of the queue, up to and with the first
    /// chunk of audio, was taken out.
    pub open spec fn dequeued(self) -> SendBufferView {
        SendBufferView {
            items: if lead(self.items) < self.items.len() {
                self.items.skip(lead(self.items) + 1)
            } else {
                Seq::empty()
            },
            ..self
        }
    }

    /// The buffer after the queue was dropped. The carry-over stays.
    pub open spec fn cleared(self) -> SendBufferView {
        SendBufferView { items: Seq::empty(), ..self }
    }
}

/// What one call of `get_chunk` took out of the queue.
#[derive(Debug, Clone, PartialEq, Eq)]
pub struct Dequeued {
    /// The chunk to play, or `None` where the queue held no audio.
    pub chunk: Option<Vec<i16>>,
    /// The completion signals that were passed, in order. They are to be
    /// fired.
    pub signals: Vec<CompletionSignal>,
    /// The last mouth shape that was passed: the one that goes with the
    /// chunk.
    pub viseme: Option<u8>,
}

/// Repacks audio of any length into chunks of the hardware's size, scaled
/// by the volume, and queues them between mouth shapes and completion
/// markers.
pub struct SendBuffer {
    cache: VecDeque<SendBufferItem>,
    chunk_size: usize,
    rest: Vec<i16>,
    volume: u8,
}

impl View for SendBuffer {
    type V = SendBufferView;

    closed spec fn view(&self) -> SendBufferView {
        SendBufferView {
            items: item_views(self.cache@),
            chunk_size: self.chunk_size,
            rest: self.rest@,
            volume: self.volume,
        }
    }
}

/// Scales every sample of a chunk.
fn scale_chunk(samples: Vec<i16>, level: u8) -> (out: Vec<i16>)
    ensures
        out@ == scaled_seq(samples@, level as int),
{
    let mut out = samples;
    let n: usize = out.len();
    let mut i: usize = 0;
    while i < n
        invariant
            n == samples@.len(),
            out@.len() == n,
            i <= n,
            forall|k: int| 0 <= k < i ==> #[trigger] out@[k] == scaled(
                samples@[k] as int,
                level as int,
            ) as i16,
            forall|k: int| i <= k < n ==> #[trigger] out@[k] == samples@[k],
        decreases n - i,
    {
        let v: i16 = get_volume(out[i], level);
        out.set(i, v);
        i += 1;
    }
    assert(out@ =~= scaled_seq(samples@, level as int));
    out
}

impl SendBuffer {
    /// An empty buffer for chunks of `chunk_size` samples, at full volume.
    pub fn new(chunk_size: usize) -> (buffer: Self)
        requires
            chunk_size > 0,
        ensures
            buffer@ == (SendBufferView {
                items: Seq::empty(),
                chunk_size,
                rest: Seq::empty(),
                volume: crate::pcm::MAX_VOLUME,
            }),
            buffer@.wf(),
    {
        let buffer = SendBuffer {
            cache: VecDeque::new(),
            chunk_size,
            rest: Vec::new(),
            volume: crate::pcm::MAX_VOLUME,
        };
        assert(buffer@.items =~= Seq::empty());
        buffer
    }

    pub fn chunk_size(&self) -> (size: usize)
        ensures
            size == self@.chunk_size,
    {
        self.chunk_size
    }

    pub fn volume(&self) -> (level: u8)
        ensures
            level == self@.volume,
    {
        self.volume
    }

    /// Number of entries in the queue.
    pub fn len(&self) -> (n: usize)
        ensures
            n == self@.items.len(),
    {
        self.cache.len()
    }

    /// Number of samples carried over.
    pub fn rest_len(&self) -> (n: usize)
        ensures
            n == self@.rest.len(),
    {
        self.rest.len()
    }

    /// Sets the level that chunks completed from now on are scaled by.
    pub fn set_volume(&mut self, level: u8)
        ensures
            final(self)@ == (SendBufferView { volume: level, ..old(self)@ }),
    {
        self.volume = level;
    }

    fn queue(&mut self, item: SendBufferItem)
        ensures
            final(self)@ == old(self)@.queued(item@),
    {
        self.cache.push_back(item);
        assert(item_views(self.cache@) =~= item_views(old(self).cache@).push(item@));
    }

    /// Queues samples; see `SendBufferView::pushed`.
    pub fn push_i16(&mut self, data: &[i16])
        requires
            old(self)@.wf(),
        ensures
            final(self)@ == old(self)@.pushed(data@),
            final(self)@.wf(),
    {
        let ghost before = self@;
        let ghost all = before.rest + data@;
        let ghost size = before.chunk_size as int;
        let ghost mut full: int = 0;
        let n: usize = data.len();
        let mut i: usize = 0;
        assert(self@.items =~= before.items + Seq::<ItemView>::empty());
        while i < n
            invariant
                n == data@.len(),
                i <= n,
                before.wf(),
                self@.wf(),
                size == before.chunk_size as int,
                all == before.rest + data@,
                self@.chunk_size == before.chunk_size,
                self@.volume == before.volume,
                0 <= full,
                before.rest.len() + i == full * size + self@.rest.len(),
                self@.rest == all.subrange(full * size, before.rest.len() + i),
                self@.items == before.items + Seq::new(
                    full as nat,
                    |k: int| ItemView::Audio(chunk_at(all, size, before.volume, k)),
                ),
            decreases n - i,
        {
            let ghost consumed = before.rest.len() + i;
            let ghost rest_before = self.rest@;
            let ghost items_before = self@.items;
            assert(all[consumed as int] == data@[i as int]);
            self.rest.push(data[i]);
            assert(self.rest@ =~= all.subrange(full * size, consumed + 1));
            if self.rest.len() == self.chunk_size {
                let mut chunk: Vec<i16> = Vec::new();
                core::mem::swap(&mut chunk, &mut self.rest);
                let scaled_chunk = scale_chunk(chunk, self.volume);
                proof {
                    assert((full + 1) * size == full * size + size) by (nonlinear_arith);
                    assert(scaled_chunk@ == chunk_at(all, size, before.volume, full));
                }
                let ghost queued_before = self@;
                self.queue(SendBufferItem::Audio(scaled_chunk));
                proof {
                    assert(self@.items =~= before.items + Seq::new(
                        (full + 1) as nat,
                        |k: int| ItemView::Audio(chunk_at(all, size, before.volume, k)),
                    ));
                    full = full + 1;
                    assert(self@.rest =~= all.subrange(full * size, consumed + 1));
                }
            }
            i += 1;
        }
        proof {
            lemma_fundamental_div_mod_converse(
                all.len() as int,
                size,
                full,
                self@.rest.len() as int,
            );
            assert(self@.items =~= before.pushed(data@).items);
            assert(self@.rest =~= before.pushed(data@).rest);
        }
    }

    /// Queues the samples framed by little-endian bytes; an odd trailing
    /// byte is dropped.
    pub fn push_u8(&mut self, data: &[u8])
        requires
            old(self)@.wf(),
        ensures
            final(self)@ == old(self)@.pushed(decode_le(data@)),
            final(self)@.wf(),
    {
        let samples = pcm_from_le_bytes(data);
        self.push_i16(samples.as_slice());
    }

    /// Queues a mouth shape at the chunk boundary reached so far.
    pub fn push_viseme(&mut self, index: u8)
        requires
            old(self)@.wf(),
        ensures
            final(self)@ == old(self)@.queued(ItemView::Viseme(index)),
            final(self)@.wf(),
    {
        self.queue(SendBufferItem::Viseme(index));
    }

    /// Queues a completion marker behind everything queued so far.
    pub fn push_back_end_speech(&mut self, notify: CompletionSignal)
        requires
            old(self)@.wf(),
        ensures
            final(self)@ == old(self)@.queued(ItemView::EndSpeech(notify)),
            final(self)@.wf(),
    {
        self.queue(SendBufferItem::EndSpeech(notify));
    }

    /// Takes the next chunk of audio out of the queue, passing the markers
    /// before it: their signals and the last mouth shape are handed out
    /// with the chunk. Where the queue holds no audio it is emptied and no
    /// chunk is returned.
    pub fn get_chunk(&mut self) -> (out: Dequeued)
        requires
            old(self)@.wf(),
        ensures
            final(self)@ == old(self)@.dequeued(),
            final(self)@.wf(),
            out.signals@ == signals_of(old(self)@.items.take(lead(old(self)@.items))),
            out.viseme == last_viseme(old(self)@.items.take(lead(old(self)@.items))),
            match out.chunk {
                Some(samples) => {
                    &&& lead(old(self)@.items) < old(self)@.items.len()
                    &&& old(self)@.items[lead(old(self)@.items)] == ItemView::Audio(samples@)
                    &&& samples@.len() == old(self)@.chunk_size
                },
                None => lead(old(self)@.items) == old(self)@.items.len(),
            },
    {
        let ghost before = self@;
        let mut signals: Vec<CompletionSignal> = Vec::new();
        let mut viseme: Option<u8> = None;
        let mut chunk: Option<Vec<i16>> = None;
        let ghost mut passed: int = 0;
        assert(before.items.take(0) =~= Seq::<ItemView>::empty());
        assert(before.items.skip(0) =~= before.items);
        loop
            invariant_except_break
                chunk is None,
                self@.items == before.items.skip(passed),
            invariant
                before.wf(),
                before == old(self)@,
                self@.chunk_size == before.chunk_size,
                self@.rest == before.rest,
                self@.volume == before.volume,
                0 <= passed <= before.items.len(),
                forall|k: int| 0 <= k < passed ==> !(#[trigger] before.items[k] is Audio),
                signals@ == signals_of(before.items.take(passed)),
                viseme == last_viseme(before.items.take(passed)),
            ensures
                match chunk {
                    Some(samples) => {
                        &&& passed < before.items.len()
                        &&& before.items[passed] == ItemView::Audio(samples@)
                        &&& self@.items == before.items.skip(passed + 1)
                    },
                    None => passed == before.items.len() && self@.items == Seq::<
                        ItemView,
                    >::empty(),
                },
            decreases before.items.len() - passed,
        {
            let ghost queue_before = self.cache@;
            let front = self.cache.pop_front();
            proof {
                if front is Some {
                    assert(item_views(self.cache@) =~= item_views(queue_before).skip(1));
                    assert(before.items.skip(passed).skip(1) =~= before.items.skip(passed + 1));
                    assert(item_views(queue_before)[0] == front->0@);
                    assert(before.items.skip(passed)[0] == before.items[passed]);
                    assert(before.items.take(passed + 1).drop_last() =~= before.items.take(
                        passed,
                    ));
                    assert(before.items.take(passed + 1).last() == before.items[passed]);
                } else {
                    assert(item_views(queue_before).len() == 0);
                    assert(before.items.skip(passed).len() == 0);
                    assert(self@.items =~= Seq::<ItemView>::empty());
                }
            }
            match front {
                Some(SendBufferItem::Audio(samples)) => {
                    chunk = Some(samples);
                    break ;
                },
                Some(SendBufferItem::Viseme(index)) => {
                    viseme = Some(index);
                    proof {
                        passed = passed + 1;
                    }
                },
                Some(SendBufferItem::EndSpeech(signal)) => {
                    signals.push(signal);
                    proof {
                        passed = passed + 1;
                    }
                },
                None => {
                    break ;
                },
            }
        }
        proof {
            lemma_lead_is(before.items, passed);
            assert forall|i: int| 0 <= i < self@.items.len() implies (
            #[trigger] self@.items[i] matches ItemView::Audio(samples) ==> samples.len()
                == self@.chunk_size) by {
                assert(self@.items[i] == before.items[passed + 1 + i]);
            }
        }
        Dequeued { chunk, signals, viseme }
    }

    /// Drops the queue and hands out every completion signal that was in
    /// it, in order: they are to be fired. The carry-over stays.
    pub fn clear(&mut self) -> (signals: Vec<CompletionSignal>)
        ensures
            final(self)@ == old(self)@.cleared(),
            signals@ == signals_of(old(self)@.items),
            old(self)@.wf() ==> final(self)@.wf(),
    {
        let ghost before = self@;
        let mut signals: Vec<CompletionSignal> = Vec::new();
        let ghost mut passed: int = 0;
        assert(before.items.take(0) =~= Seq::<ItemView>::empty());
        assert(before.items.skip(0) =~= before.items);
        loop
            invariant_except_break
                self@.items == before.items.skip(passed),
            invariant
                before == old(self)@,
                self@.chunk_size == before.chunk_size,
                self@.rest == before.rest,
                self@.volume == before.volume,
                0 <= passed <= before.items.len(),
                signals@ == signals_of(before.items.take(passed)),
            ensures
                passed == before.items.len(),
                self@.items == Seq::<ItemView>::empty(),
            decreases before.items.len() - passed,
        {
            let ghost queue_before = self.cache@;
            let front = self.cache.pop_front();
            proof {
                if front is Some {
                    assert(item_views(self.cache@) =~= item_views(queue_before).skip(1));
                    assert(before.items.skip(passed).skip(1) =~= before.items.skip(passed + 1));
                    assert(item_views(queue_before)[0] == front->0@);
                    assert(before.items.skip(passed)[0] == before.items[passed]);
                    assert(before.items.take(passed + 1).drop_last() =~= before.items.take(
                        passed,
                    ));
                    assert(before.items.take(passed + 1).last() == before.items[passed]);
                } else {
                    assert(item_views(queue_before).len() == 0);
                    assert(before.items.skip(passed).len() == 0);
                    assert(self@.items =~= Seq::<ItemView>::empty());
                }
            }
            match front {
                Some(SendBufferItem::EndSpeech(signal)) => {
                    signals.push(signal);
                    proof {
                        passed = passed + 1;
                    }
                },
                Some(_) => {
                    proof {
                        passed = passed + 1;
                    }
                },
                None => {
                    break ;
                },
            }
        }
        assert(before.items.take(passed) =~= before.items);
        signals
    }
}

/// The chunks that repeated calls of `get_chunk` hand out until the queue
/// is empty, in order.
pub open spec fn drained(buffer: SendBufferView) -> Seq<Seq<i16>>
    decreases buffer.items.len(),
{
    if 0 <= lead(buffer.items) < buffer.items.len() {
        seq![buffer.items[lead(buffer.items)]->Audio_0] + drained(buffer.dequeued())
    } else {
        Seq::empty()
    }
}

/// The chunks of two queues in a row are the chunks of the one followed by
/// the chunks of the other; so for the signals.
pub proof fn lemma_concat(a: Seq<ItemView>, b: Seq<ItemView>)
    ensures
        chunks_of(a + b) == chunks_of(a) + chunks_of(b),
        signals_of(a + b) == signals_of(a) + signals_of(b),
    decreases b.len(),
{
    if b.len() == 0 {
        assert(a + b =~= a);
        assert(chunks_of(a) + chunks_of(b) =~= chunks_of(a));
        assert(signals_of(a) + signals_of(b) =~= signals_of(a));
    } else {
        lemma_concat(a, b.drop_last());
        assert((a + b).drop_last() =~= a + b.drop_last());
        assert((a + b).last() == b.last());
        match b.last() {
            ItemView::Audio(samples) => {
                assert(chunks_of(a + b) =~= chunks_of(a) + chunks_of(b));
            },
            ItemView::EndSpeech(signal) => {
                assert(signals_of(a + b) =~= signals_of(a) + signals_of(b));
            },
            _ => {},
        }
    }
}

/// Entries that hold no audio hold no chunks.
pub proof fn lemma_no_audio_no_chunks(items: Seq<ItemView>)
    requires
        forall|k: int| 0 <= k < items.len() ==> !(#[trigger] items[k] is Audio),
    ensures
        chunks_of(items) == Seq::<Seq<i16>>::empty(),
    decreases items.len(),
{
    if items.len() > 0 {
        assert(!(items[items.len() - 1] is Audio));
        lemma_no_audio_no_chunks(items.drop_last());
    }
}

/// Repeated `get_chunk` hands out exactly the chunks in the queue, in the
/// order in which they were queued.
pub proof fn lemma_drained_is_chunks(buffer: SendBufferView)
    ensures
        drained(buffer) == chunks_of(buffer.items),
    decreases buffer.items.len(),
{
    let items = buffer.items;
    let at = lead(items);
    lemma_lead(items);
    if at < items.len() {
        let head = items.take(at);
        let one = seq![items[at]];
        let tail = items.skip(at + 1);
        assert(items =~= head + one + tail);
        lemma_drained_is_chunks(buffer.dequeued());
        lemma_no_audio_no_chunks(head);
        lemma_concat(head + one, tail);
        lemma_concat(head, one);
        assert(one.last() == items[at]);
        assert(one.drop_last() =~= Seq::<ItemView>::empty());
        assert(chunks_of(one.drop_last()) =~= Seq::<Seq<i16>>::empty());
        assert(chunks_of(one) =~= seq![items[at]->Audio_0]);
        assert(chunks_of(items) =~= seq![items[at]->Audio_0] + chunks_of(tail));
    } else {
        lemma_no_audio_no_chunks(items);
    }
}

/// A queue of audio only holds its audio as chunks, one by one.
pub proof fn lemma_chunks_of_chunked(all: Seq<i16>, size: int, level: u8, count: nat)
    ensures
        chunks_of(Seq::new(count, |i: int| ItemView::Audio(chunk_at(all, size, level, i))))
            == Seq::new(count, |i: int| chunk_at(all, size, level, i)),
    decreases count,
{
    let items = Seq::new(count, |i: int| ItemView::Audio(chunk_at(all, size, level, i)));
    if count > 0 {
        let fewer = (count - 1) as nat;
        lemma_chunks_of_chunked(all, size, level, fewer);
        assert(items.drop_last() =~= Seq::new(
            fewer,
            |i: int| ItemView::Audio(chunk_at(all, size, level, i)),
        ));
        assert(chunks_of(items) =~= Seq::new(count, |i: int| chunk_at(all, size, level, i)));
    } else {
        assert(chunks_of(items) =~= Seq::new(count, |i: int| chunk_at(all, size, level, i)));
    }
}

/// Pushing into an empty buffer and then taking chunks until none is left
/// yields one chunk for every `chunk_size` samples of the input, each of
/// exactly `chunk_size` samples: the input's samples in their order, scaled.
/// What does not fill a chunk is carried over, unscaled and in order.
pub proof fn lemma_push_then_drain(chunk_size: usize, volume: u8, data: Seq<i16>)
    requires
        chunk_size > 0,
    ensures
        ({
            let fresh = SendBufferView {
                items: Seq::empty(),
                chunk_size,
                rest: Seq::empty(),
                volume,
            };
            let chunks = drained(fresh.pushed(data));
            let count = data.len() as int / chunk_size as int;
            &&& chunks.len() == count
            &&& count * chunk_size <= data.len() < (count + 1) * chunk_size
            &&& forall|i: int|
                0 <= i < count ==> (#[trigger] chunks[i]).len() == chunk_size
            &&& forall|i: int, j: int|
                0 <= i < count && 0 <= j < chunk_size ==> (#[trigger] chunks[i][j]) as int
                    == scaled(data[i * chunk_size + j] as int, volume as int)
            &&& fresh.pushed(data).rest == data.skip(count * chunk_size)
        }),
{
    let fresh = SendBufferView { items: Seq::empty(), chunk_size, rest: Seq::empty(), volume };
    let size = chunk_size as int;
    let count = data.len() as int / size;
    let after = fresh.pushed(data);
    assert(fresh.rest + data =~= data);
    assert(after.items =~= chunked(data, size, volume));
    lemma_drained_is_chunks(after);
    lemma_chunks_of_chunked(data, size, volume, count as nat);
    assert(count * size <= data.len() < (count + 1) * size) by (nonlinear_arith)
        requires
            size > 0,
            data.len() >= 0,
            count == data.len() as int / size,
    ;
    let chunks = drained(after);
    assert forall|i: int| 0 <= i < count implies (#[trigger] chunks[i]).len() == chunk_size by {
        assert(i * size + size <= count * size) by (nonlinear_arith)
            requires
                0 <= i < count,
                size > 0,
        ;
        assert((i + 1) * size == i * size + size) by (nonlinear_arith);
        assert(0 <= i * size) by (nonlinear_arith)
            requires
                0 <= i,
                size > 0,
        ;
    }
    assert forall|i: int, j: int| 0 <= i < count && 0 <= j < chunk_size implies (
    #[trigger] chunks[i][j]) as int == scaled(data[i * chunk_size + j] as int, volume as int) by {
        assert(i * size + size <= count * size) by (nonlinear_arith)
            requires
                0 <= i < count,
                size > 0,
        ;
        assert((i + 1) * size == i * size + size) by (nonlinear_arith);
        assert(0 <= i * size) by (nonlinear_arith)
            requires
                0 <= i,
                size > 0,
        ;
        crate::pcm::lemma_scaled_bounds(data[i * size + j] as int, volume as int);
    }
    assert(after.rest =~= data.skip(count * size));
}

/// Every completion marker in a queue is among the signals that `clear`
/// hands out, wherever in the queue it stands.
pub proof fn lemma_every_marker_signalled(items: Seq<ItemView>, at: int)
    requires
        0 <= at < items.len(),
        items[at] is EndSpeech,
    ensures
        signals_of(items).contains(items[at]->EndSpeech_0),
    decreases items.len(),
{
    let signal = items[at]->EndSpeech_0;
    if at == items.len() - 1 {
        let before = signals_of(items.drop_last());
        assert(signals_of(items) == before.push(signal));
        assert(before.push(signal)[before.len() as int] == signal);
    } else {
        lemma_every_marker_signalled(items.drop_last(), at);
        let before = signals_of(items.drop_last());
        let k = choose|k: int| 0 <= k < before.len() && before[k] == signal;
        match items.last() {
            ItemView::EndSpeech(other) => {
                assert(signals_of(items)[k] == signal);
            },
            _ => {},
        }
    }
}

/// Volume level of the player when it starts.
pub const PLAYER_VOLUME: u8 = 3;

/// The level the player keeps for a requested level.
pub open spec fn kept_level(level: u8) -> u8 {
    if level > MAX_VOLUME {
        MAX_VOLUME
    } else {
        level
    }
}

/// What an `AudioLoop` holds.
pub struct AudioLoopView {
    pub buffer: SendBufferView,
    /// The greeting sound, as little-endian PCM bytes.
    pub hello: Seq<u8>,
    /// Whether queued speech may be played.
    pub allow_speech: bool,
    /// Whether a chunk was played in the last period.
    pub playing: bool,
    /// The chunk played in the last period: the echo reference of the next.
    pub reference: Option<Seq<i16>>,
}

impl AudioLoopView {
    pub open spec fn wf(self) -> bool {
        self.buffer.wf()
    }

    /// The buffer after a piece of speech, with the mouth shape that starts
    /// with it, was queued.
    pub open spec fn with_speech(self, samples: Seq<i16>, viseme: Option<u8>) -> SendBufferView {
        match viseme {
            Some(index) => self.buffer.queued(ItemView::Viseme(index)).pushed(samples),
            None => self.buffer.pushed(samples),
        }
    }

    /// The loop after an event from the orchestrator, and the completion
    /// signals to fire at once.
    pub open spec fn on_event(self, event: AudioEventView) -> (
        AudioLoopView,
        Seq<CompletionSignal>,
    ) {
        match event {
            AudioEventView::Interrupt(signal) => (
                AudioLoopView { allow_speech: false, buffer: self.buffer.cleared(), ..self },
                signals_of(self.buffer.items).push(signal),
            ),
            AudioEventView::Hello(signal) => (
                AudioLoopView {
                    allow_speech: true,
                    buffer: self.buffer.cleared().pushed(decode_le(self.hello)).queued(
                        ItemView::EndSpeech(signal),
                    ),
                    ..self
                },
                signals_of(self.buffer.items),
            ),
            AudioEventView::SetHello(sound) => (
                AudioLoopView { hello: sound, ..self },
                Seq::empty(),
            ),
            AudioEventView::StartSpeech => (
                AudioLoopView { allow_speech: true, ..self },
                Seq::empty(),
            ),
            AudioEventView::SpeechChunk(data, viseme) => (
                AudioLoopView { buffer: self.with_speech(decode_le(data), viseme), ..self },
                Seq::empty(),
            ),
            AudioEventView::SpeechChunki16(samples, viseme) => (
                AudioLoopView { buffer: self.with_speech(samples, viseme), ..self },
                Seq::empty(),
            ),
            AudioEventView::EndSpeech(signal) => (
                AudioLoopView {
                    buffer: self.buffer.queued(ItemView::EndSpeech(signal)),
                    ..self
                },
                Seq::empty(),
            ),
            AudioEventView::ClearSpeech => (
                AudioLoopView { allow_speech: false, buffer: self.buffer.cleared(), ..self },
                signals_of(self.buffer.items),
            ),
            AudioEventView::VolSet(level) => (
                AudioLoopView {
                    buffer: SendBufferView { volume: kept_level(level), ..self.buffer },
                    ..self
                },
                Seq::empty(),
            ),
        }
    }
}

/// The capture samples of one period, each followed by the reference
/// sample played at its place; silence where the reference holds none.
pub open spec fn interleaved(mic: Seq<i16>, reference: Seq<i16>) -> Seq<i16> {
    Seq::new(
        2 * mic.len(),
        |i: int|
            if i % 2 == 0 {
                mic[i / 2]
            } else if i / 2 < reference.len() {
                reference[i / 2]
            } else {
                0i16
            },
    )
}

/// Pairs each capture sample with its reference sample.
pub fn interleave(mic: &[i16], reference: &[i16]) -> (frame: Vec<i16>)
    requires
        2 * mic@.len() <= usize::MAX,
    ensures
        frame@ == interleaved(mic@, reference@),
{
    let n: usize = mic.len();
    let mut frame: Vec<i16> = Vec::with_capacity(2 * n);
    let mut i: usize = 0;
    while i < n
        invariant
            n == mic@.len(),
            2 * n <= usize::MAX,
            i <= n,
            frame@.len() == 2 * i,
            forall|k: int| 0 <= k < 2 * i ==> #[trigger] frame@[k] == interleaved(
                mic@,
                reference@,
            )[k],
        decreases n - i,
    {
        assert((2 * i) % 2 == 0 && (2 * i) / 2 == i);
        assert((2 * i + 1) % 2 == 1 && (2 * i + 1) / 2 == i);
        frame.push(mic[i]);
        if i < reference.len() {
            frame.push(reference[i]);
        } else {
            frame.push(0);
        }
        i += 1;
    }
    assert(frame@ =~= interleaved(mic@, reference@));
    frame
}

/// What the real-time loop plays in one period.
#[derive(Debug, Clone, PartialEq, Eq)]
pub struct Playback {
    /// The chunk to write to the codec; silence is written for `None`.
    pub chunk: Option<Vec<i16>>,
    /// The completion signals to fire.
    pub signals: Vec<CompletionSignal>,
    /// The mouth shape to show from this chunk on, where it changes.
    pub viseme: Option<u8>,
    /// Whether the device plays speech in this period.
    pub playing: bool,
    /// Whether `playing` differs from the period before.
    pub changed: bool,
}

/// The decisions of the real-time loop: what to queue for an event, what to
/// play in a period, and what to feed the echo canceller.
pub struct AudioLoop {
    send_buffer: SendBuffer,
    hello_wav: Vec<u8>,
    allow_speech: bool,
    speech: bool,
    reference: Option<Vec<i16>>,
}

impl View for AudioLoop {
    type V = AudioLoopView;

    closed spec fn view(&self) -> AudioLoopView {
        AudioLoopView {
            buffer: self.send_buffer@,
            hello: self.hello_wav@,
            allow_speech: self.allow_speech,
            playing: self.speech,
            reference: match self.reference {
                Some(chunk) => Some(chunk@),
                None => None,
            },
        }
    }
}

impl AudioLoop {
    /// A loop for chunks of `chunk_size` samples that greets with `hello`.
    pub fn new(chunk_size: usize, hello: Vec<u8>) -> (audio: Self)
        requires
            chunk_size > 0,
        ensures
            audio@ == (AudioLoopView {
                buffer: SendBufferView {
                    items: Seq::empty(),
                    chunk_size,
                    rest: Seq::empty(),
                    volume: PLAYER_VOLUME,
                },
                hello: hello@,
                allow_speech: false,
                playing: false,
                reference: None,
            }),
            audio@.wf(),
    {
        let mut send_buffer = SendBuffer::new(chunk_size);
        send_buffer.set_volume(PLAYER_VOLUME);
        AudioLoop { send_buffer, hello_wav: hello, allow_speech: false, speech: false, reference: None }
    }

    /// The volume level in force.
    pub fn volume(&self) -> (level: u8)
        ensures
            level == self@.buffer.volume,
    {
        self.send_buffer.volume()
    }

    /// Whether the device played speech in the last period.
    pub fn playing(&self) -> (playing: bool)
        ensures
            playing == self@.playing,
    {
        self.speech
    }

    fn push_speech(&mut self, samples: &[i16], viseme: Option<u8>)
        requires
            old(self)@.wf(),
        ensures
            final(self)@ == (AudioLoopView {
                buffer: old(self)@.with_speech(samples@, viseme),
                ..old(self)@
            }),
            final(self)@.wf(),
    {
        match viseme {
            Some(index) => {
                self.send_buffer.push_viseme(index);
            },
            None => {},
        }
        self.send_buffer.push_i16(samples);
    }

    /// Takes one event from the orchestrator and returns the completion
    /// signals to fire at once; see `AudioLoopView::on_event`.
    pub fn handle_event(&mut self, event: AudioEvent) -> (signals: Vec<CompletionSignal>)
        requires
            old(self)@.wf(),
        ensures
            final(self)@ == old(self)@.on_event(event@).0,
            signals@ == old(self)@.on_event(event@).1,
            final(self)@.wf(),
    {
        match event {
            AudioEvent::Interrupt(signal) => {
                self.allow_speech = false;
                let mut signals = self.send_buffer.clear();
                signals.push(signal);
                signals
            },
            AudioEvent::Hello(signal) => {
                self.allow_speech = true;
                let signals = self.send_buffer.clear();
                self.send_buffer.push_u8(self.hello_wav.as_slice());
                self.send_buffer.push_back_end_speech(signal);
                signals
            },
            AudioEvent::SetHello(sound) => {
                self.hello_wav = sound;
                Vec::new()
            },
            AudioEvent::StartSpeech => {
                self.allow_speech = true;
                Vec::new()
            },
            AudioEvent::SpeechChunk(data, viseme) => {
                let samples = pcm_from_le_bytes(data.as_slice());
                self.push_speech(samples.as_slice(), viseme);
                Vec::new()
            },
            AudioEvent::SpeechChunki16(samples, viseme) => {
                self.push_speech(samples.as_slice(), viseme);
                Vec::new()
            },
            AudioEvent::EndSpeech(signal) => {
                self.send_buffer.push_back_end_speech(signal);
                Vec::new()
            },
            AudioEvent::ClearSpeech => {
                self.allow_speech = false;
                self.send_buffer.clear()
            },
            AudioEvent::VolSet(level) => {
                let kept: u8 = if level > MAX_VOLUME {
                    MAX_VOLUME
                } else {
                    level
                };
                self.send_buffer.set_volume(kept);
                Vec::new()
            },
        }
    }

    /// Decides what is played in the period that starts: the next chunk of
    /// the queue where speech is allowed, nothing where it is not.
    pub fn next_period(&mut self) -> (out: Playback)
        requires
            old(self)@.wf(),
        ensures
            final(self)@.wf(),
            final(self)@ == (AudioLoopView {
                buffer: if old(self)@.allow_speech {
                    old(self)@.buffer.dequeued()
                } else {
                    old(self)@.buffer
                },
                playing: out.playing,
                ..old(self)@
            }),
            out.playing == out.chunk is Some,
            out.changed == (out.playing != old(self)@.playing),
            old(self)@.allow_speech ==> ({
                let items = old(self)@.buffer.items;
                &&& out.signals@ == signals_of(items.take(lead(items)))
                &&& out.viseme == last_viseme(items.take(lead(items)))
                &&& match out.chunk {
                    Some(samples) => lead(items) < items.len() && items[lead(items)]
                        == ItemView::Audio(samples@),
                    None => lead(items) == items.len(),
                }
            }),
            !old(self)@.allow_speech ==> out.chunk is None && out.signals@.len() == 0
                && out.viseme is None,
    {
        let (chunk, signals, viseme) = if self.allow_speech {
            let taken = self.send_buffer.get_chunk();
            (taken.chunk, taken.signals, taken.viseme)
        } else {
            (None, Vec::new(), None)
        };
        let playing = chunk.is_some();
        let changed = playing != self.speech;
        self.speech = playing;
        Playback { chunk, signals, viseme, playing, changed }
    }

    /// Ends a period: pairs the samples captured in it with the chunk
    /// played in the period before, for the echo canceller, and keeps
    /// `played` as the reference of the next period. A capture of another
    /// size than one chunk is skipped: `None` is returned.
    pub fn finish_period(&mut self, mic: &[i16], played: Option<Vec<i16>>) -> (frame: Option<
        Vec<i16>,
    >)
        requires
            2 * mic@.len() <= usize::MAX,
        ensures
            final(self)@ == (AudioLoopView {
                reference: match played {
                    Some(chunk) => Some(chunk@),
                    None => None,
                },
                ..old(self)@
            }),
            mic@.len() != old(self)@.buffer.chunk_size ==> frame is None,
            mic@.len() == old(self)@.buffer.chunk_size ==> frame is Some && frame->0@
                == interleaved(
                mic@,
                match old(self)@.reference {
                    Some(chunk) => chunk,
                    None => Seq::empty(),
                },
            ),
    {
        let frame = if mic.len() != self.send_buffer.chunk_size() {
            None
        } else {
            match &self.reference {
                Some(chunk) => Some(interleave(mic, chunk.as_slice())),
                None => {
                    let silence: Vec<i16> = Vec::new();
                    Some(interleave(mic, silence.as_slice()))
                },
            }
        };
        self.reference = played;
        frame
    }
}

} // verus!
