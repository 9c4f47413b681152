//! Speech segmentation behind the acoustic front end: turns analysis
//! windows, each flagged speech or silence, into microphone events.

use vstd::prelude::*;

use crate::app::{Event, EventView};
use crate::pcm::{magnitude, MAX_VOLUME};

verus! {

/// Sum of the magnitudes of `samples`.
pub open spec fn sum_abs(samples: Seq<i16>) -> nat
    decreases samples.len(),
{
    if samples.len() == 0 {
        0
    } else {
        sum_abs(samples.drop_last()) + magnitude(samples.last() as int) as nat
    }
}

/// Whether the mean magnitude of `samples` lies above the trigger, scaled
/// by the volume level over the highest level.
pub open spec fn louder_than(samples: Seq<i16>, trigger: u32, level: u8) -> bool {
    sum_abs(samples) * MAX_VOLUME as nat > trigger as nat * level as nat * samples.len()
}

/// What a `SpeechSegmenter` holds.
pub struct SegmenterView {
    /// Whether the last window was speech.
    pub speech: bool,
    /// The segment held back while the device plays.
    pub cache: Seq<i16>,
    /// The calibrated mean magnitude that a barge-in must exceed at the
    /// highest volume.
    pub trigger: u32,
    /// The volume level read when the segment opened.
    pub level: u8,
}

impl SegmenterView {
    /// The segmenter after one analysis window and the event it emits.
    /// `playing` says whether the device is playing, `level` is its volume.
    pub open spec fn on_window(self, playing: bool, level: u8, pcm: Seq<i16>, speech: bool) -> (
        SegmenterView,
        Option<EventView>,
    ) {
        if pcm.len() == 0 {
            (self, None)
        } else if speech {
            let opened = SegmenterView {
                speech: true,
                level: if self.speech {
                    self.level
                } else {
                    level
                },
                ..self
            };
            if playing || self.cache.len() > 0 {
                (SegmenterView { cache: self.cache + pcm, ..opened }, None)
            } else {
                (opened, Some(EventView::MicAudioChunk(pcm)))
            }
        } else if self.speech {
            let closed = SegmenterView { speech: false, cache: Seq::empty(), ..self };
            if self.cache.len() > 0 {
                if louder_than(self.cache, self.trigger, self.level) || !playing {
                    (closed, Some(EventView::MicInterrupt(self.cache)))
                } else {
                    (closed, None)
                }
            } else {
                (closed, Some(EventView::MicAudioEnd))
            }
        } else {
            (self, None)
        }
    }
}

/// Cuts the front end's output into segments of speech.
pub struct SpeechSegmenter {
    speech: bool,
    cache: Vec<i16>,
    trigger: u32,
    level: u8,
}

impl View for SpeechSegmenter {
    type V = SegmenterView;

    closed spec fn view(&self) -> SegmenterView {
        SegmenterView {
            speech: self.speech,
            cache: self.cache@,
            trigger: self.trigger,
            level: self.level,
        }
    }
}

/// Whether the mean magnitude of a segment lies above the scaled trigger.
pub fn is_louder_than(samples: &[i16], trigger: u32, level: u8) -> (louder: bool)
    ensures
        louder == louder_than(samples@, trigger, level),
{
    let n: usize = samples.len();
    let mut sum: u128 = 0;
    let mut i: usize = 0;
    assert(samples@.take(0) =~= Seq::<i16>::empty());
    while i < n
        invariant
            n == samples@.len(),
            i <= n,
            sum == sum_abs(samples@.take(i as int)),
            sum <= 32768 * i,
        decreases n - i,
    {
        let s: i16 = samples[i];
        let m: u128 = if s >= 0 {
            s as u128
        } else {
            (-(s as i32)) as u128
        };
        assert(samples@.take(i + 1).drop_last() =~= samples@.take(i as int));
        assert(samples@.take(i + 1).last() == s);
        sum = sum + m;
        i += 1;
    }
    assert(samples@.take(n as int) =~= samples@);
    assert(trigger as u128 * level as u128 <= 0xffff_ffff * 0xff) by (nonlinear_arith)
        requires
            trigger <= 0xffff_ffff,
            level <= 0xff,
    ;
    let limit: u128 = trigger as u128 * level as u128;
    assert(limit * (n as u128) <= 0xffff_ffff * 0xff * 0xffff_ffff_ffff_ffff) by (nonlinear_arith)
        requires
            limit <= 0xffff_ffff * 0xff,
            n <= 0xffff_ffff_ffff_ffff,
    ;
    assert(trigger as nat * level as nat * samples@.len() == limit * (n as u128))
        by (nonlinear_arith)
        requires
            limit == trigger as nat * level as nat,
            n == samples@.len(),
    ;
    sum * 5 > limit * (n as u128)
}

impl SpeechSegmenter {
    /// A segmenter between segments, with nothing held back.
    pub fn new(trigger: u32) -> (segmenter: Self)
        ensures
            segmenter@ == (SegmenterView {
                speech: false,
                cache: Seq::empty(),
                trigger,
                level: MAX_VOLUME,
            }),
    {
        SpeechSegmenter { speech: false, cache: Vec::new(), trigger, level: MAX_VOLUME }
    }

    /// Takes what one fetch from the front end gave: an analysis window
    /// with its speech flag, or the front end's error code. An error means
    /// that no window is ready yet: nothing changes and nothing is sent on.
    pub fn on_fetch(
        &mut self,
        playing: bool,
        level: u8,
        fetched: Result<(Vec<i16>, bool), i32>,
    ) -> (event: Option<Event>)
        ensures
            match fetched {
                Ok(window) => {
                    &&& final(self)@ == old(self)@.on_window(playing, level, window.0@, window.1).0
                    &&& match event {
                        Some(e) => Some(e@),
                        None => None,
                    } == old(self)@.on_window(playing, level, window.0@, window.1).1
                },
                Err(_) => final(self)@ == old(self)@ && event is None,
            },
    {
        match fetched {
            Ok((pcm, speech)) => self.on_window(playing, level, pcm, speech),
            Err(_) => None,
        }
    }

    /// Takes one analysis window of the front end and returns the event to
    /// send on, if any; see `SegmenterView::on_window`.
    pub fn on_window(&mut self, playing: bool, level: u8, pcm: Vec<i16>, speech: bool) -> (event:
        Option<Event>)
        ensures
            final(self)@ == old(self)@.on_window(playing, level, pcm@, speech).0,
            match event {
                Some(e) => Some(e@),
                None => None,
            } == old(self)@.on_window(playing, level, pcm@, speech).1,
    {
        if pcm.len() == 0 {
            return None;
        }
        if speech {
            if !self.speech {
                self.level = level;
            }
            self.speech = true;
            if playing || self.cache.len() > 0 {
                let mut window = pcm;
                self.cache.append(&mut window);
                return None;
            }
            return Some(Event::MicAudioChunk(pcm));
        }
        if self.speech {
            self.speech = false;
            if self.cache.len() > 0 {
                let mut segment: Vec<i16> = Vec::new();
                core::mem::swap(&mut segment, &mut self.cache);
                if is_louder_than(segment.as_slice(), self.trigger, self.level) || !playing {
                    return Some(Event::MicInterrupt(segment));
                }
                return None;
            }
            assert(self@.cache =~= Seq::<i16>::empty());
            return Some(Event::MicAudioEnd);
        }
        None
    }
}

} // verus!
