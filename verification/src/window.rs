//! Fixed-capacity rolling windows of per-channel samples.
//!
//! A [`Window`] keeps the most recent samples of one channel, oldest first. A
//! [`WindowStore`] keeps two windows per channel, one for the raw signal and one
//! for the filtered signal, and advances them together.

use vstd::prelude::*;

verus! {

/// The contents of a window after `value` is appended under `capacity`: the value goes to
/// the end, and the oldest element leaves when the window would otherwise grow past its
/// capacity.
pub open spec fn appended<T>(window: Seq<T>, capacity: nat, value: T) -> Seq<T> {
    let grown = window.push(value);
    if grown.len() > capacity {
        grown.skip(1)
    } else {
        grown
    }
}

/// The contents of a window after each element of `values` is appended in turn.
pub open spec fn appended_all<T>(window: Seq<T>, capacity: nat, values: Seq<T>) -> Seq<T>
    decreases values.len(),
{
    if values.len() == 0 {
        window
    } else {
        appended(appended_all(window, capacity, values.drop_last()), capacity, values.last())
    }
}

/// The last `count` elements of `values`, or all of them when there are fewer.
pub open spec fn latest<T>(values: Seq<T>, count: nat) -> Seq<T> {
    if values.len() <= count {
        values
    } else {
        values.skip(values.len() - count)
    }
}

/// Appending to a window that respects its capacity keeps exactly the latest `capacity`
/// elements of everything it has seen, in arrival order.
pub proof fn lemma_appended_all_is_latest<T>(window: Seq<T>, capacity: nat, values: Seq<T>)
    requires
        window.len() <= capacity,
    ensures
        appended_all(window, capacity, values) == latest(window + values, capacity),
        appended_all(window, capacity, values).len() <= capacity,
    decreases values.len(),
{
    if values.len() == 0 {
        assert(window + values =~= window);
    } else {
        let front = values.drop_last();
        lemma_appended_all_is_latest(window, capacity, front);
        let before = appended_all(window, capacity, front);
        let after = appended(before, capacity, values.last());
        assert((window + front).push(values.last()) =~= window + values);
        assert(after =~= latest(window + values, capacity));
    }
}

/// First-in-first-out law: once more values than the capacity have been appended to a
/// window, it holds exactly `capacity` values, namely the most recent ones in the order in
/// which they arrived, whatever it held before.
pub proof fn lemma_overfilled_window_is_fifo<T>(window: Seq<T>, capacity: nat, values: Seq<T>)
    requires
        window.len() <= capacity,
        values.len() > capacity,
    ensures
        appended_all(window, capacity, values).len() == capacity,
        appended_all(window, capacity, values) == values.skip(values.len() - capacity),
{
    lemma_appended_all_is_latest(window, capacity, values);
    assert(latest(window + values, capacity) =~= values.skip(values.len() - capacity));
}

/// A rolling history of one channel: at most `capacity` samples, oldest first.
pub struct Window<T> {
    items: Vec<T>,
    capacity: usize,
}

impl<T: Copy> View for Window<T> {
    type V = Seq<T>;

    /// The samples held, oldest first.
    closed spec fn view(&self) -> Seq<T> {
        self.items@
    }
}

impl<T: Copy> Window<T> {
    /// The largest number of samples the window holds.
    pub closed spec fn spec_capacity(&self) -> nat {
        self.capacity as nat
    }

    /// A window never holds more samples than its capacity.
    pub closed spec fn wf(&self) -> bool {
        self.items@.len() <= self.capacity
    }

    /// A window is full when it holds exactly `capacity` samples.
    pub open spec fn spec_is_full(&self) -> bool {
        self@.len() == self.spec_capacity()
    }

    /// Creates an empty window.
    pub fn new(capacity: usize) -> (window: Self)
        ensures
            window.wf(),
            window@ == Seq::<T>::empty(),
            window.spec_capacity() == capacity,
    {
        Window { items: Vec::new(), capacity }
    }

    /// The capacity the window was created with.
    pub fn capacity(&self) -> (capacity: usize)
        ensures
            capacity == self.spec_capacity(),
    {
        self.capacity
    }

    /// The number of samples currently held.
    pub fn len(&self) -> (len: usize)
        ensures
            len == self@.len(),
    {
        self.items.len()
    }

    /// Whether the window holds exactly `capacity` samples.
    pub fn is_full(&self) -> (full: bool)
        ensures
            full == self.spec_is_full(),
    {
        self.items.len() == self.capacity
    }

    /// Appends `value`, evicting the oldest sample when the window is already full.
    pub fn push(&mut self, value: T)
        requires
            old(self).wf(),
        ensures
            final(self).wf(),
            final(self).spec_capacity() == old(self).spec_capacity(),
            final(self)@ == appended(old(self)@, old(self).spec_capacity(), value),
    {
        self.items.push(value);
        if self.items.len() > self.capacity {
            self.items.remove(0);
        }
    }

    /// The samples of a full window, oldest first; `None` while the window is still filling.
    pub fn snapshot(&self) -> (samples: Option<&Vec<T>>)
        ensures
            samples is Some == self.spec_is_full(),
            samples is Some ==> samples.unwrap()@ == self@,
    {
        if self.items.len() == self.capacity {
            Some(&self.items)
        } else {
            None
        }
    }

    /// The samples currently held, oldest first.
    pub fn samples(&self) -> (samples: &Vec<T>)
        ensures
            samples@ == self@,
    {
        &self.items
    }
}

/// Two rolling windows per channel, one of raw and one of filtered samples, advanced
/// together so that both always hold the same number of samples.
pub struct WindowStore<T> {
    raw: Vec<Window<T>>,
    filtered: Vec<Window<T>>,
    capacity: usize,
}

impl<T: Copy> WindowStore<T> {
    /// The number of channels the store keeps windows for.
    pub closed spec fn channel_count(&self) -> nat {
        self.raw@.len()
    }

    /// The capacity shared by every window of the store.
    pub closed spec fn spec_capacity(&self) -> nat {
        self.capacity as nat
    }

    /// The raw samples held for `channel`, oldest first.
    pub closed spec fn raw_window(&self, channel: int) -> Seq<T> {
        self.raw@[channel]@
    }

    /// The filtered samples held for `channel`, oldest first.
    pub closed spec fn filtered_window(&self, channel: int) -> Seq<T> {
        self.filtered@[channel]@
    }

    /// Both representations cover the same channels, every window respects the shared
    /// capacity, and the two windows of a channel hold equally many samples.
    pub closed spec fn wf(&self) -> bool {
        &&& self.raw@.len() == self.filtered@.len()
        &&& forall|ch: int|
            0 <= ch < self.raw@.len() ==> {
                &&& (#[trigger] self.raw@[ch]).wf()
                &&& self.raw@[ch].spec_capacity() == self.capacity
                &&& self.raw@[ch]@.len() == self.filtered@[ch]@.len()
            }
        &&& forall|ch: int|
            0 <= ch < self.filtered@.len() ==> {
                &&& (#[trigger] self.filtered@[ch]).wf()
                &&& self.filtered@[ch].spec_capacity() == self.capacity
            }
    }

    /// Whether every window of the store is empty.
    pub open spec fn spec_is_empty(&self) -> bool {
        &&& forall|ch: int|
            0 <= ch < self.channel_count() ==> #[trigger] self.raw_window(ch) == Seq::<T>::empty()
        &&& forall|ch: int|
            0 <= ch < self.channel_count() ==> #[trigger] self.filtered_window(ch) == Seq::<
                T,
            >::empty()
    }

    /// Relates a store to the store `before` it from which it arises by appending one
    /// sample in both representations: every channel for which both `raw` and `filtered`
    /// hold a value has that value appended to its raw and to its filtered window, and
    /// every other channel is as before.
    pub open spec fn updated_from(&self, before: Self, raw: Seq<T>, filtered: Seq<T>) -> bool {
        &&& self.channel_count() == before.channel_count()
        &&& self.spec_capacity() == before.spec_capacity()
        &&& forall|ch: int|
            0 <= ch < before.channel_count() ==> #[trigger] self.raw_window(ch) == (if ch
                < raw.len() && ch < filtered.len() {
                appended(before.raw_window(ch), before.spec_capacity(), raw[ch])
            } else {
                before.raw_window(ch)
            })
        &&& forall|ch: int|
            0 <= ch < before.channel_count() ==> #[trigger] self.filtered_window(ch) == (if ch
                < raw.len() && ch < filtered.len() {
                appended(before.filtered_window(ch), before.spec_capacity(), filtered[ch])
            } else {
                before.filtered_window(ch)
            })
    }

    /// Filling law: an update with a sample that has a value for every channel leaves each
    /// filtered window one sample longer than before, unless it already holds `capacity`
    /// samples; a full window stays full.
    pub proof fn lemma_update_fills_windows(&self, before: Self, raw: Seq<T>, filtered: Seq<T>)
        requires
            before.wf(),
            self.updated_from(before, raw, filtered),
            raw.len() >= before.channel_count(),
            filtered.len() >= before.channel_count(),
        ensures
            forall|ch: int|
                0 <= ch < before.channel_count() ==> (#[trigger] self.filtered_window(ch)).len()
                    == (if before.filtered_window(ch).len() < before.spec_capacity() {
                    before.filtered_window(ch).len() + 1
                } else {
                    before.spec_capacity()
                }),
            forall|ch: int| before.spec_is_full(ch) ==> #[trigger] self.spec_is_full(ch),
    {
        assert forall|ch: int| 0 <= ch < before.channel_count() implies (
        #[trigger] self.filtered_window(ch)).len() == (if before.filtered_window(ch).len()
            < before.spec_capacity() {
            before.filtered_window(ch).len() + 1
        } else {
            before.spec_capacity()
        }) by {
            before.lemma_window_lengths(ch);
        }
    }

    /// A channel is ready for analysis when its filtered window holds exactly `capacity`
    /// samples.
    pub open spec fn spec_is_full(&self, channel: int) -> bool {
        &&& 0 <= channel < self.channel_count()
        &&& self.filtered_window(channel).len() == self.spec_capacity()
    }

    /// In a well-formed store no window is longer than the capacity, and the raw and the
    /// filtered window of a channel have the same length.
    pub proof fn lemma_window_lengths(&self, channel: int)
        requires
            self.wf(),
            0 <= channel < self.channel_count(),
        ensures
            self.raw_window(channel).len() <= self.spec_capacity(),
            self.filtered_window(channel).len() <= self.spec_capacity(),
            self.raw_window(channel).len() == self.filtered_window(channel).len(),
    {
        assert(self.raw@[channel].wf());
        assert(self.filtered@[channel].wf());
    }

    /// Creates a store of `channel_count` channels whose windows are all empty.
    pub fn new(channel_count: usize, capacity: usize) -> (store: Self)
        ensures
            store.wf(),
            store.channel_count() == channel_count,
            store.spec_capacity() == capacity,
            store.spec_is_empty(),
    {
        let mut raw: Vec<Window<T>> = Vec::new();
        let mut filtered: Vec<Window<T>> = Vec::new();
        let mut ch: usize = 0;
        while ch < channel_count
            invariant
                ch <= channel_count,
                raw@.len() == ch,
                filtered@.len() == ch,
                forall|i: int|
                    0 <= i < ch ==> {
                        &&& (#[trigger] raw@[i]).wf()
                        &&& raw@[i].spec_capacity() == capacity
                        &&& raw@[i]@ == Seq::<T>::empty()
                    },
                forall|i: int|
                    0 <= i < ch ==> {
                        &&& (#[trigger] filtered@[i]).wf()
                        &&& filtered@[i].spec_capacity() == capacity
                        &&& filtered@[i]@ == Seq::<T>::empty()
                    },
            decreases channel_count - ch,
        {
            raw.push(Window::new(capacity));
            filtered.push(Window::new(capacity));
            ch += 1;
        }
        WindowStore { raw, filtered, capacity }
    }

    /// The number of channels.
    pub fn channels(&self) -> (count: usize)
        ensures
            count == self.channel_count(),
    {
        self.raw.len()
    }

    /// The capacity of every window.
    pub fn capacity(&self) -> (capacity: usize)
        ensures
            capacity == self.spec_capacity(),
    {
        self.capacity
    }

    /// Appends one raw and one filtered value to the windows of `channel`. A channel the
    /// store does not have is ignored.
    pub fn push(&mut self, channel: usize, raw_value: T, filtered_value: T)
        requires
            old(self).wf(),
        ensures
            final(self).wf(),
            final(self).channel_count() == old(self).channel_count(),
            final(self).spec_capacity() == old(self).spec_capacity(),
            forall|ch: int|
                0 <= ch < old(self).channel_count() ==> #[trigger] final(self).raw_window(ch) == (
                if ch == channel {
                    appended(old(self).raw_window(ch), old(self).spec_capacity(), raw_value)
                } else {
                    old(self).raw_window(ch)
                }),
            forall|ch: int|
                0 <= ch < old(self).channel_count() ==> #[trigger] final(self).filtered_window(ch)
                    == (if ch == channel {
                    appended(
                        old(self).filtered_window(ch),
                        old(self).spec_capacity(),
                        filtered_value,
                    )
                } else {
                    old(self).filtered_window(ch)
                }),
    {
        if channel < self.raw.len() {
            assert(self.raw@[channel as int].wf());
            assert(self.filtered@[channel as int].wf());
            self.raw[channel].push(raw_value);
            self.filtered[channel].push(filtered_value);
        }
    }

    /// Appends one multi-channel sample in both representations: channel `ch` receives
    /// `raw[ch]` and `filtered[ch]`. Channels for which either input has no value, and
    /// values beyond the store's channels, are left out.
    pub fn update(&mut self, raw: &Vec<T>, filtered: &Vec<T>)
        requires
            old(self).wf(),
        ensures
            final(self).wf(),
            final(self).updated_from(*old(self), raw@, filtered@),
    {
        let ghost before = *self;
        let mut limit: usize = self.raw.len();
        if raw.len() < limit {
            limit = raw.len();
        }
        if filtered.len() < limit {
            limit = filtered.len();
        }
        let mut ch: usize = 0;
        while ch < limit
            invariant
                ch <= limit,
                limit <= before.channel_count(),
                limit <= raw@.len(),
                limit <= filtered@.len(),
                limit == before.channel_count() || limit == raw@.len() || limit == filtered@.len(),
                before.wf(),
                self.wf(),
                self.channel_count() == before.channel_count(),
                self.spec_capacity() == before.spec_capacity(),
                forall|i: int|
                    0 <= i < before.channel_count() ==> #[trigger] self.raw_window(i) == (if i
                        < ch {
                        appended(before.raw_window(i), before.spec_capacity(), raw@[i])
                    } else {
                        before.raw_window(i)
                    }),
                forall|i: int|
                    0 <= i < before.channel_count() ==> #[trigger] self.filtered_window(i) == (if i
                        < ch {
                        appended(before.filtered_window(i), before.spec_capacity(), filtered@[i])
                    } else {
                        before.filtered_window(i)
                    }),
            decreases limit - ch,
        {
            self.push(ch, raw[ch], filtered[ch]);
            ch += 1;
        }
    }

    /// Whether the filtered window of `channel` is full. A channel the store does not have
    /// is never full.
    pub fn is_full(&self, channel: usize) -> (full: bool)
        requires
            self.wf(),
        ensures
            full == self.spec_is_full(channel as int),
    {
        channel < self.filtered.len() && self.filtered[channel].len() == self.capacity
    }

    /// The filtered samples of `channel`, oldest first, when its window is full; `None`
    /// for a window that is still filling and for a channel the store does not have.
    pub fn full_window(&self, channel: usize) -> (samples: Option<&Vec<T>>)
        requires
            self.wf(),
        ensures
            samples is Some == self.spec_is_full(channel as int),
            samples is Some ==> samples.unwrap()@ == self.filtered_window(channel as int),
    {
        if channel < self.filtered.len() && self.filtered[channel].len() == self.capacity {
            Some(self.filtered[channel].samples())
        } else {
            None
        }
    }

    /// The raw samples currently held for `channel`, oldest first; `None` for a channel
    /// the store does not have.
    pub fn raw_samples(&self, channel: usize) -> (samples: Option<&Vec<T>>)
        requires
            self.wf(),
        ensures
            samples is Some == (channel < self.channel_count()),
            samples is Some ==> samples.unwrap()@ == self.raw_window(channel as int),
    {
        if channel < self.raw.len() {
            Some(self.raw[channel].samples())
        } else {
            None
        }
    }

    /// The filtered samples currently held for `channel`, oldest first; `None` for a
    /// channel the store does not have.
    pub fn filtered_samples(&self, channel: usize) -> (samples: Option<&Vec<T>>)
        requires
            self.wf(),
        ensures
            samples is Some == (channel < self.channel_count()),
            samples is Some ==> samples.unwrap()@ == self.filtered_window(channel as int),
    {
        if channel < self.filtered.len() {
            Some(self.filtered[channel].samples())
        } else {
            None
        }
    }

    /// Whether `channels` lists exactly the channels whose filtered window is full, each
    /// once, in ascending order.
    pub open spec fn lists_full_channels(&self, channels: Seq<usize>) -> bool {
        &&& forall|i: int, j: int| 0 <= i < j < channels.len() ==> channels[i] < channels[j]
        &&& forall|i: int|
            0 <= i < channels.len() ==> self.spec_is_full(#[trigger] channels[i] as int)
        &&& forall|ch: usize| self.spec_is_full(ch as int) ==> #[trigger] channels.contains(ch)
    }

    /// Completeness law: a channel is listed for analysis exactly when its filtered window
    /// holds `capacity` samples. A window of exactly `capacity` samples is always listed,
    /// and a window that is one sample short never is.
    pub proof fn lemma_full_channels_are_complete(&self, channels: Seq<usize>, channel: usize)
        requires
            self.wf(),
            self.lists_full_channels(channels),
            channel < self.channel_count(),
        ensures
            channels.contains(channel) <==> self.filtered_window(channel as int).len()
                == self.spec_capacity(),
            self.filtered_window(channel as int).len() + 1 == self.spec_capacity()
                ==> !channels.contains(channel),
    {
        if channels.contains(channel) {
            let i = choose|i: int| 0 <= i < channels.len() && channels[i] == channel;
            assert(self.spec_is_full(channels[i] as int));
        }
    }

    /// The channels whose filtered window is full, in ascending order. These are exactly
    /// the channels an analysis cycle covers.
    pub fn full_channels(&self) -> (channels: Vec<usize>)
        requires
            self.wf(),
        ensures
            self.lists_full_channels(channels@),
    {
        let mut channels: Vec<usize> = Vec::new();
        let mut ch: usize = 0;
        while ch < self.filtered.len()
            invariant
                ch <= self.filtered@.len(),
                self.wf(),
                forall|i: int| 0 <= i < channels@.len() ==> channels@[i] < ch,
                forall|i: int, j: int| 0 <= i < j < channels@.len() ==> channels@[i] < channels@[j],
                forall|i: int|
                    0 <= i < channels@.len() ==> self.spec_is_full(#[trigger] channels@[i] as int),
                forall|c: usize|
                    c < ch && self.spec_is_full(c as int) ==> #[trigger] channels@.contains(c),
            decreases self.filtered@.len() - ch,
        {
            let ghost prior = channels@;
            if self.filtered[ch].len() == self.capacity {
                channels.push(ch);
                assert(channels@[prior.len() as int] == ch);
            }
            proof {
                assert forall|c: usize| c < ch + 1 && self.spec_is_full(c as int) implies #[trigger]
                    channels@.contains(c) by {
                    if c < ch {
                        assert(prior.contains(c));
                        let i = choose|i: int| 0 <= i < prior.len() && prior[i] == c;
                        assert(channels@[i] == c);
                    }
                }
            }
            ch += 1;
        }
        channels
    }
}

} // verus!
