//! History rings of the recursive filter stages.
//!
//! Each stage of the filter chain evaluates a recurrence over the most recent inputs and
//! outputs of a channel. This module keeps those histories, newest entry first, one pair
//! per channel, and advances them as samples arrive. The weighted sums themselves are
//! evaluated by the caller on the histories handed out here.

use vstd::prelude::*;

verus! {

/// Order of the bandpass stage.
pub const BANDPASS_ORDER: usize = 4;

/// Order of the notch stage.
pub const NOTCH_ORDER: usize = 2;

/// A history after one shift: `head` becomes the newest entry, every other entry moves
/// one place back, and the oldest entry is discarded.
pub open spec fn shifted<T>(history: Seq<T>, head: T) -> Seq<T> {
    seq![head] + history.drop_last()
}

/// The two stages of the filter chain, in the order in which a sample passes them.
#[derive(Clone, Copy, Debug, PartialEq, Eq, Structural)]
pub enum Stage {
    /// The bandpass stage, applied to the raw sample.
    Bandpass,
    /// The notch stage, applied to the output of the bandpass stage.
    Notch,
}

/// Input and output histories of one filter stage, per channel, newest entry first.
pub struct FilterState<T> {
    inputs: Vec<Vec<T>>,
    outputs: Vec<Vec<T>>,
    taps: usize,
}

impl<T: Copy> FilterState<T> {
    /// The number of channels the state keeps histories for.
    pub closed spec fn channel_count(&self) -> nat {
        self.inputs@.len()
    }

    /// The length of every history: the order of the stage plus one.
    pub closed spec fn spec_taps(&self) -> nat {
        self.taps as nat
    }

    /// The input history of `channel`, newest entry first.
    pub closed spec fn input_history(&self, channel: int) -> Seq<T> {
        self.inputs@[channel]@
    }

    /// The output history of `channel`, newest entry first.
    pub closed spec fn output_history(&self, channel: int) -> Seq<T> {
        self.outputs@[channel]@
    }

    /// Every channel has an input and an output history, each of `taps` entries, and
    /// `taps` is at least one.
    pub closed spec fn wf(&self) -> bool {
        &&& self.taps >= 1
        &&& self.inputs@.len() == self.outputs@.len()
        &&& forall|ch: int|
            0 <= ch < self.inputs@.len() ==> (#[trigger] self.inputs@[ch])@.len() == self.taps
        &&& forall|ch: int|
            0 <= ch < self.outputs@.len() ==> (#[trigger] self.outputs@[ch])@.len() == self.taps
    }

    /// Relates a state to the state `before` it from which it arises by shifting `sample`
    /// into `channel`: the input history of that channel is shifted with `sample` as its
    /// newest entry, its output history is shifted with the previous output repeated in
    /// the newest slot, and every other channel is as before. For a channel the state does
    /// not have, nothing differs.
    pub open spec fn shifted_from(&self, before: Self, channel: int, sample: T) -> bool {
        &&& self.channel_count() == before.channel_count()
        &&& self.spec_taps() == before.spec_taps()
        &&& forall|ch: int|
            0 <= ch < before.channel_count() ==> #[trigger] self.input_history(ch) == (if ch
                == channel {
                shifted(before.input_history(ch), sample)
            } else {
                before.input_history(ch)
            })
        &&& forall|ch: int|
            0 <= ch < before.channel_count() ==> #[trigger] self.output_history(ch) == (if ch
                == channel {
                shifted(before.output_history(ch), before.output_history(ch)[0])
            } else {
                before.output_history(ch)
            })
    }

    /// Relates a state to the state `before` it from which it arises by storing `value` as
    /// the newest output of `channel`: only that one entry differs. For a channel the
    /// state does not have, nothing differs.
    pub open spec fn recorded_from(&self, before: Self, channel: int, value: T) -> bool {
        &&& self.channel_count() == before.channel_count()
        &&& self.spec_taps() == before.spec_taps()
        &&& forall|ch: int|
            0 <= ch < before.channel_count() ==> #[trigger] self.input_history(ch)
                == before.input_history(ch)
        &&& forall|ch: int|
            0 <= ch < before.channel_count() ==> #[trigger] self.output_history(ch) == (if ch
                == channel {
                before.output_history(ch).update(0, value)
            } else {
                before.output_history(ch)
            })
    }

    /// Whether every history entry of every channel is `zero`.
    pub open spec fn is_reset(&self, zero: T) -> bool {
        &&& forall|ch: int|
            0 <= ch < self.channel_count() ==> #[trigger] self.input_history(ch) == Seq::new(
                self.spec_taps(),
                |i: int| zero,
            )
        &&& forall|ch: int|
            0 <= ch < self.channel_count() ==> #[trigger] self.output_history(ch) == Seq::new(
                self.spec_taps(),
                |i: int| zero,
            )
    }

    /// Whether two states hold the same histories for the same channels.
    pub open spec fn same_histories(&self, other: Self) -> bool {
        &&& self.channel_count() == other.channel_count()
        &&& self.spec_taps() == other.spec_taps()
        &&& forall|ch: int|
            0 <= ch < self.channel_count() ==> #[trigger] self.input_history(ch)
                == other.input_history(ch)
        &&& forall|ch: int|
            0 <= ch < self.channel_count() ==> #[trigger] self.output_history(ch)
                == other.output_history(ch)
    }

    /// Two states of the same size whose entries are all `zero` hold the same histories.
    pub proof fn lemma_reset_is_determined(first: Self, second: Self, zero: T)
        requires
            first.channel_count() == second.channel_count(),
            first.spec_taps() == second.spec_taps(),
            first.is_reset(zero),
            second.is_reset(zero),
        ensures
            first.same_histories(second),
    {
    }

    /// The histories after a shift are determined by the histories before it and the
    /// sample: two states that agree before shifting the same sample into the same
    /// channel agree afterwards.
    pub proof fn lemma_shift_is_determined(
        first: Self,
        first_before: Self,
        second: Self,
        second_before: Self,
        channel: int,
        sample: T,
    )
        requires
            first_before.same_histories(second_before),
            first.shifted_from(first_before, channel, sample),
            second.shifted_from(second_before, channel, sample),
        ensures
            first.same_histories(second),
    {
        assert forall|ch: int| 0 <= ch < first.channel_count() implies #[trigger]
            first.input_history(ch) == second.input_history(ch) by {
            assert(first_before.input_history(ch) == second_before.input_history(ch));
        }
        assert forall|ch: int| 0 <= ch < first.channel_count() implies #[trigger]
            first.output_history(ch) == second.output_history(ch) by {
            assert(first_before.output_history(ch) == second_before.output_history(ch));
        }
    }

    /// The histories after an output is recorded are determined by the histories before
    /// it and the output: two states that agree before recording the same value for the
    /// same channel agree afterwards.
    pub proof fn lemma_record_is_determined(
        first: Self,
        first_before: Self,
        second: Self,
        second_before: Self,
        channel: int,
        value: T,
    )
        requires
            first_before.same_histories(second_before),
            first.recorded_from(first_before, channel, value),
            second.recorded_from(second_before, channel, value),
        ensures
            first.same_histories(second),
    {
        assert forall|ch: int| 0 <= ch < first.channel_count() implies #[trigger]
            first.input_history(ch) == second.input_history(ch) by {
            assert(first_before.input_history(ch) == second_before.input_history(ch));
        }
        assert forall|ch: int| 0 <= ch < first.channel_count() implies #[trigger]
            first.output_history(ch) == second.output_history(ch) by {
            assert(first_before.output_history(ch) == second_before.output_history(ch));
        }
    }

    /// In a well-formed state every history has `taps` entries.
    pub proof fn lemma_history_lengths(&self, channel: int)
        requires
            self.wf(),
            0 <= channel < self.channel_count(),
        ensures
            self.spec_taps() >= 1,
            self.input_history(channel).len() == self.spec_taps(),
            self.output_history(channel).len() == self.spec_taps(),
    {
        assert(self.inputs@[channel]@.len() == self.taps);
        assert(self.outputs@[channel]@.len() == self.taps);
    }

    /// Creates the state of a stage of the given order for `channel_count` channels, with
    /// every history entry set to `zero`.
    pub fn new(order: usize, channel_count: usize, zero: T) -> (state: Self)
        requires
            order < usize::MAX,
        ensures
            state.wf(),
            state.channel_count() == channel_count,
            state.spec_taps() == order + 1,
            state.is_reset(zero),
    {
        let taps: usize = order + 1;
        let mut inputs: Vec<Vec<T>> = Vec::new();
        let mut outputs: Vec<Vec<T>> = Vec::new();
        let mut ch: usize = 0;
        while ch < channel_count
            invariant
                ch <= channel_count,
                taps == order + 1,
                inputs@.len() == ch,
                outputs@.len() == ch,
                forall|i: int|
                    0 <= i < ch ==> (#[trigger] inputs@[i])@ == Seq::new(
                        taps as nat,
                        |k: int| zero,
                    ),
                forall|i: int|
                    0 <= i < ch ==> (#[trigger] outputs@[i])@ == Seq::new(
                        taps as nat,
                        |k: int| zero,
                    ),
            decreases channel_count - ch,
        {
            inputs.push(Self::zeroed(taps, zero));
            outputs.push(Self::zeroed(taps, zero));
            ch += 1;
        }
        FilterState { inputs, outputs, taps }
    }

    /// A history of `taps` entries, all `zero`.
    fn zeroed(taps: usize, zero: T) -> (history: Vec<T>)
        ensures
            history@ == Seq::new(taps as nat, |k: int| zero),
    {
        let mut history: Vec<T> = Vec::new();
        let mut k: usize = 0;
        while k < taps
            invariant
                k <= taps,
                history@.len() == k,
                forall|i: int| 0 <= i < k ==> history@[i] == zero,
            decreases taps - k,
        {
            history.push(zero);
            k += 1;
        }
        assert(history@ =~= Seq::new(taps as nat, |k: int| zero));
        history
    }

    /// The number of channels.
    pub fn channels(&self) -> (count: usize)
        ensures
            count == self.channel_count(),
    {
        self.inputs.len()
    }

    /// The length of every history.
    pub fn taps(&self) -> (taps: usize)
        ensures
            taps == self.spec_taps(),
    {
        self.taps
    }

    /// Makes room for a new sample of `channel`: both histories of the channel move one
    /// place back and lose their oldest entry, and `sample` becomes the newest input. The
    /// newest output slot keeps the previous output until [`Self::record_output`] replaces
    /// it. Returns `false`, and changes nothing, for a channel the state does not have.
    pub fn shift_in(&mut self, channel: usize, sample: T) -> (known: bool)
        requires
            old(self).wf(),
        ensures
            final(self).wf(),
            known == (channel < old(self).channel_count()),
            final(self).shifted_from(*old(self), channel as int, sample),
    {
        if channel >= self.inputs.len() {
            return false;
        }
        let ghost before = *self;
        let ghost old_inputs = self.inputs@[channel as int]@;
        let ghost old_outputs = self.outputs@[channel as int]@;
        assert(old_inputs.len() == self.taps);
        assert(old_outputs.len() == self.taps);
        let taps: usize = self.taps;
        let mut i: usize = taps - 1;
        while i > 0
            invariant
                i < taps,
                taps == before.taps,
                self.taps == before.taps,
                channel < before.inputs@.len(),
                before.wf(),
                self.wf(),
                self.inputs@.len() == before.inputs@.len(),
                old_inputs == before.inputs@[channel as int]@,
                old_outputs == before.outputs@[channel as int]@,
                forall|ch: int|
                    0 <= ch < self.inputs@.len() && ch != channel ==> self.inputs@[ch]
                        == before.inputs@[ch],
                forall|ch: int|
                    0 <= ch < self.outputs@.len() && ch != channel ==> self.outputs@[ch]
                        == before.outputs@[ch],
                forall|k: int|
                    0 <= k <= i ==> self.inputs@[channel as int]@[k] == old_inputs[k],
                forall|k: int|
                    i < k < taps ==> self.inputs@[channel as int]@[k] == old_inputs[k - 1],
                forall|k: int|
                    0 <= k <= i ==> self.outputs@[channel as int]@[k] == old_outputs[k],
                forall|k: int|
                    i < k < taps ==> self.outputs@[channel as int]@[k] == old_outputs[k - 1],
            decreases i,
        {
            assert(self.inputs@[channel as int]@.len() == taps);
            assert(self.outputs@[channel as int]@.len() == taps);
            let moved_input = self.inputs[channel][i - 1];
            let moved_output = self.outputs[channel][i - 1];
            self.inputs[channel][i] = moved_input;
            self.outputs[channel][i] = moved_output;
            i -= 1;
        }
        assert(self.inputs@[channel as int]@.len() == taps);
        self.inputs[channel][0] = sample;
        proof {
            assert(self.inputs@[channel as int]@ =~= shifted(old_inputs, sample));
            assert(self.outputs@[channel as int]@ =~= shifted(old_outputs, old_outputs[0]));
        }
        true
    }

    /// Stores `value` as the newest output of `channel`. Returns `false`, and changes
    /// nothing, for a channel the state does not have.
    pub fn record_output(&mut self, channel: usize, value: T) -> (known: bool)
        requires
            old(self).wf(),
        ensures
            final(self).wf(),
            known == (channel < old(self).channel_count()),
            final(self).recorded_from(*old(self), channel as int, value),
    {
        if channel >= self.outputs.len() {
            return false;
        }
        assert(self.outputs@[channel as int]@.len() == self.taps);
        self.outputs[channel][0] = value;
        true
    }

    /// The input history of `channel`, newest entry first; `None` for a channel the state
    /// does not have.
    pub fn inputs(&self, channel: usize) -> (history: Option<&Vec<T>>)
        requires
            self.wf(),
        ensures
            history is Some == (channel < self.channel_count()),
            history is Some ==> history.unwrap()@ == self.input_history(channel as int),
    {
        if channel < self.inputs.len() {
            Some(&self.inputs[channel])
        } else {
            None
        }
    }

    /// The output history of `channel`, newest entry first; `None` for a channel the
    /// state does not have.
    pub fn outputs(&self, channel: usize) -> (history: Option<&Vec<T>>)
        requires
            self.wf(),
        ensures
            history is Some == (channel < self.channel_count()),
            history is Some ==> history.unwrap()@ == self.output_history(channel as int),
    {
        if channel < self.outputs.len() {
            Some(&self.outputs[channel])
        } else {
            None
        }
    }
}

/// The histories of both stages of the filter chain, for one channel count.
pub struct FilterChain<T> {
    bandpass: FilterState<T>,
    notch: FilterState<T>,
}

impl<T: Copy> FilterChain<T> {
    /// The histories of `stage`.
    pub closed spec fn stage(&self, stage: Stage) -> FilterState<T> {
        match stage {
            Stage::Bandpass => self.bandpass,
            Stage::Notch => self.notch,
        }
    }

    /// The order of `stage`.
    pub open spec fn order_of(stage: Stage) -> nat {
        match stage {
            Stage::Bandpass => BANDPASS_ORDER as nat,
            Stage::Notch => NOTCH_ORDER as nat,
        }
    }

    /// The number of channels both stages are sized for.
    pub open spec fn channel_count(&self) -> nat {
        self.stage(Stage::Bandpass).channel_count()
    }

    /// Both stages are well formed, sized for the same channels, and hold one history
    /// entry more than their order.
    pub open spec fn wf(&self) -> bool {
        &&& self.stage(Stage::Bandpass).wf()
        &&& self.stage(Stage::Notch).wf()
        &&& self.stage(Stage::Notch).channel_count() == self.stage(Stage::Bandpass).channel_count()
        &&& self.stage(Stage::Bandpass).spec_taps() == BANDPASS_ORDER + 1
        &&& self.stage(Stage::Notch).spec_taps() == NOTCH_ORDER + 1
    }

    /// Creates the chain for `channel_count` channels with every history entry of both
    /// stages set to `zero`.
    pub fn new(channel_count: usize, zero: T) -> (chain: Self)
        ensures
            chain.wf(),
            chain.channel_count() == channel_count,
            forall|stage: Stage| (#[trigger] chain.stage(stage)).is_reset(zero),
    {
        FilterChain {
            bandpass: FilterState::new(BANDPASS_ORDER, channel_count, zero),
            notch: FilterState::new(NOTCH_ORDER, channel_count, zero),
        }
    }

    /// The number of channels.
    pub fn channels(&self) -> (count: usize)
        ensures
            count == self.channel_count(),
    {
        self.bandpass.channels()
    }

    /// Shifts `sample` into the histories of `channel` at `stage`, leaving the other stage
    /// as it is. Returns `false`, and changes nothing, for a channel the chain does not
    /// have.
    pub fn shift_in(&mut self, stage: Stage, channel: usize, sample: T) -> (known: bool)
        requires
            old(self).wf(),
        ensures
            final(self).wf(),
            final(self).channel_count() == old(self).channel_count(),
            known == (channel < old(self).channel_count()),
            final(self).stage(stage).shifted_from(old(self).stage(stage), channel as int, sample),
            forall|other: Stage|
                other != stage ==> #[trigger] final(self).stage(other) == old(self).stage(other),
    {
        match stage {
            Stage::Bandpass => self.bandpass.shift_in(channel, sample),
            Stage::Notch => self.notch.shift_in(channel, sample),
        }
    }

    /// Stores `value` as the newest output of `channel` at `stage`, leaving the other
    /// stage as it is. Returns `false`, and changes nothing, for a channel the chain does
    /// not have.
    pub fn record_output(&mut self, stage: Stage, channel: usize, value: T) -> (known: bool)
        requires
            old(self).wf(),
        ensures
            final(self).wf(),
            final(self).channel_count() == old(self).channel_count(),
            known == (channel < old(self).channel_count()),
            final(self).stage(stage).recorded_from(old(self).stage(stage), channel as int, value),
            forall|other: Stage|
                other != stage ==> #[trigger] final(self).stage(other) == old(self).stage(other),
    {
        match stage {
            Stage::Bandpass => self.bandpass.record_output(channel, value),
            Stage::Notch => self.notch.record_output(channel, value),
        }
    }

    /// The input history of `channel` at `stage`, newest entry first; `None` for a channel
    /// the chain does not have.
    pub fn inputs(&self, stage: Stage, channel: usize) -> (history: Option<&Vec<T>>)
        requires
            self.wf(),
        ensures
            history is Some == (channel < self.channel_count()),
            history is Some ==> history.unwrap()@ == self.stage(stage).input_history(
                channel as int,
            ),
    {
        match stage {
            Stage::Bandpass => self.bandpass.inputs(channel),
            Stage::Notch => self.notch.inputs(channel),
        }
    }

    /// The output history of `channel` at `stage`, newest entry first; `None` for a
    /// channel the chain does not have.
    pub fn outputs(&self, stage: Stage, channel: usize) -> (history: Option<&Vec<T>>)
        requires
            self.wf(),
        ensures
            history is Some == (channel < self.channel_count()),
            history is Some ==> history.unwrap()@ == self.stage(stage).output_history(
                channel as int,
            ),
    {
        match stage {
            Stage::Bandpass => self.bandpass.outputs(channel),
            Stage::Notch => self.notch.outputs(channel),
        }
    }
}

} // verus!
