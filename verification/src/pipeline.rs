//! The state of the whole pipeline, owned in one place.
//!
//! The connection state, the sample windows and the filter histories all depend on the
//! number of channels. They are kept together here and only ever resized together, so a
//! tick never meets windows or histories sized for a channel count other than the one the
//! connection reports.
//!
//! `S` is the type of a sample value in the windows, `H` the type of a value in the
//! filter histories.

use crate::bands::NOMINAL_RATE_MILLIHERTZ;
use crate::connection::{ConnectionState, DEFAULT_CHANNEL_COUNT};
use crate::filter::{FilterChain, FilterState, Stage};
use crate::source::{fit_channels, fitted, StreamDescriptor};
use crate::window::WindowStore;
use vstd::prelude::*;

verus! {

/// Number of samples in each window.
pub const WINDOW_CAPACITY: usize = 512;

/// Connection state, sample windows and filter histories of one pipeline.
pub struct Pipeline<S, H> {
    connection: ConnectionState,
    windows: WindowStore<S>,
    filters: Option<FilterChain<H>>,
}

impl<S: Copy, H: Copy> Pipeline<S, H> {
    /// The connection state.
    pub closed spec fn connection(&self) -> ConnectionState {
        self.connection
    }

    /// The raw and filtered windows.
    pub closed spec fn windows(&self) -> WindowStore<S> {
        self.windows
    }

    /// The filter histories; absent until the first connection and after a disconnect.
    pub closed spec fn filters(&self) -> Option<FilterChain<H>> {
        self.filters
    }

    /// The number of channels per sample.
    pub open spec fn channel_count(&self) -> nat {
        self.connection().spec_channel_count()
    }

    /// The histories of `stage`, while the filter chain is present.
    pub open spec fn stage(&self, stage: Stage) -> FilterState<H>
        recommends
            self.filters() is Some,
    {
        self.filters().unwrap().stage(stage)
    }

    /// The parts are well formed and agree on the number of channels: the windows always,
    /// and both filter stages whenever the filter chain is present. The windows have the
    /// fixed capacity. The filter chain is present exactly while a stream is connected.
    pub open spec fn wf(&self) -> bool {
        &&& self.connection().wf()
        &&& self.windows().wf()
        &&& self.windows().channel_count() == self.channel_count()
        &&& self.windows().spec_capacity() == WINDOW_CAPACITY
        &&& self.filters() is Some == self.connection().spec_is_real()
        &&& self.filters() is Some ==> {
            &&& self.filters().unwrap().wf()
            &&& self.stage(Stage::Bandpass).channel_count() == self.channel_count()
            &&& self.stage(Stage::Notch).channel_count() == self.channel_count()
        }
    }

    /// In a well-formed pipeline the connection state, the windows of both
    /// representations and, where present, both filter stages are sized for the same
    /// number of channels, and no window holds more than the fixed capacity.
    pub proof fn lemma_channel_counts_agree(&self)
        requires
            self.wf(),
        ensures
            self.windows().channel_count() == self.connection().spec_channel_count(),
            self.filters() is Some ==> forall|stage: Stage|
                (#[trigger] self.stage(stage)).channel_count()
                    == self.connection().spec_channel_count(),
            forall|ch: int|
                0 <= ch < self.connection().spec_channel_count() ==> {
                    &&& (#[trigger] self.windows().raw_window(ch)).len() <= WINDOW_CAPACITY
                    &&& self.windows().filtered_window(ch).len() == self.windows().raw_window(
                        ch,
                    ).len()
                },
    {
        if self.filters() is Some {
            assert forall|stage: Stage|
                (#[trigger] self.stage(stage)).channel_count()
                    == self.connection().spec_channel_count() by {
                match stage {
                    Stage::Bandpass => {},
                    Stage::Notch => {},
                }
            }
        }
        assert forall|ch: int| 0 <= ch < self.connection().spec_channel_count() implies {
            &&& (#[trigger] self.windows().raw_window(ch)).len() <= WINDOW_CAPACITY
            &&& self.windows().filtered_window(ch).len() == self.windows().raw_window(ch).len()
        } by {
            self.windows().lemma_window_lengths(ch);
        }
    }

    /// Creates a pipeline without a connection: the default number of channels, empty
    /// windows, and no filter histories.
    pub fn new() -> (pipeline: Self)
        ensures
            pipeline.wf(),
            !pipeline.connection().spec_is_real(),
            pipeline.channel_count() == DEFAULT_CHANNEL_COUNT,
            pipeline.filters() is None,
            pipeline.windows().spec_is_empty(),
    {
        Pipeline {
            connection: ConnectionState::new(),
            windows: WindowStore::new(DEFAULT_CHANNEL_COUNT, WINDOW_CAPACITY),
            filters: None,
        }
    }

    /// Commits a connection to the stream described by `descriptor`, requested under
    /// `stream_name`. The connection state, the windows and both filter stages are resized
    /// together to the descriptor's channel count; the windows start empty and every
    /// filter history entry starts at `zero`.
    pub fn connect(&mut self, descriptor: StreamDescriptor, stream_name: String, zero: H)
        ensures
            final(self).wf(),
            final(self).connection().spec_is_real(),
            final(self).connection().spec_descriptor() == Some(descriptor),
            final(self).connection().spec_stream_name() == Some(stream_name),
            final(self).channel_count() == descriptor.channel_count,
            final(self).windows().channel_count() == descriptor.channel_count,
            final(self).windows().spec_is_empty(),
            final(self).filters() is Some,
            forall|stage: Stage|
                {
                    &&& (#[trigger] final(self).stage(stage)).channel_count()
                        == descriptor.channel_count
                    &&& final(self).stage(stage).is_reset(zero)
                },
    {
        let channel_count: usize = descriptor.channel_count;
        self.connection.connect(descriptor, stream_name);
        self.windows = WindowStore::new(channel_count, WINDOW_CAPACITY);
        self.filters = Some(FilterChain::new(channel_count, zero));
        proof {
            assert forall|stage: Stage|
                {
                    &&& (#[trigger] self.stage(stage)).channel_count() == channel_count
                    &&& self.stage(stage).is_reset(zero)
                } by {
                match stage {
                    Stage::Bandpass => {},
                    Stage::Notch => {},
                }
            }
        }
    }

    /// Drops the connection. The channel count returns to the default, the descriptor is
    /// cleared, both filter stages are torn down, and the windows are replaced by empty
    /// ones for the default number of channels.
    pub fn disconnect(&mut self)
        ensures
            final(self).wf(),
            !final(self).connection().spec_is_real(),
            final(self).connection().spec_descriptor() is None,
            final(self).connection().spec_stream_name() is None,
            final(self).channel_count() == DEFAULT_CHANNEL_COUNT,
            final(self).filters() is None,
            final(self).windows().spec_is_empty(),
    {
        self.connection.disconnect();
        self.filters = None;
        self.windows = WindowStore::new(DEFAULT_CHANNEL_COUNT, WINDOW_CAPACITY);
    }

    /// The description of the connected stream, if one is connected.
    pub fn get_stream_info(&self) -> (info: Option<&StreamDescriptor>)
        ensures
            match info {
                Some(found) => self.connection().spec_descriptor() == Some(*found),
                None => self.connection().spec_descriptor() is None,
            },
    {
        self.connection.descriptor()
    }

    /// Whether samples come from a connected stream.
    pub fn is_real_connection(&self) -> (connected: bool)
        ensures
            connected == self.connection().spec_is_real(),
    {
        self.connection.is_real()
    }

    /// The number of channels per sample.
    pub fn channels(&self) -> (count: usize)
        ensures
            count == self.channel_count(),
    {
        self.connection.channel_count()
    }

    /// The number of samples in a full window.
    pub fn capacity(&self) -> (capacity: usize)
        ensures
            capacity == self.windows().spec_capacity(),
    {
        self.windows.capacity()
    }

    /// The rate, in millihertz, at which samples are processed.
    pub fn sample_rate(&self) -> (rate: u64)
        ensures
            rate == NOMINAL_RATE_MILLIHERTZ,
    {
        NOMINAL_RATE_MILLIHERTZ
    }

    /// The name to look the stream up under when pulling a sample: the requested name
    /// while a stream is connected, and nothing otherwise.
    pub fn pull_target(&self) -> (target: Option<&String>)
        requires
            self.wf(),
        ensures
            target is Some == self.connection().spec_is_real(),
            match target {
                Some(name) => self.connection().spec_stream_name() == Some(*name),
                None => true,
            },
    {
        self.connection.pull_target()
    }

    /// Whether values pulled for a stream requested under `requested` make a sample for
    /// this pipeline: a stream is connected, it was requested under that same name, and
    /// the pull returned at least one value. A pull that found no data returns no values;
    /// a pull made under another name, or one that returns when nothing is connected any
    /// more, does not belong here.
    pub open spec fn accepts_pulled(&self, requested: Seq<char>, values: Seq<S>) -> bool {
        &&& self.connection().spec_is_real()
        &&& self.connection().spec_stream_name() is Some
        &&& self.connection().spec_stream_name().unwrap()@ == requested
        &&& values.len() > 0
    }

    /// Turns the values of a pull made for the stream requested under `requested` into a
    /// sample: the values fitted to the pipeline's channels, with `fill` for channels
    /// without a value. Gives `None` when the pull found no data, and when the pipeline is
    /// no longer connected to the stream the pull was made for.
    pub fn accept_pulled(&self, requested: &String, values: &Vec<S>, fill: S) -> (sample: Option<
        Vec<S>,
    >)
        requires
            self.wf(),
        ensures
            sample is Some == self.accepts_pulled(requested@, values@),
            sample is Some ==> sample.unwrap()@ == fitted(values@, self.channel_count(), fill),
    {
        if values.len() == 0 {
            return None;
        }
        match self.connection.pull_target() {
            Some(name) => if *name == *requested {
                Some(fit_channels(values, self.connection.channel_count(), fill))
            } else {
                None
            },
            None => None,
        }
    }

    /// Appends one multi-channel sample, raw and filtered, to the windows: channel `ch`
    /// receives `raw[ch]` and `filtered[ch]`. Channels for which either input has no
    /// value, and values beyond the pipeline's channels, are left out. Nothing else
    /// changes.
    pub fn update_buffers(&mut self, raw: &Vec<S>, filtered: &Vec<S>)
        requires
            old(self).wf(),
        ensures
            final(self).wf(),
            final(self).connection() == old(self).connection(),
            final(self).filters() == old(self).filters(),
            final(self).windows().updated_from(old(self).windows(), raw@, filtered@),
    {
        self.windows.update(raw, filtered);
    }

    /// The channels an analysis cycle covers: those whose filtered window is full, in
    /// ascending order. A channel with even one sample less than a full window is left
    /// out.
    pub fn analysis_channels(&self) -> (channels: Vec<usize>)
        requires
            self.wf(),
        ensures
            self.windows().lists_full_channels(channels@),
    {
        self.windows.full_channels()
    }

    /// The filtered samples of `channel`, oldest first, when its window is full; `None`
    /// for a window that is still filling and for a channel the pipeline does not have.
    pub fn full_window(&self, channel: usize) -> (samples: Option<&Vec<S>>)
        requires
            self.wf(),
        ensures
            samples is Some == self.windows().spec_is_full(channel as int),
            samples is Some ==> samples.unwrap()@ == self.windows().filtered_window(
                channel as int,
            ),
    {
        self.windows.full_window(channel)
    }

    /// Whether the filter chain is present. Without it samples take the simplified pass.
    pub fn filters_ready(&self) -> (ready: bool)
        ensures
            ready == self.filters() is Some,
    {
        self.filters.is_some()
    }

    /// Shifts `sample` into the histories of `channel` at `stage`. Returns `false`, and
    /// changes nothing, when the filter chain is absent or does not have the channel.
    pub fn shift_in(&mut self, stage: Stage, channel: usize, sample: H) -> (known: bool)
        requires
            old(self).wf(),
        ensures
            final(self).wf(),
            final(self).connection() == old(self).connection(),
            final(self).windows() == old(self).windows(),
            known == (old(self).filters() is Some && channel < old(self).channel_count()),
            final(self).filters() is Some == old(self).filters() is Some,
            old(self).filters() is Some ==> {
                &&& final(self).stage(stage).shifted_from(
                    old(self).stage(stage),
                    channel as int,
                    sample,
                )
                &&& forall|other: Stage|
                    other != stage ==> #[trigger] final(self).stage(other) == old(self).stage(
                        other,
                    )
            },
    {
        match &mut self.filters {
            Some(chain) => chain.shift_in(stage, channel, sample),
            None => false,
        }
    }

    /// Stores `value` as the newest output of `channel` at `stage`. Returns `false`, and
    /// changes nothing, when the filter chain is absent or does not have the channel.
    pub fn record_output(&mut self, stage: Stage, channel: usize, value: H) -> (known: bool)
        requires
            old(self).wf(),
        ensures
            final(self).wf(),
            final(self).connection() == old(self).connection(),
            final(self).windows() == old(self).windows(),
            known == (old(self).filters() is Some && channel < old(self).channel_count()),
            final(self).filters() is Some == old(self).filters() is Some,
            old(self).filters() is Some ==> {
                &&& final(self).stage(stage).recorded_from(
                    old(self).stage(stage),
                    channel as int,
                    value,
                )
                &&& forall|other: Stage|
                    other != stage ==> #[trigger] final(self).stage(other) == old(self).stage(
                        other,
                    )
            },
    {
        match &mut self.filters {
            Some(chain) => chain.record_output(stage, channel, value),
            None => false,
        }
    }

    /// The input history of `channel` at `stage`, newest entry first; `None` when the
    /// filter chain is absent or does not have the channel.
    pub fn stage_inputs(&self, stage: Stage, channel: usize) -> (history: Option<&Vec<H>>)
        requires
            self.wf(),
        ensures
            history is Some == (self.filters() is Some && channel < self.channel_count()),
            history is Some ==> history.unwrap()@ == self.stage(stage).input_history(
                channel as int,
            ),
    {
        match &self.filters {
            Some(chain) => chain.inputs(stage, channel),
            None => None,
        }
    }

    /// The output history of `channel` at `stage`, newest entry first; `None` when the
    /// filter chain is absent or does not have the channel.
    pub fn stage_outputs(&self, stage: Stage, channel: usize) -> (history: Option<&Vec<H>>)
        requires
            self.wf(),
        ensures
            history is Some == (self.filters() is Some && channel < self.channel_count()),
            history is Some ==> history.unwrap()@ == self.stage(stage).output_history(
                channel as int,
            ),
    {
        match &self.filters {
            Some(chain) => chain.outputs(stage, channel),
            None => None,
        }
    }
}

} // verus!
