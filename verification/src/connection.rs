//! The state of the connection to the external stream.

use crate::source::StreamDescriptor;
use vstd::prelude::*;

verus! {

/// Number of channels assumed while no stream is connected.
pub const DEFAULT_CHANNEL_COUNT: usize = 8;

/// Whether a stream is connected, and if so which one and how it is described.
pub struct ConnectionState {
    descriptor: Option<StreamDescriptor>,
    channel_count: usize,
    is_real: bool,
    stream_name: Option<String>,
}

impl ConnectionState {
    /// The description of the connected stream, if one is connected.
    pub closed spec fn spec_descriptor(&self) -> Option<StreamDescriptor> {
        self.descriptor
    }

    /// The number of channels per sample.
    pub closed spec fn spec_channel_count(&self) -> nat {
        self.channel_count as nat
    }

    /// Whether samples come from a connected stream.
    pub closed spec fn spec_is_real(&self) -> bool {
        self.is_real
    }

    /// The name under which the connected stream was requested.
    pub closed spec fn spec_stream_name(&self) -> Option<String> {
        self.stream_name
    }

    /// The state without a connection is fully determined: no descriptor, no requested
    /// name, and the default channel count. With a connection, the descriptor and the
    /// requested name are both present and the channel count is the descriptor's.
    pub open spec fn wf(&self) -> bool {
        if self.spec_is_real() {
            &&& self.spec_descriptor() is Some
            &&& self.spec_stream_name() is Some
            &&& self.spec_channel_count() == self.spec_descriptor().unwrap().channel_count
        } else {
            &&& self.spec_descriptor() is None
            &&& self.spec_stream_name() is None
            &&& self.spec_channel_count() == DEFAULT_CHANNEL_COUNT
        }
    }

    /// The state without a connection.
    pub fn new() -> (state: Self)
        ensures
            state.wf(),
            !state.spec_is_real(),
    {
        ConnectionState {
            descriptor: None,
            channel_count: DEFAULT_CHANNEL_COUNT,
            is_real: false,
            stream_name: None,
        }
    }

    /// Records a connection to the stream described by `descriptor`, which was requested
    /// under `stream_name`. The channel count becomes the descriptor's.
    pub fn connect(&mut self, descriptor: StreamDescriptor, stream_name: String)
        ensures
            final(self).wf(),
            final(self).spec_is_real(),
            final(self).spec_descriptor() == Some(descriptor),
            final(self).spec_stream_name() == Some(stream_name),
            final(self).spec_channel_count() == descriptor.channel_count,
    {
        self.channel_count = descriptor.channel_count;
        self.descriptor = Some(descriptor);
        self.is_real = true;
        self.stream_name = Some(stream_name);
    }

    /// Forgets the connection and returns to the default channel count.
    pub fn disconnect(&mut self)
        ensures
            final(self).wf(),
            !final(self).spec_is_real(),
    {
        self.descriptor = None;
        self.channel_count = DEFAULT_CHANNEL_COUNT;
        self.is_real = false;
        self.stream_name = None;
    }

    /// The description of the connected stream, if one is connected.
    pub fn descriptor(&self) -> (descriptor: Option<&StreamDescriptor>)
        ensures
            match descriptor {
                Some(found) => self.spec_descriptor() == Some(*found),
                None => self.spec_descriptor() is None,
            },
    {
        self.descriptor.as_ref()
    }

    /// The number of channels per sample.
    pub fn channel_count(&self) -> (count: usize)
        ensures
            count == self.spec_channel_count(),
    {
        self.channel_count
    }

    /// Whether samples come from a connected stream.
    pub fn is_real(&self) -> (connected: bool)
        ensures
            connected == self.spec_is_real(),
    {
        self.is_real
    }

    /// The name to look the stream up under when pulling a sample: the requested name
    /// while a stream is connected, and nothing otherwise.
    pub fn pull_target(&self) -> (target: Option<&String>)
        requires
            self.wf(),
        ensures
            target is Some == self.spec_is_real(),
            match target {
                Some(name) => self.spec_stream_name() == Some(*name),
                None => true,
            },
    {
        if self.is_real {
            self.stream_name.as_ref()
        } else {
            None
        }
    }
}

} // verus!
