//! The handle that stands for one collection of the service.

use vstd::prelude::*;
use std::sync::Arc;
use tonic::transport::Channel;

verus! {

/// What a handle is: the name of a collection and the connection over which
/// the collection is reached.
pub struct CollectionView {
    pub channel: Channel,
    pub name: Seq<char>,
}

/// A reference to a named collection of the service. It holds no state of
/// the collection and does not promise that the collection still exists.
#[derive(Debug)]
pub struct Collection {
    channel: Arc<Channel>,
    name: String,
}

impl View for Collection {
    type V = CollectionView;

    closed spec fn view(&self) -> CollectionView {
        CollectionView { channel: *self.channel, name: self.name@ }
    }
}

impl Collection {
    /// A handle for the collection `name`, reached over `channel`.
    pub fn new(channel: Arc<Channel>, name: String) -> (handle: Collection)
        ensures
            handle@ == (CollectionView { channel: *channel, name: name@ }),
    {
        Collection { channel, name }
    }

    /// The name of the collection.
    pub fn name(&self) -> (name: &str)
        ensures
            name@ == self@.name,
    {
        self.name.as_str()
    }

    /// The connection over which the collection is reached.
    pub fn channel(&self) -> (channel: &Arc<Channel>)
        ensures
            **channel == self@.channel,
    {
        &self.channel
    }
}

} // verus!
