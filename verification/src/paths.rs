//! The descriptor of a path between two chains, and the tags by which
//! paths are selected.

use vstd::prelude::*;

verus! {

/// Classification attributes of one channel.
#[derive(Debug, PartialEq, Eq)]
pub struct Tags {
    pub dex: String,
    pub preferred: bool,
    pub properties: String,
    pub status: String,
}

/// The mathematical content of [`Tags`].
pub struct TagsView {
    pub dex: Seq<char>,
    pub preferred: bool,
    pub properties: Seq<char>,
    pub status: Seq<char>,
}

impl DeepView for Tags {
    type V = TagsView;

    open spec fn deep_view(&self) -> TagsView {
        TagsView {
            dex: self.dex@,
            preferred: self.preferred,
            properties: self.properties@,
            status: self.status@,
        }
    }
}

impl Clone for Tags {
    fn clone(&self) -> (r: Self)
        ensures
            r.deep_view() == self.deep_view(),
    {
        Tags {
            dex: self.dex.clone(),
            preferred: self.preferred,
            properties: self.properties.clone(),
            status: self.status.clone(),
        }
    }
}

impl Default for Tags {
    fn default() -> (r: Self)
        ensures
            r.deep_view() == (TagsView {
                dex: Seq::empty(),
                preferred: false,
                properties: Seq::empty(),
                status: Seq::empty(),
            }),
    {
        Tags {
            dex: String::new(),
            preferred: false,
            properties: String::new(),
            status: String::new(),
        }
    }
}

/// The first chain's end of a channel.
#[derive(Debug, PartialEq, Eq)]
pub struct ChannelChain1 {
    pub channel_id: String,
    pub port_id: String,
}

/// The mathematical content of [`ChannelChain1`].
pub struct ChannelChain1View {
    pub channel_id: Seq<char>,
    pub port_id: Seq<char>,
}

impl DeepView for ChannelChain1 {
    type V = ChannelChain1View;

    open spec fn deep_view(&self) -> ChannelChain1View {
        ChannelChain1View { channel_id: self.channel_id@, port_id: self.port_id@ }
    }
}

impl Clone for ChannelChain1 {
    fn clone(&self) -> (r: Self)
        ensures
            r.deep_view() == self.deep_view(),
    {
        ChannelChain1 { channel_id: self.channel_id.clone(), port_id: self.port_id.clone() }
    }
}

impl Default for ChannelChain1 {
    fn default() -> (r: Self)
        ensures
            r.deep_view() == (ChannelChain1View {
                channel_id: Seq::empty(),
                port_id: Seq::empty(),
            }),
    {
        ChannelChain1 { channel_id: String::new(), port_id: String::new() }
    }
}

/// The second chain's end of a channel.
#[derive(Debug, PartialEq, Eq)]
pub struct ChannelChain2 {
    pub channel_id: String,
    pub port_id: String,
}

/// The mathematical content of [`ChannelChain2`].
pub struct ChannelChain2View {
    pub channel_id: Seq<char>,
    pub port_id: Seq<char>,
}

impl DeepView for ChannelChain2 {
    type V = ChannelChain2View;

    open spec fn deep_view(&self) -> ChannelChain2View {
        ChannelChain2View { channel_id: self.channel_id@, port_id: self.port_id@ }
    }
}

impl Clone for ChannelChain2 {
    fn clone(&self) -> (r: Self)
        ensures
            r.deep_view() == self.deep_view(),
    {
        ChannelChain2 { channel_id: self.channel_id.clone(), port_id: self.port_id.clone() }
    }
}

impl Default for ChannelChain2 {
    fn default() -> (r: Self)
        ensures
            r.deep_view() == (ChannelChain2View {
                channel_id: Seq::empty(),
                port_id: Seq::empty(),
            }),
    {
        ChannelChain2 { channel_id: String::new(), port_id: String::new() }
    }
}

/// One lane of a path: its two ends, its ordering mode, its version and
/// its tags.
#[derive(Debug, PartialEq, Eq)]
pub struct Channel {
    pub chain_1: ChannelChain1,
    pub chain_2: ChannelChain2,
    pub ordering: String,
    pub version: String,
    pub tags: Tags,
}

/// The mathematical content of [`Channel`].
pub struct ChannelView {
    pub chain_1: ChannelChain1View,
    pub chain_2: ChannelChain2View,
    pub ordering: Seq<char>,
    pub version: Seq<char>,
    pub tags: TagsView,
}

impl DeepView for Channel {
    type V = ChannelView;

    open spec fn deep_view(&self) -> ChannelView {
        ChannelView {
            chain_1: self.chain_1.deep_view(),
            chain_2: self.chain_2.deep_view(),
            ordering: self.ordering@,
            version: self.version@,
            tags: self.tags.deep_view(),
        }
    }
}

impl Clone for Channel {
    fn clone(&self) -> (r: Self)
        ensures
            r.deep_view() == self.deep_view(),
    {
        Channel {
            chain_1: self.chain_1.clone(),
            chain_2: self.chain_2.clone(),
            ordering: self.ordering.clone(),
            version: self.version.clone(),
            tags: self.tags.clone(),
        }
    }
}

impl Default for Channel {
    fn default() -> (r: Self)
        ensures
            r.deep_view() == (ChannelView {
                chain_1: ChannelChain1View { channel_id: Seq::empty(), port_id: Seq::empty() },
                chain_2: ChannelChain2View { channel_id: Seq::empty(), port_id: Seq::empty() },
                ordering: Seq::empty(),
                version: Seq::empty(),
                tags: TagsView {
                    dex: Seq::empty(),
                    preferred: false,
                    properties: Seq::empty(),
                    status: Seq::empty(),
                },
            }),
    {
        Channel {
            chain_1: ChannelChain1::default(),
            chain_2: ChannelChain2::default(),
            ordering: String::new(),
            version: String::new(),
            tags: Tags::default(),
        }
    }
}

/// The first chain of a path, with the client and connection that it
/// holds for the other.
#[derive(Debug, PartialEq, Eq)]
pub struct Chain1 {
    pub chain_name: String,
    pub client_id: String,
    pub connection_id: String,
}

/// The mathematical content of [`Chain1`].
pub struct Chain1View {
    pub chain_name: Seq<char>,
    pub client_id: Seq<char>,
    pub connection_id: Seq<char>,
}

impl DeepView for Chain1 {
    type V = Chain1View;

    open spec fn deep_view(&self) -> Chain1View {
        Chain1View {
            chain_name: self.chain_name@,
            client_id: self.client_id@,
            connection_id: self.connection_id@,
        }
    }
}

impl Clone for Chain1 {
    fn clone(&self) -> (r: Self)
        ensures
            r.deep_view() == self.deep_view(),
    {
        Chain1 {
            chain_name: self.chain_name.clone(),
            client_id: self.client_id.clone(),
            connection_id: self.connection_id.clone(),
        }
    }
}

impl Default for Chain1 {
    fn default() -> (r: Self)
        ensures
            r.deep_view() == (Chain1View {
                chain_name: Seq::empty(),
                client_id: Seq::empty(),
                connection_id: Seq::empty(),
            }),
    {
        Chain1 {
            chain_name: String::new(),
            client_id: String::new(),
            connection_id: String::new(),
        }
    }
}

/// The second chain of a path, with the client and connection that it
/// holds for the other.
#[derive(Debug, PartialEq, Eq)]
pub struct Chain2 {
    pub chain_name: String,
    pub client_id: String,
    pub connection_id: String,
}

/// The mathematical content of [`Chain2`].
pub struct Chain2View {
    pub chain_name: Seq<char>,
    pub client_id: Seq<char>,
    pub connection_id: Seq<char>,
}

impl DeepView for Chain2 {
    type V = Chain2View;

    open spec fn deep_view(&self) -> Chain2View {
        Chain2View {
            chain_name: self.chain_name@,
            client_id: self.client_id@,
            connection_id: self.connection_id@,
        }
    }
}

impl Clone for Chain2 {
    fn clone(&self) -> (r: Self)
        ensures
            r.deep_view() == self.deep_view(),
    {
        Chain2 {
            chain_name: self.chain_name.clone(),
            client_id: self.client_id.clone(),
            connection_id: self.connection_id.clone(),
        }
    }
}

impl Default for Chain2 {
    fn default() -> (r: Self)
        ensures
            r.deep_view() == (Chain2View {
                chain_name: Seq::empty(),
                client_id: Seq::empty(),
                connection_id: Seq::empty(),
            }),
    {
        Chain2 {
            chain_name: String::new(),
            client_id: String::new(),
            connection_id: String::new(),
        }
    }
}

/// The descriptor of the path between two chains: both ends and the
/// channels that run between them, in the order in which the registry
/// lists them.
#[derive(Debug, PartialEq, Eq)]
pub struct IBCPath {
    pub schema: String,
    pub chain_1: Chain1,
    pub chain_2: Chain2,
    pub channels: Vec<Channel>,
}

/// The mathematical content of [`IBCPath`].
pub struct IBCPathView {
    pub schema: Seq<char>,
    pub chain_1: Chain1View,
    pub chain_2: Chain2View,
    pub channels: Seq<ChannelView>,
}

impl DeepView for IBCPath {
    type V = IBCPathView;

    open spec fn deep_view(&self) -> IBCPathView {
        IBCPathView {
            schema: self.schema@,
            chain_1: self.chain_1.deep_view(),
            chain_2: self.chain_2.deep_view(),
            channels: self.channels.deep_view(),
        }
    }
}

/// A copy of a list of channels.
fn clone_channels(channels: &Vec<Channel>) -> (r: Vec<Channel>)
    ensures
        r.deep_view() == channels.deep_view(),
{
    let mut out: Vec<Channel> = Vec::new();
    let mut i: usize = 0;
    while i < channels.len()
        invariant
            i <= channels.len(),
            out.len() == i,
            forall|j: int| 0 <= j < i ==> out@[j].deep_view() == channels@[j].deep_view(),
        decreases channels.len() - i,
    {
        out.push(channels[i].clone());
        i = i + 1;
    }
    out
}

impl Clone for IBCPath {
    fn clone(&self) -> (r: Self)
        ensures
            r.deep_view() == self.deep_view(),
    {
        IBCPath {
            schema: self.schema.clone(),
            chain_1: self.chain_1.clone(),
            chain_2: self.chain_2.clone(),
            channels: clone_channels(&self.channels),
        }
    }
}

impl Default for IBCPath {
    fn default() -> (r: Self)
        ensures
            r.deep_view() == (IBCPathView {
                schema: Seq::empty(),
                chain_1: Chain1View {
                    chain_name: Seq::empty(),
                    client_id: Seq::empty(),
                    connection_id: Seq::empty(),
                },
                chain_2: Chain2View {
                    chain_name: Seq::empty(),
                    client_id: Seq::empty(),
                    connection_id: Seq::empty(),
                },
                channels: Seq::empty(),
            }),
    {
        let r = IBCPath {
            schema: String::new(),
            chain_1: Chain1::default(),
            chain_2: Chain2::default(),
            channels: Vec::new(),
        };
        assert(r.channels.deep_view() =~= Seq::<ChannelView>::empty());
        r
    }
}

/// A predicate on the tags of a channel: one of the four tag fields,
/// with the value that it must hold.
#[derive(Debug, PartialEq, Eq)]
pub enum Tag {
    Dex(String),
    Preferred(bool),
    Properties(String),
    Status(String),
}

/// The mathematical content of [`Tag`].
pub enum TagView {
    Dex(Seq<char>),
    Preferred(bool),
    Properties(Seq<char>),
    Status(Seq<char>),
}

impl DeepView for Tag {
    type V = TagView;

    open spec fn deep_view(&self) -> TagView {
        match self {
            Tag::Dex(v) => TagView::Dex(v@),
            Tag::Preferred(v) => TagView::Preferred(*v),
            Tag::Properties(v) => TagView::Properties(v@),
            Tag::Status(v) => TagView::Status(v@),
        }
    }
}

impl Clone for Tag {
    fn clone(&self) -> (r: Self)
        ensures
            r.deep_view() == self.deep_view(),
    {
        match self {
            Tag::Dex(v) => Tag::Dex(v.clone()),
            Tag::Preferred(v) => Tag::Preferred(*v),
            Tag::Properties(v) => Tag::Properties(v.clone()),
            Tag::Status(v) => Tag::Status(v.clone()),
        }
    }
}

/// The tags `tags` meet the predicate `tag`: the field that `tag` names
/// holds the value that `tag` carries.
pub open spec fn tags_match(tags: TagsView, tag: TagView) -> bool {
    match tag {
        TagView::Dex(v) => tags.dex == v,
        TagView::Preferred(v) => tags.preferred == v,
        TagView::Properties(v) => tags.properties == v,
        TagView::Status(v) => tags.status == v,
    }
}

/// The path has at least one channel whose tags meet `tag`.
pub open spec fn path_matches(path: IBCPathView, tag: TagView) -> bool {
    exists|i: int| 0 <= i < path.channels.len() && tags_match(#[trigger] path.channels[i].tags, tag)
}

impl Tag {
    /// Whether the tags of one channel meet this predicate.
    pub fn matches(&self, tags: &Tags) -> (r: bool)
        ensures
            r == tags_match(tags.deep_view(), self.deep_view()),
    {
        match self {
            Tag::Dex(v) => tags.dex == *v,
            Tag::Preferred(v) => tags.preferred == *v,
            Tag::Properties(v) => tags.properties == *v,
            Tag::Status(v) => tags.status == *v,
        }
    }
}

impl IBCPath {
    /// Whether at least one channel of this path meets `tag`.
    pub fn has_tag(&self, tag: &Tag) -> (r: bool)
        ensures
            r == path_matches(self.deep_view(), tag.deep_view()),
    {
        let mut i: usize = 0;
        while i < self.channels.len()
            invariant
                i <= self.channels.len(),
                forall|j: int|
                    0 <= j < i ==> !tags_match(
                        #[trigger] self.deep_view().channels[j].tags,
                        tag.deep_view(),
                    ),
            decreases self.channels.len() - i,
        {
            if tag.matches(&self.channels[i].tags) {
                assert(self.deep_view().channels[i as int].tags == self.channels@[i as int].tags.deep_view());
                return true;
            }
            i = i + 1;
        }
        false
    }
}

} // verus!
