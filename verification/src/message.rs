//! Messages and identities.

use vstd::prelude::*;

verus! {

/// The values of a sequence seen through their views.
pub open spec fn views<T: View>(items: Seq<T>) -> Seq<T::V> {
    Seq::new(items.len(), |i: int| items[i]@)
}

/// A value seen through its view, where there is one.
pub open spec fn option_view<T: View>(item: Option<T>) -> Option<T::V> {
    match item {
        Some(item) => Some(item@),
        None => None,
    }
}

/// Appending commutes with viewing.
pub broadcast proof fn lemma_views_push<T: View>(items: Seq<T>, item: T)
    ensures
        #[trigger] views(items.push(item)) == views(items).push(item@),
{
    assert(views(items.push(item)) =~= views(items).push(item@));
}

/// What a frame announces about itself.
#[derive(Debug, Clone, Copy, PartialEq, Eq, Structural)]
pub struct MsgFlags {
    /// Another frame of the same message follows.
    pub more: bool,
    /// The frame is a protocol command, no application data.
    pub command: bool,
}

impl MsgFlags {
    /// No flag.
    pub fn none() -> (flags: MsgFlags)
        ensures
            flags == (MsgFlags { more: false, command: false }),
    {
        MsgFlags { more: false, command: false }
    }

    /// The flag of a frame that others follow.
    pub fn with_more() -> (flags: MsgFlags)
        ensures
            flags == (MsgFlags { more: true, command: false }),
    {
        MsgFlags { more: true, command: false }
    }

    /// The flag of a command frame.
    pub fn with_command() -> (flags: MsgFlags)
        ensures
            flags == (MsgFlags { more: false, command: true }),
    {
        MsgFlags { more: false, command: true }
    }
}

/// One frame of a message.
#[derive(Debug, PartialEq, Eq)]
pub struct Msg {
    data: Option<Vec<u8>>,
    flags: MsgFlags,
}

/// A [`Msg`] with its data as a sequence.
#[verifier::ext_equal]
pub struct MsgView {
    pub data: Option<Seq<u8>>,
    pub flags: MsgFlags,
}

impl MsgView {
    /// The bytes of the frame; none where it has no data.
    pub open spec fn body(self) -> Seq<u8> {
        match self.data {
            Some(data) => data,
            None => Seq::empty(),
        }
    }
}

/// The frame with this data and these flags.
pub open spec fn frame(data: Seq<u8>, flags: MsgFlags) -> MsgView {
    MsgView { data: Some(data), flags }
}

impl View for Msg {
    type V = MsgView;

    closed spec fn view(&self) -> MsgView {
        MsgView {
            data: match self.data {
                Some(data) => Some(data@),
                None => None,
            },
            flags: self.flags,
        }
    }
}

impl Clone for Msg {
    fn clone(&self) -> (copy: Self)
        ensures
            copy@ == self@,
    {
        match &self.data {
            Some(data) => {
                let copied = vstd::slice::slice_to_vec(data.as_slice());
                Msg { data: Some(copied), flags: self.flags }
            },
            None => Msg { data: None, flags: self.flags },
        }
    }
}

impl Msg {
    /// A frame without data or flags.
    pub fn new() -> (msg: Msg)
        ensures
            msg@ == (MsgView { data: None, flags: MsgFlags { more: false, command: false } }),
    {
        Msg { data: None, flags: MsgFlags::none() }
    }

    /// A frame with data and no flags.
    pub fn from_vec(data: Vec<u8>) -> (msg: Msg)
        ensures
            msg@ == frame(data@, MsgFlags { more: false, command: false }),
    {
        Msg { data: Some(data), flags: MsgFlags::none() }
    }

    /// The bytes of the frame, where it has data.
    pub fn data(&self) -> (data: Option<&[u8]>)
        ensures
            match data {
                Some(data) => self@.data == Some(data@),
                None => self@.data is None,
            },
    {
        match &self.data {
            Some(data) => Some(data.as_slice()),
            None => None,
        }
    }

    /// A copy of the bytes of the frame; none where it has no data.
    pub fn body(&self) -> (body: Vec<u8>)
        ensures
            body@ == self@.body(),
    {
        match &self.data {
            Some(data) => vstd::slice::slice_to_vec(data.as_slice()),
            None => {
                let body: Vec<u8> = Vec::new();
                assert(body@ =~= self@.body());
                body
            },
        }
    }

    /// The number of bytes in the frame.
    pub fn size(&self) -> (n: usize)
        ensures
            n == self@.body().len(),
    {
        match &self.data {
            Some(data) => data.len(),
            None => 0,
        }
    }

    /// The flags of the frame.
    pub fn flags(&self) -> (flags: MsgFlags)
        ensures
            flags == self@.flags,
    {
        self.flags
    }

    /// Whether the frame is a command.
    pub fn is_command(&self) -> (yes: bool)
        ensures
            yes == self@.flags.command,
    {
        self.flags.command
    }

    /// Whether another frame follows.
    pub fn is_more(&self) -> (yes: bool)
        ensures
            yes == self@.flags.more,
    {
        self.flags.more
    }

    /// Replaces the flags.
    pub fn set_flags(&mut self, flags: MsgFlags)
        ensures
            final(self)@ == (MsgView { flags, ..old(self)@ }),
    {
        self.flags = flags;
    }

    /// The same frame with other flags.
    pub fn with_flags(self, flags: MsgFlags) -> (msg: Msg)
        ensures
            msg@ == (MsgView { flags, ..self@ }),
    {
        let mut msg = self;
        msg.set_flags(flags);
        msg
    }
}

/// A copy of the frames of a message.
pub(crate) fn copy_frames(frames: &Vec<Msg>) -> (copy: Vec<Msg>)
    ensures
        views(copy@) == views(frames@),
{
    let mut copy: Vec<Msg> = Vec::new();
    let mut i: usize = 0;
    while i < frames.len()
        invariant
            0 <= i <= frames@.len(),
            copy@.len() == i,
            forall|k: int| 0 <= k < i ==> copy@[k]@ == frames@[k]@,
        decreases frames@.len() - i,
    {
        copy.push(frames[i].clone());
        i = i + 1;
    }
    assert(views(copy@) =~= views(frames@));
    copy
}

/// An identity: a short run of bytes.
#[derive(Debug, PartialEq, Eq)]
pub struct Blob {
    bytes: Vec<u8>,
}

impl View for Blob {
    type V = Seq<u8>;

    closed spec fn view(&self) -> Seq<u8> {
        self.bytes@
    }
}

impl Clone for Blob {
    fn clone(&self) -> (copy: Self)
        ensures
            copy@ == self@,
    {
        Blob { bytes: vstd::slice::slice_to_vec(self.bytes.as_slice()) }
    }
}

impl Blob {
    /// The identity with these bytes.
    pub fn from_vec(bytes: Vec<u8>) -> (blob: Blob)
        ensures
            blob@ == bytes@,
    {
        Blob { bytes }
    }

    /// The number of bytes.
    pub fn len(&self) -> (n: usize)
        ensures
            n == self@.len(),
    {
        self.bytes.len()
    }

    /// Whether there is no byte.
    pub fn is_empty(&self) -> (empty: bool)
        ensures
            empty == (self@.len() == 0),
    {
        self.bytes.len() == 0
    }

    /// A copy of the bytes.
    pub fn to_vec(&self) -> (bytes: Vec<u8>)
        ensures
            bytes@ == self@,
    {
        vstd::slice::slice_to_vec(self.bytes.as_slice())
    }
}

/// A copy of an identity, where there is one.
pub(crate) fn copy_identity(identity: &Option<Blob>) -> (copy: Option<Blob>)
    ensures
        option_view(copy) == option_view(*identity),
{
    match identity {
        Some(blob) => Some(blob.clone()),
        None => None,
    }
}

} // verus!
