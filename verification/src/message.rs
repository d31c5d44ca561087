//! What one received message carries: metadata, data, or both.

use vstd::prelude::*;

verus! {

/// The payload of one received message. A message always carries metadata
/// or data: there is no variant without both.
#[derive(Debug, PartialEq, Eq)]
pub enum MessageSet<M, D> {
    /// Metadata alone, such as a change of schema.
    Meta(M),
    /// Row data alone.
    Data(D),
    /// Metadata together with row data.
    MetaData(M, D),
}

impl<M, D> MessageSet<M, D> {
    /// Whether the message carries metadata.
    pub open spec fn spec_has_meta(&self) -> bool {
        *self is Meta || *self is MetaData
    }

    /// Whether the message carries data.
    pub open spec fn spec_has_data(&self) -> bool {
        *self is Data || *self is MetaData
    }

    /// The metadata of the message, where it carries any.
    pub open spec fn spec_meta(self) -> Option<M> {
        match self {
            MessageSet::Meta(meta) => Some(meta),
            MessageSet::Data(_) => None,
            MessageSet::MetaData(meta, _) => Some(meta),
        }
    }

    /// The data of the message, where it carries any.
    pub open spec fn spec_data(self) -> Option<D> {
        match self {
            MessageSet::Meta(_) => None,
            MessageSet::Data(data) => Some(data),
            MessageSet::MetaData(_, data) => Some(data),
        }
    }

    /// The message with `data` in the place of its own data; a message
    /// without data is left as it is.
    pub open spec fn with_data(self, data: D) -> MessageSet<M, D> {
        match self {
            MessageSet::Meta(meta) => MessageSet::Meta(meta),
            MessageSet::Data(_) => MessageSet::Data(data),
            MessageSet::MetaData(meta, _) => MessageSet::MetaData(meta, data),
        }
    }

    /// Gives up the message for its metadata.
    pub fn into_meta(self) -> (meta: Option<M>)
        ensures
            meta == self.spec_meta(),
    {
        match self {
            MessageSet::Meta(meta) => Some(meta),
            MessageSet::Data(_) => None,
            MessageSet::MetaData(meta, _) => Some(meta),
        }
    }

    /// Gives up the message for its data.
    pub fn into_data(self) -> (data: Option<D>)
        ensures
            data == self.spec_data(),
    {
        match self {
            MessageSet::Meta(_) => None,
            MessageSet::Data(data) => Some(data),
            MessageSet::MetaData(_, data) => Some(data),
        }
    }

    /// Whether the message carries metadata.
    #[verifier::when_used_as_spec(spec_has_meta)]
    pub fn has_meta(&self) -> (has: bool)
        ensures
            has == self.spec_has_meta(),
    {
        match self {
            MessageSet::Meta(_) => true,
            MessageSet::Data(_) => false,
            MessageSet::MetaData(_, _) => true,
        }
    }

    /// Whether the message carries data.
    #[verifier::when_used_as_spec(spec_has_data)]
    pub fn has_data(&self) -> (has: bool)
        ensures
            has == self.spec_has_data(),
    {
        match self {
            MessageSet::Meta(_) => false,
            MessageSet::Data(_) => true,
            MessageSet::MetaData(_, _) => true,
        }
    }

    /// The metadata of the message, where it carries any.
    pub fn meta(&self) -> (meta: Option<&M>)
        ensures
            match meta {
                Some(found) => self.spec_meta() == Some(*found),
                None => self.spec_meta() is None,
            },
    {
        match self {
            MessageSet::Meta(meta) => Some(meta),
            MessageSet::Data(_) => None,
            MessageSet::MetaData(meta, _) => Some(meta),
        }
    }

    /// The data of the message, open to change, where it carries any. What
    /// the caller leaves in it is the data of the message afterwards; the
    /// metadata and the variant stay.
    pub fn data(&mut self) -> (data: Option<&mut D>)
        ensures
            match data {
                Some(found) => old(self).spec_data() == Some(*found) && *final(self) == old(
                    self,
                ).with_data(*final(found)),
                None => old(self).spec_data() is None && *final(self) == *old(self),
            },
    {
        match self {
            MessageSet::Meta(_) => None,
            MessageSet::Data(data) => Some(data),
            MessageSet::MetaData(_, data) => Some(data),
        }
    }
}

/// A message carries metadata, data or both, never neither; which of the
/// three it is follows from the two answers, and giving up the message for a
/// part yields that part exactly where the message says it has it.
pub proof fn lemma_message_set_parts<M, D>(set: MessageSet<M, D>)
    ensures
        set.spec_has_meta() || set.spec_has_data(),
        set is Meta <==> set.spec_has_meta() && !set.spec_has_data(),
        set is Data <==> !set.spec_has_meta() && set.spec_has_data(),
        set is MetaData <==> set.spec_has_meta() && set.spec_has_data(),
        set.spec_meta() is Some <==> set.spec_has_meta(),
        set.spec_data() is Some <==> set.spec_has_data(),
{
}

} // verus!
