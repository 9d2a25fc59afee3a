use vstd::prelude::*;

verus! {

/// Draws a value from rand's thread-local generator; nothing is known of it.
pub assume_specification<T>[ rand::random::<T> ]() -> (r: T)
    where
        rand::distributions::Standard: rand::distributions::Distribution<T>,
;

/// The identity of an identifier: primary id, channel id, synthetic flag.
pub type TurnKey = (u64, u64, bool);

/// Where a turn lives on the chat platform. Identity is the primary id, the
/// channel id and the synthetic flag; the list of page ids is payload.
#[derive(Debug)]
pub struct MessageIdentifier {
    pub message_id: u64,
    pub channel_id: u64,
    pub random: bool,
    pub message_ids: Vec<u64>,
}

pub ghost struct IdentifierView {
    pub key: TurnKey,
    pub pages: Seq<u64>,
}

impl View for MessageIdentifier {
    type V = IdentifierView;

    open spec fn view(&self) -> IdentifierView {
        IdentifierView {
            key: (self.message_id, self.channel_id, self.random),
            pages: self.message_ids@,
        }
    }
}

impl PartialEq for MessageIdentifier {
    fn eq(&self, other: &MessageIdentifier) -> (r: bool) {
        self.message_id == other.message_id && self.channel_id == other.channel_id
            && self.random == other.random
    }
}

impl vstd::std_specs::cmp::PartialEqSpecImpl for MessageIdentifier {
    open spec fn obeys_eq_spec() -> bool {
        true
    }

    open spec fn eq_spec(&self, other: &MessageIdentifier) -> bool {
        self@.key == other@.key
    }
}

impl MessageIdentifier {
    /// An identifier of a message shown as a single page.
    pub fn new(message_id: u64, channel_id: u64) -> (r: Self)
        ensures
            r@.key == (message_id, channel_id, false),
            r@.pages == seq![message_id],
    {
        MessageIdentifier { message_id, channel_id, random: false, message_ids: vec![message_id] }
    }

    /// An identifier of a reply split over `pages`, the last of which is
    /// `message_id`.
    pub fn with_pages(message_id: u64, channel_id: u64, pages: Vec<u64>) -> (r: Self)
        ensures
            r@.key == (message_id, channel_id, false),
            r@.pages == pages@,
    {
        MessageIdentifier { message_id, channel_id, random: false, message_ids: pages }
    }

    /// A synthetic identifier, for a turn with no message on the platform.
    pub fn random() -> (r: Self)
        ensures
            r@.key.2,
            r@.pages == seq![r@.key.0],
    {
        let message_id: u64 = rand::random();
        let channel_id: u64 = rand::random();
        MessageIdentifier { message_id, channel_id, random: true, message_ids: vec![message_id] }
    }

    /// The identifier of `ids`, or a synthetic one when there is none.
    pub fn from_ids(ids: Option<(u64, u64)>) -> (r: Self)
        ensures
            match ids {
                Some((m, c)) => r@.key == (m, c, false) && r@.pages == seq![m],
                None => r@.key.2 && r@.pages == seq![r@.key.0],
            },
    {
        match ids {
            Some((m, c)) => MessageIdentifier::new(m, c),
            None => MessageIdentifier::random(),
        }
    }

    pub fn key(&self) -> (r: TurnKey)
        ensures
            r == self@.key,
    {
        (self.message_id, self.channel_id, self.random)
    }

    pub fn channel(&self) -> (r: u64)
        ensures
            r == self.channel_id,
    {
        self.channel_id
    }

    pub fn message(&self) -> (r: u64)
        ensures
            r == self.message_id,
    {
        self.message_id
    }

    /// Every platform message that shows this turn, in order.
    pub fn messages(&self) -> (r: Vec<u64>)
        ensures
            r@ == self@.pages,
    {
        let mut r: Vec<u64> = Vec::new();
        let mut i: usize = 0;
        while i < self.message_ids.len()
            invariant
                i <= self.message_ids@.len(),
                r@ == self.message_ids@.take(i as int),
            decreases self.message_ids@.len() - i,
        {
            r.push(self.message_ids[i]);
            i = i + 1;
            assert(self.message_ids@.take(i as int) == self.message_ids@.take(i - 1).push(
                self.message_ids@[i - 1],
            ));
        }
        assert(self.message_ids@.take(i as int) == self.message_ids@);
        r
    }

    /// A copy with the same view.
    pub fn duplicate(&self) -> (r: Self)
        ensures
            r@ == self@,
    {
        MessageIdentifier {
            message_id: self.message_id,
            channel_id: self.channel_id,
            random: self.random,
            message_ids: self.messages(),
        }
    }
}

} // verus!
