//! A guest book: anyone may post a message, and a message that comes with a
//! deposit of a tenth of a NEAR or more is marked premium.

use vstd::prelude::*;
use crate::account::Account;

verus! {

/// How many yoctoNEAR make one milliNEAR.
pub open spec fn yocto_per_millinear() -> nat {
    1_000_000_000_000_000_000_000
}

/// The deposit, in milliNEAR, from which a message is premium.
pub const PREMIUM_MILLINEAR: u128 = 100;

/// The deposit, in yoctoNEAR, from which a message is premium.
pub open spec fn premium_threshold() -> nat {
    PREMIUM_MILLINEAR as nat * yocto_per_millinear()
}

/// How many messages are shown where the reader names no limit.
pub const DEFAULT_LIMIT: u64 = 10;

/// `near_sdk::NearToken::from_millinear` followed by `as_yoctonear`: the
/// amount of `millinear` thousandths of a NEAR in yoctoNEAR, which is
/// `millinear` times ten to the power of 21. The product has to fit in
/// `u128`: the outside function does not check it.
#[verifier::external_body]
fn millinear_in_yocto(millinear: u128) -> (yocto: u128)
    requires
        millinear * yocto_per_millinear() <= u128::MAX,
    ensures
        yocto == millinear * yocto_per_millinear(),
{
    near_sdk::NearToken::from_millinear(millinear).as_yoctonear()
}

/// A message in the book.
pub struct PostedMessage {
    pub premium: bool,
    pub sender: Account,
    pub text: String,
}

/// A message as a mathematical value.
pub struct MessageView {
    pub premium: bool,
    pub sender: Seq<char>,
    pub text: Seq<char>,
}

impl View for PostedMessage {
    type V = MessageView;

    open spec fn view(&self) -> MessageView {
        MessageView { premium: self.premium, sender: self.sender@, text: self.text@ }
    }
}

/// The stretch of `all` that starts after the first `from` items and holds
/// `limit` items, or as many as are left.
pub open spec fn page<T>(all: Seq<T>, from: nat, limit: nat) -> Seq<T> {
    if from >= all.len() {
        Seq::empty()
    } else if from + limit >= all.len() {
        all.subrange(from as int, all.len() as int)
    } else {
        all.subrange(from as int, (from + limit) as int)
    }
}

/// The messages that a list holds.
pub open spec fn messages_of(messages: Seq<PostedMessage>) -> Seq<MessageView> {
    Seq::new(messages.len(), |i: int| messages[i]@)
}

/// The messages that a list of references points to.
pub open spec fn views_of(messages: Seq<&PostedMessage>) -> Seq<MessageView> {
    Seq::new(messages.len(), |i: int| messages[i]@)
}

/// The guest book: the messages in the order in which they were posted.
pub struct Contract {
    messages: Vec<PostedMessage>,
}

impl View for Contract {
    type V = Seq<MessageView>;

    closed spec fn view(&self) -> Seq<MessageView> {
        messages_of(self.messages@)
    }
}

impl Contract {
    /// The book holds no more messages than a `u32` can count.
    pub open spec fn wf(&self) -> bool {
        self@.len() <= u32::MAX
    }

    /// An empty book.
    pub fn new() -> (book: Self)
        ensures
            book.wf(),
            book@ == Seq::<MessageView>::empty(),
    {
        let book = Contract { messages: Vec::new() };
        assert(book@ =~= Seq::<MessageView>::empty());
        book
    }

    /// The book that holds `messages`, in their order, or `None` where there
    /// are more of them than a `u32` can count.
    pub fn from_messages(messages: Vec<PostedMessage>) -> (book: Option<Self>)
        ensures
            match book {
                Some(book) => book.wf() && book@ == messages_of(messages@),
                None => messages@.len() > u32::MAX,
            },
    {
        if messages.len() > u32::MAX as usize {
            return None;
        }
        Some(Contract { messages })
    }

    /// Takes the book apart into its messages, in the order of posting.
    pub fn into_messages(self) -> (messages: Vec<PostedMessage>)
        ensures
            messages_of(messages@) == self@,
    {
        self.messages
    }

    /// Appends the message `text` of `sender`. It is premium exactly when
    /// `deposit`, the yoctoNEAR that came with the call, reaches the
    /// threshold.
    pub fn add_message(&mut self, sender: Account, deposit: u128, text: String)
        requires
            old(self).wf(),
            old(self)@.len() < u32::MAX,
        ensures
            final(self).wf(),
            final(self)@ == old(self)@.push(
                MessageView {
                    premium: deposit >= premium_threshold(),
                    sender: sender@,
                    text: text@,
                },
            ),
    {
        let premium = deposit >= millinear_in_yocto(PREMIUM_MILLINEAR);
        let message = PostedMessage { premium, sender, text };
        self.messages.push(message);
        assert(self@ =~= old(self)@.push(message@));
    }

    /// The messages from position `from_index` on, at most `limit` of them,
    /// in the order of posting. Without `from_index` the page starts at the
    /// first message; without `limit` it holds up to ten.
    pub fn get_messages(&self, from_index: Option<u64>, limit: Option<u64>) -> (shown: Vec<
        &PostedMessage,
    >)
        ensures
            views_of(shown@) == page(
                self@,
                match from_index {
                    Some(from) => from as nat,
                    None => 0,
                },
                match limit {
                    Some(limit) => limit as nat,
                    None => DEFAULT_LIMIT as nat,
                },
            ),
    {
        let from: u64 = match from_index {
            Some(from) => from,
            None => 0,
        };
        let limit: u64 = match limit {
            Some(limit) => limit,
            None => DEFAULT_LIMIT,
        };
        let len: usize = self.messages.len();
        let mut shown: Vec<&PostedMessage> = Vec::new();
        if from >= len as u64 {
            assert(views_of(shown@) =~= page(self@, from as nat, limit as nat));
            return shown;
        }
        let start: usize = from as usize;
        let end: usize = if limit >= (len - start) as u64 {
            len
        } else {
            start + limit as usize
        };
        let mut i: usize = start;
        while i < end
            invariant
                start <= i <= end <= len,
                len == self.messages@.len(),
                shown@.len() == i - start,
                forall|k: int| 0 <= k < shown@.len() ==> shown@[k]@ == self@[start + k],
            decreases end - i,
        {
            shown.push(&self.messages[i]);
            i = i + 1;
        }
        assert(views_of(shown@) =~= page(self@, from as nat, limit as nat));
        shown
    }

    /// The number of messages in the book.
    pub fn total_messages(&self) -> (n: u32)
        requires
            self.wf(),
        ensures
            n == self@.len(),
    {
        self.messages.len() as u32
    }
}

impl Default for Contract {
    /// An empty book.
    fn default() -> (book: Self)
        ensures
            book.wf(),
            book@ == Seq::<MessageView>::empty(),
    {
        Contract::new()
    }
}

} // verus!
