//! Group riding: the membership rules of groups, and the registry of the
//! per-group broadcast channels that carry live locations to members.
use vstd::prelude::*;
use crate::errors::AppError;
use crate::ids::UserId;
use crate::models::Group;
use crate::text::str_equal;
use tokio::sync::broadcast::{Receiver, Sender};

verus! {

/// Capacity of each group broadcast channel.
pub const CHANNEL_CAPACITY: usize = 64;

/// The message a member leaving as owner is refused with.
pub open spec fn spec_owner_cannot_leave() -> Seq<char> {
    "Group owner cannot leave. Delete the group instead."@
}

/// Checks an invite code offered to join a group: a code, when given, must
/// be the group's.
pub fn check_invite_code(group: &Group, invite_code: &Option<String>) -> (r: Result<(), AppError>)
    ensures
        r is Ok <==> (invite_code matches Some(c) ==> c@ == group.invite_code@),
        r matches Err(e) ==> e == AppError::Forbidden,
{
    match invite_code {
        Some(code) => {
            if str_equal(code.as_str(), group.invite_code.as_str()) {
                Ok(())
            } else {
                Err(AppError::Forbidden)
            }
        },
        None => Ok(()),
    }
}

/// Refuses to add a user who is already a member.
pub fn check_not_member(is_member: bool) -> (r: Result<(), AppError>)
    ensures
        r is Ok <==> !is_member,
        r matches Err(e) ==> e == AppError::AlreadyMember,
{
    if is_member {
        Err(AppError::AlreadyMember)
    } else {
        Ok(())
    }
}

/// Refuses a request from a user who is not a member.
pub fn check_member(is_member: bool) -> (r: Result<(), AppError>)
    ensures
        r is Ok <==> is_member,
        r matches Err(e) ==> e == AppError::Forbidden,
{
    if !is_member {
        Err(AppError::Forbidden)
    } else {
        Ok(())
    }
}

/// Checks that a user may leave a group: the owner may not.
pub fn check_can_leave(group: &Group, user_id: UserId) -> (r: Result<(), AppError>)
    ensures
        r is Ok <==> group.owner_id != user_id,
        r matches Err(e) ==> e matches AppError::Validation(m) && m@ == spec_owner_cannot_leave(),
{
    if group.owner_id == user_id {
        Err(AppError::Validation(String::from_str("Group owner cannot leave. Delete the group instead.")))
    } else {
        Ok(())
    }
}

#[verifier::external_type_specification]
#[verifier::external_body]
#[verifier::reject_recursive_types(T)]
pub struct ExBroadcastSender<T>(Sender<T>);

#[verifier::external_type_specification]
#[verifier::external_body]
#[verifier::reject_recursive_types(T)]
pub struct ExBroadcastReceiver<T>(Receiver<T>);

/// A new broadcast channel holding up to `capacity` messages
/// (`tokio::sync::broadcast::channel`, which panics on a capacity of zero
/// or above `usize::MAX / 2`).
#[verifier::external_body]
fn open_channel(capacity: usize) -> (pair: (Sender<String>, Receiver<String>))
    requires
        0 < capacity <= usize::MAX / 2,
{
    tokio::sync::broadcast::channel(capacity)
}

/// A new receiver of the sender's channel (`Sender::subscribe`).
#[verifier::external_body]
fn subscribe_channel(tx: &Sender<String>) -> (rx: Receiver<String>) {
    tx.subscribe()
}

/// Another sender of the same channel (`Sender::clone`).
#[verifier::external_body]
fn clone_sender(tx: &Sender<String>) -> (tx2: Sender<String>) {
    tx.clone()
}

/// Sends a message to every current receiver of the channel
/// (`Sender::send`): the number of receivers reached, zero when there is
/// none. The count depends on receivers held elsewhere: nothing is stated.
#[verifier::external_body]
fn send_channel(tx: &Sender<String>, msg: String) -> (n: usize) {
    tx.send(msg).unwrap_or(0)
}

/// The number of live receivers of the channel (`Sender::receiver_count`);
/// it depends on receivers held elsewhere: nothing is stated.
#[verifier::external_body]
fn channel_receiver_count(tx: &Sender<String>) -> (n: usize) {
    tx.receiver_count()
}

/// Registry of all active group channels, keyed by group id text.
///
/// Each group gets its own broadcast channel; a channel is created on the
/// first subscription or sender request for its group, and removed when no
/// receiver remains.
pub struct GroupChannelRegistry {
    channels: Vec<(String, Sender<String>)>,
}

/// No key occurs twice.
pub open spec fn keys_distinct(keys: Seq<Seq<char>>) -> bool {
    forall|i: int, j: int| 0 <= i < keys.len() && 0 <= j < keys.len() && i != j ==> keys[i] != keys[j]
}

/// The sender paired with key `g`, when `g` is one of the keys.
pub open spec fn lookup(keys: Seq<Seq<char>>, senders: Seq<Sender<String>>, g: Seq<char>) -> Option<Sender<String>> {
    if keys.contains(g) {
        Some(senders[choose|i: int| 0 <= i < keys.len() && keys[i] == g])
    } else {
        None
    }
}

/// With distinct keys, the sender paired with the key at position `i` is
/// the sender at position `i`.
pub proof fn lemma_lookup_at(keys: Seq<Seq<char>>, senders: Seq<Sender<String>>, i: int)
    requires
        keys_distinct(keys),
        0 <= i < keys.len(),
    ensures
        lookup(keys, senders, keys[i]) == Some(senders[i]),
{
    assert(keys.contains(keys[i]));
    let j = choose|j: int| 0 <= j < keys.len() && keys[j] == keys[i];
    assert(j == i);
}

/// Removing the entry at position `i` keeps every other key's sender and
/// leaves the removed key without one.
proof fn lemma_lookup_remove(keys: Seq<Seq<char>>, senders: Seq<Sender<String>>, i: int, h: Seq<char>)
    requires
        keys_distinct(keys),
        senders.len() == keys.len(),
        0 <= i < keys.len(),
    ensures
        h != keys[i] ==> lookup(keys.remove(i), senders.remove(i), h) == lookup(keys, senders, h),
        lookup(keys.remove(i), senders.remove(i), keys[i]) is None,
{
    let nk = keys.remove(i);
    let ns = senders.remove(i);
    assert(keys_distinct(nk));
    assert(!nk.contains(keys[i])) by {
        if nk.contains(keys[i]) {
            let j = choose|j: int| 0 <= j < nk.len() && nk[j] == keys[i];
            if j < i {
                assert(keys[j] == keys[i]);
            } else {
                assert(keys[j + 1] == keys[i]);
            }
        }
    }
    if h != keys[i] {
        if keys.contains(h) {
            let j = choose|j: int| 0 <= j < keys.len() && keys[j] == h;
            lemma_lookup_at(keys, senders, j);
            let j2 = if j < i { j } else { j - 1 };
            assert(nk[j2] == h);
            assert(ns[j2] == senders[j]);
            lemma_lookup_at(nk, ns, j2);
        } else {
            assert(!nk.contains(h)) by {
                if nk.contains(h) {
                    let j = choose|j: int| 0 <= j < nk.len() && nk[j] == h;
                    if j < i {
                        assert(keys[j] == h);
                    } else {
                        assert(keys[j + 1] == h);
                    }
                }
            }
        }
    }
}

impl GroupChannelRegistry {
    /// The group ids that have a channel, in creation order.
    pub closed spec fn keys(&self) -> Seq<Seq<char>> {
        self.channels@.map_values(|p: (String, Sender<String>)| p.0@)
    }

    /// The senders of the channels, in the order of `keys`.
    pub closed spec fn senders(&self) -> Seq<Sender<String>> {
        self.channels@.map_values(|p: (String, Sender<String>)| p.1)
    }

    /// The sender of the channel of group `g`, when it has one.
    pub closed spec fn channel_of(&self, g: Seq<char>) -> Option<Sender<String>> {
        lookup(self.keys(), self.senders(), g)
    }

    #[verifier::type_invariant]
    spec fn wf(&self) -> bool {
        keys_distinct(self.keys())
    }

    pub fn new() -> (r: Self)
        ensures
            r.keys() == Seq::<Seq<char>>::empty(),
            forall|g: Seq<char>| #[trigger] r.channel_of(g) is None,
    {
        let r = GroupChannelRegistry { channels: Vec::new() };
        assert(r.keys() =~= Seq::<Seq<char>>::empty());
        r
    }

    /// The position of a group's channel.
    fn find(&self, group_id: &str) -> (r: Option<usize>)
        ensures
            match r {
                Some(i) => i < self.keys().len() && self.keys()[i as int] == group_id@
                    && self.channel_of(group_id@) == Some(self.senders()[i as int])
                    && self.senders().len() == self.keys().len(),
                None => !self.keys().contains(group_id@) && self.channel_of(group_id@) is None,
            },
    {
        proof { use_type_invariant(self); }
        let mut i: usize = 0;
        while i < self.channels.len()
            invariant
                0 <= i <= self.channels@.len(),
                self.keys().len() == self.channels@.len(),
                self.senders().len() == self.channels@.len(),
                keys_distinct(self.keys()),
                forall|j: int| 0 <= j < i ==> self.keys()[j] != group_id@,
            decreases self.channels@.len() - i,
        {
            if str_equal(self.channels[i].0.as_str(), group_id) {
                proof { lemma_lookup_at(self.keys(), self.senders(), i as int); }
                return Some(i);
            }
            i = i + 1;
        }
        None
    }

    /// Whether the group has a channel.
    pub fn contains(&self, group_id: &str) -> (b: bool)
        ensures
            b == self.keys().contains(group_id@),
    {
        self.find(group_id).is_some()
    }

    /// The sender of the group's channel, when it has one.
    pub fn channel_sender(&self, group_id: &str) -> (tx: Option<&Sender<String>>)
        ensures
            match tx {
                Some(t) => self.channel_of(group_id@) == Some(*t),
                None => self.channel_of(group_id@) is None,
            },
            tx is Some <==> self.keys().contains(group_id@),
    {
        match self.find(group_id) {
            Some(i) => Some(&self.channels[i].1),
            None => None,
        }
    }

    /// Adds a channel for a group that has none.
    fn insert_new(&mut self, group_id: &str, tx: Sender<String>)
        requires
            !old(self).keys().contains(group_id@),
        ensures
            final(self).keys() == old(self).keys().push(group_id@),
            final(self).channel_of(group_id@) == Some(tx),
            forall|h: Seq<char>| h != group_id@ ==> #[trigger] final(self).channel_of(h) == old(self).channel_of(h),
    {
        proof { use_type_invariant(&*self); }
        let ghost old_keys = self.keys();
        let ghost old_senders = self.senders();
        let ghost tx_ghost = tx;
        let key = String::from_str(group_id);
        let mut channels = Vec::new();
        std::mem::swap(&mut channels, &mut self.channels);
        channels.push((key, tx));
        assert(channels@.map_values(|p: (String, Sender<String>)| p.0@) =~= old_keys.push(group_id@));
        assert(keys_distinct(old_keys.push(group_id@)));
        let ghost new_senders = channels@.map_values(|p: (String, Sender<String>)| p.1);
        assert(new_senders =~= old_senders.push(tx_ghost));
        proof {
            let nk = old_keys.push(group_id@);
            lemma_lookup_at(nk, new_senders, old_keys.len() as int);
            assert forall|h: Seq<char>| h != group_id@ implies #[trigger] lookup(nk, new_senders, h) == lookup(old_keys, old_senders, h) by {
                if old_keys.contains(h) {
                    let j = choose|j: int| 0 <= j < old_keys.len() && old_keys[j] == h;
                    lemma_lookup_at(old_keys, old_senders, j);
                    lemma_lookup_at(nk, new_senders, j);
                } else {
                    assert(!nk.contains(h)) by {
                        if nk.contains(h) {
                            let j = choose|j: int| 0 <= j < nk.len() && nk[j] == h;
                            assert(old_keys[j] == h);
                        }
                    }
                }
            }
        }
        self.channels = channels;
    }

    /// Subscribes to a group's channel, creating the channel if it does not
    /// yet exist.
    pub fn subscribe(&mut self, group_id: &str) -> (rx: Receiver<String>)
        ensures
            final(self).keys() == if old(self).keys().contains(group_id@) {
                old(self).keys()
            } else {
                old(self).keys().push(group_id@)
            },
            final(self).channel_of(group_id@) is Some,
            old(self).keys().contains(group_id@) ==> final(self).channel_of(group_id@) == old(self).channel_of(group_id@),
            forall|h: Seq<char>| h != group_id@ ==> #[trigger] final(self).channel_of(h) == old(self).channel_of(h),
    {
        match self.find(group_id) {
            Some(i) => subscribe_channel(&self.channels[i].1),
            None => {
                let (tx, rx) = open_channel(CHANNEL_CAPACITY);
                self.insert_new(group_id, tx);
                rx
            },
        }
    }

    /// A sender for the group's channel, creating the channel if needed.
    pub fn sender(&mut self, group_id: &str) -> (tx: Sender<String>)
        ensures
            final(self).keys() == if old(self).keys().contains(group_id@) {
                old(self).keys()
            } else {
                old(self).keys().push(group_id@)
            },
            final(self).channel_of(group_id@) is Some,
            old(self).keys().contains(group_id@) ==> final(self).channel_of(group_id@) == old(self).channel_of(group_id@),
            forall|h: Seq<char>| h != group_id@ ==> #[trigger] final(self).channel_of(h) == old(self).channel_of(h),
    {
        match self.find(group_id) {
            Some(i) => clone_sender(&self.channels[i].1),
            None => {
                let (tx, _rx) = open_channel(CHANNEL_CAPACITY);
                let tx2 = clone_sender(&tx);
                self.insert_new(group_id, tx);
                tx2
            },
        }
    }

    /// Broadcasts an already serialised message to all subscribers of a
    /// group. Returns the number of receivers that got it: zero when the
    /// group has no channel.
    pub fn broadcast(&self, group_id: &str, json: String) -> (n: usize)
        ensures
            !self.keys().contains(group_id@) ==> n == 0,
    {
        match self.channel_sender(group_id) {
            Some(tx) => send_channel(tx, json),
            None => 0,
        }
    }

    /// The number of live receivers of the group's channel, `None` when the
    /// group has no channel. The count depends on receivers held elsewhere.
    pub fn receiver_count(&self, group_id: &str) -> (n: Option<usize>)
        ensures
            n is None <==> !self.keys().contains(group_id@),
    {
        match self.channel_sender(group_id) {
            Some(tx) => Some(channel_receiver_count(tx)),
            None => None,
        }
    }

    /// Drops the group's channel when `receivers`, the number of its live
    /// receivers, is zero. Other groups' channels are kept, in order.
    pub fn drop_if_unused(&mut self, group_id: &str, receivers: usize)
        ensures
            final(self).keys() == if receivers == 0 {
                old(self).keys().filter(|k: Seq<char>| k != group_id@)
            } else {
                old(self).keys()
            },
            receivers == 0 ==> final(self).channel_of(group_id@) is None,
            receivers != 0 ==> final(self).channel_of(group_id@) == old(self).channel_of(group_id@),
            forall|h: Seq<char>| h != group_id@ ==> #[trigger] final(self).channel_of(h) == old(self).channel_of(h),
    {
        proof { use_type_invariant(&*self); }
        if receivers != 0 {
            return;
        }
        match self.find(group_id) {
            None => {
                proof {
                    let keys = self.keys();
                    assert forall|j: int| 0 <= j < keys.len() implies (|k: Seq<char>| k != group_id@)(#[trigger] keys[j]) by {
                        if keys[j] == group_id@ {
                            assert(keys.contains(group_id@));
                        }
                    }
                    lemma_filter_all(keys, |k: Seq<char>| k != group_id@);
                }
            },
            Some(i) => {
                let ghost old_keys = self.keys();
                let ghost old_senders = self.senders();
                let mut channels = Vec::new();
                std::mem::swap(&mut channels, &mut self.channels);
                let _removed = channels.remove(i);
                proof {
                    let new_keys = channels@.map_values(|p: (String, Sender<String>)| p.0@);
                    let new_senders = channels@.map_values(|p: (String, Sender<String>)| p.1);
                    assert(new_keys =~= old_keys.remove(i as int));
                    assert(new_senders =~= old_senders.remove(i as int));
                    assert forall|h: Seq<char>| h != group_id@ implies #[trigger] lookup(new_keys, new_senders, h) == lookup(old_keys, old_senders, h) by {
                        lemma_lookup_remove(old_keys, old_senders, i as int, h);
                    }
                    lemma_lookup_remove(old_keys, old_senders, i as int, group_id@);
                    lemma_remove_distinct_is_filter(old_keys, i as int);
                    assert(keys_distinct(old_keys.remove(i as int)));
                }
                self.channels = channels;
            },
        }
    }

    /// Removes a group's channel when no receiver remains: the channel is
    /// dropped exactly when its receiver count, read now, is zero.
    pub fn remove_if_empty(&mut self, group_id: &str)
        ensures
            !old(self).keys().contains(group_id@) ==> final(self).keys() == old(self).keys(),
            final(self).keys() == old(self).keys()
                || final(self).keys() == old(self).keys().filter(|k: Seq<char>| k != group_id@),
            final(self).channel_of(group_id@) is None
                || final(self).channel_of(group_id@) == old(self).channel_of(group_id@),
            forall|h: Seq<char>| h != group_id@ ==> #[trigger] final(self).channel_of(h) == old(self).channel_of(h),
    {
        match self.receiver_count(group_id) {
            None => {},
            Some(n) => self.drop_if_unused(group_id, n),
        }
    }
}

/// Removing the position of a key that occurs once is filtering it out.
proof fn lemma_remove_distinct_is_filter(keys: Seq<Seq<char>>, i: int)
    requires
        keys_distinct(keys),
        0 <= i < keys.len(),
    ensures
        keys.remove(i) == keys.filter(|k: Seq<char>| k != keys[i]),
    decreases keys.len(),
{
    let f = |k: Seq<char>| k != keys[i];
    reveal_with_fuel(Seq::<_>::filter, 1);
    if i == keys.len() - 1 {
        assert(keys.drop_last() =~= keys.remove(i));
        lemma_filter_all(keys.drop_last(), f);
    } else {
        let last = keys.last();
        assert(keys.drop_last().remove(i) =~= keys.remove(i).drop_last());
        assert(keys_distinct(keys.drop_last()));
        lemma_remove_distinct_is_filter(keys.drop_last(), i);
        assert(keys.remove(i) =~= keys.drop_last().remove(i).push(last));
    }
}

proof fn lemma_filter_all(s: Seq<Seq<char>>, f: spec_fn(Seq<char>) -> bool)
    requires
        forall|j: int| 0 <= j < s.len() ==> f(#[trigger] s[j]),
    ensures
        s.filter(f) == s,
    decreases s.len(),
{
    reveal_with_fuel(Seq::<_>::filter, 1);
    if s.len() > 0 {
        lemma_filter_all(s.drop_last(), f);
        assert(s.drop_last().push(s.last()) =~= s);
    }
}

} // verus!
