//! The link registry connecting a state machine reaction to its companion
//! source.
//!
//! The source publishes a fresh sender under its id each time it starts and
//! takes it away when it stops; the reaction looks the sender up by the source
//! id each time it has a state transition to push, so the link stays right
//! across source restarts.

use vstd::prelude::*;

use crate::keyed::KeyedStore;

verus! {

/// Capacity of the channel from a reaction to its source.
pub const CHANNEL_CAPACITY: usize = 1024;

/// The senders published by started sources, by source id.
pub struct SenderRegistry<T> {
    senders: KeyedStore<T>,
}

impl<T> View for SenderRegistry<T> {
    type V = Map<Seq<char>, T>;

    closed spec fn view(&self) -> Map<Seq<char>, T> {
        self.senders@
    }
}

impl<T> SenderRegistry<T> {
    /// A registry with no source registered.
    pub fn new() -> (r: Self)
        ensures
            r@ == Map::<Seq<char>, T>::empty(),
    {
        SenderRegistry { senders: KeyedStore::new() }
    }
}

/// Publish `sender` for `source_id`, replacing any sender published before
/// for the same id (a restart).
pub fn register_source<T>(registry: &mut SenderRegistry<T>, source_id: &str, sender: T)
    ensures
        final(registry)@ == old(registry)@.insert(source_id@, sender),
{
    registry.senders.insert(source_id.to_owned(), sender);
}

/// Take away the sender published for `source_id` (the source stopped).
pub fn unregister_source<T>(registry: &mut SenderRegistry<T>, source_id: &str)
    ensures
        final(registry)@ == old(registry)@.remove(source_id@),
{
    let _ = registry.senders.remove(source_id);
}

/// The sender currently published for `source_id`, if its source is started.
pub fn current_sender<'a, T>(registry: &'a SenderRegistry<T>, source_id: &str) -> (r: Option<&'a T>)
    ensures
        match r {
            Some(s) => registry@.contains_key(source_id@) && *s == registry@[source_id@],
            None => !registry@.contains_key(source_id@),
        },
{
    registry.senders.get(source_id)
}

} // verus!
