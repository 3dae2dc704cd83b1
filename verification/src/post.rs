//! Posts as they are shown, and the client's store of the posts it holds.
//!
//! The store keeps one post per identifier, in the order in which the
//! identifiers first came in. It is an `IndexMap`, keyed by the
//! identifier's number.

use indexmap::IndexMap;
use vstd::prelude::*;
use vstd::std_specs::iter::IteratorSpec;

use crate::ids::PostId;
use crate::text::{Headline, Message};
use crate::time::Timestamp;
use crate::user::PublicUserProfile;

verus! {

/// A post, as it is shown.
#[derive(Debug)]
pub struct PublicPost {
    pub id: PostId,
    pub by_user: PublicUserProfile,
    pub headline: Option<Headline>,
    pub message: Message,
    pub time_posted: Timestamp,
}

impl Clone for PublicPost {
    fn clone(&self) -> (res: Self)
        ensures
            res == *self,
    {
        PublicPost {
            id: self.id,
            by_user: self.by_user.clone(),
            headline: match &self.headline {
                Some(headline) => Some(headline.clone()),
                None => None,
            },
            message: self.message.clone(),
            time_posted: self.time_posted,
        }
    }
}

/// A map that keeps its entries in the order in which their keys came in.
#[verifier::external_type_specification]
#[verifier::external_body]
#[verifier::reject_recursive_types(K)]
#[verifier::reject_recursive_types(V)]
#[verifier::reject_recursive_types(S)]
pub struct ExIndexMap<K, V, S>(IndexMap<K, V, S>);

/// The entries of a map of posts, in the map's order.
pub uninterp spec fn entries_of(map: IndexMap<u128, PublicPost>) -> Seq<(u128, PublicPost)>;

/// Whether `key` is the key of the entry at `index`.
pub open spec fn key_at(entries: Seq<(u128, PublicPost)>, key: u128, index: int) -> bool {
    0 <= index < entries.len() && entries[index].0 == key
}

/// Whether some entry has the key `key`.
pub open spec fn has_key(entries: Seq<(u128, PublicPost)>, key: u128) -> bool {
    exists|index: int| key_at(entries, key, index)
}

/// Whether no two entries share a key.
pub open spec fn keys_distinct(entries: Seq<(u128, PublicPost)>) -> bool {
    forall|i: int, j: int|
        0 <= i < entries.len() && 0 <= j < entries.len() && i != j ==> entries[i].0
            != entries[j].0
}

/// The index of an entry with the key `key`, where there is one.
pub open spec fn position(entries: Seq<(u128, PublicPost)>, key: u128) -> int {
    choose|index: int| key_at(entries, key, index)
}

/// The entries after `value` is stored under `key`: in the place of the
/// entry that had the key, or else at the end.
pub open spec fn inserted(
    entries: Seq<(u128, PublicPost)>,
    key: u128,
    value: PublicPost,
) -> Seq<(u128, PublicPost)> {
    if has_key(entries, key) {
        entries.update(position(entries, key), (key, value))
    } else {
        entries.push((key, value))
    }
}

/// The entries after the entry at `index` is taken out: the last entry
/// moves into its place.
pub open spec fn swap_removed(entries: Seq<(u128, PublicPost)>, index: int) -> Seq<
    (u128, PublicPost),
> {
    entries.update(index, entries.last()).drop_last()
}

/// The entries after the entry with the key `key`, if any, is taken out.
pub open spec fn removed(entries: Seq<(u128, PublicPost)>, key: u128) -> Seq<(u128, PublicPost)> {
    if has_key(entries, key) {
        swap_removed(entries, position(entries, key))
    } else {
        entries
    }
}

/// The entries of a store that was filled with `posts`, one after the
/// other.
pub open spec fn populated(posts: Seq<PublicPost>) -> Seq<(u128, PublicPost)>
    decreases posts.len(),
{
    if posts.len() == 0 {
        Seq::empty()
    } else {
        inserted(populated(posts.drop_last()), posts.last().id.0, posts.last())
    }
}

/// `IndexMap::new`: a map without entries.
#[verifier::external_body]
fn index_map_new() -> (res: IndexMap<u128, PublicPost>)
    ensures
        entries_of(res) == Seq::<(u128, PublicPost)>::empty(),
{
    IndexMap::new()
}

/// `IndexMap::clear`: all entries leave.
#[verifier::external_body]
fn index_map_clear(map: &mut IndexMap<u128, PublicPost>)
    ensures
        entries_of(*final(map)) == Seq::<(u128, PublicPost)>::empty(),
{
    map.clear()
}

/// `IndexMap::insert`: where the key is present its entry keeps its place
/// and gets the new value, and the old value is returned; where it is not,
/// the entry is added last.
#[verifier::external_body]
fn index_map_insert(map: &mut IndexMap<u128, PublicPost>, key: u128, value: PublicPost) -> (res:
    Option<PublicPost>)
    ensures
        match res {
            Some(previous) => exists|index: int| #[trigger]
                key_at(entries_of(*old(map)), key, index) && entries_of(*old(map))[index].1
                    == previous && entries_of(*final(map)) == entries_of(*old(map)).update(
                    index,
                    (key, value),
                ),
            None => !has_key(entries_of(*old(map)), key) && entries_of(*final(map))
                == entries_of(*old(map)).push((key, value)),
        },
{
    map.insert(key, value)
}

/// `IndexMap::get`: the value of the entry with the key, if there is one.
#[verifier::external_body]
fn index_map_get(map: &IndexMap<u128, PublicPost>, key: u128) -> (res: Option<&PublicPost>)
    ensures
        match res {
            Some(value) => exists|index: int| #[trigger]
                key_at(entries_of(*map), key, index) && entries_of(*map)[index].1 == *value,
            None => !has_key(entries_of(*map), key),
        },
{
    map.get(&key)
}

/// `IndexMap::get_mut`: the value of the entry with the key, if there is
/// one, to be changed in place.
#[verifier::external_body]
fn index_map_get_mut(map: &mut IndexMap<u128, PublicPost>, key: u128) -> (res: Option<
    &mut PublicPost,
>)
    ensures
        match res {
            Some(slot) => exists|index: int| #[trigger]
                key_at(entries_of(*old(map)), key, index) && entries_of(*old(map))[index].1
                    == *slot && entries_of(*final(map)) == entries_of(*old(map)).update(
                    index,
                    (key, *final(slot)),
                ),
            None => !has_key(entries_of(*old(map)), key) && entries_of(*final(map))
                == entries_of(*old(map)),
        },
{
    map.get_mut(&key)
}

/// `IndexMap::remove`, which is `swap_remove`: the entry with the key
/// leaves, the last entry takes its place, and its value is returned.
#[verifier::external_body]
fn index_map_remove(map: &mut IndexMap<u128, PublicPost>, key: u128) -> (res: Option<PublicPost>)
    ensures
        match res {
            Some(value) => exists|index: int| #[trigger]
                key_at(entries_of(*old(map)), key, index) && entries_of(*old(map))[index].1
                    == value && entries_of(*final(map)) == swap_removed(
                    entries_of(*old(map)),
                    index,
                ),
            None => !has_key(entries_of(*old(map)), key) && entries_of(*final(map))
                == entries_of(*old(map)),
        },
{
    map.remove(&key)
}

/// Where no two entries share a key, the entry with a key is the one at
/// the key's position.
pub proof fn lemma_position_is_unique(entries: Seq<(u128, PublicPost)>, key: u128, index: int)
    requires
        keys_distinct(entries),
        key_at(entries, key, index),
    ensures
        has_key(entries, key),
        position(entries, key) == index,
{
    let chosen = position(entries, key);
    assert(key_at(entries, key, chosen));
}

/// Storing a post keeps the keys distinct.
pub proof fn lemma_inserted_keeps_keys_distinct(
    entries: Seq<(u128, PublicPost)>,
    key: u128,
    value: PublicPost,
)
    requires
        keys_distinct(entries),
    ensures
        keys_distinct(inserted(entries, key, value)),
        has_key(inserted(entries, key, value), key),
{
    let after = inserted(entries, key, value);
    if has_key(entries, key) {
        let at = position(entries, key);
        assert(key_at(entries, key, at));
        assert(key_at(after, key, at));
        assert forall|i: int, j: int|
            0 <= i < after.len() && 0 <= j < after.len() && i != j implies after[i].0
            != after[j].0 by {
            assert(after[i].0 == entries[i].0);
            assert(after[j].0 == entries[j].0);
        }
    } else {
        assert(key_at(after, key, entries.len() as int));
        assert forall|i: int, j: int|
            0 <= i < after.len() && 0 <= j < after.len() && i != j implies after[i].0
            != after[j].0 by {
            if i < entries.len() {
                assert(!key_at(entries, key, i));
            }
            if j < entries.len() {
                assert(!key_at(entries, key, j));
            }
        }
    }
}

/// The client's store of posts.
pub struct PostManager {
    pub posts: IndexMap<u128, PublicPost>,
}

impl PostManager {
    /// The entries of the store, in order: each post under its
    /// identifier's number.
    pub open spec fn entries(&self) -> Seq<(u128, PublicPost)> {
        entries_of(self.posts)
    }

    /// Changes the post `id` in place with `update_fn`, and says whether
    /// the store holds such a post. All other posts, and the order, stay.
    pub fn update<F>(&mut self, id: PostId, mut update_fn: F) -> (res: bool) where
        F: FnMut(&mut PublicPost),

        requires
            forall|post: &mut PublicPost| call_requires(update_fn, (post,)),
        ensures
            res == has_key(old(self).entries(), id.0),
            !res ==> final(self).entries() == old(self).entries(),
            res ==> exists|index: int, slot: &mut PublicPost|
                #![trigger key_at(old(self).entries(), id.0, index), call_ensures(update_fn, (slot,), ())]
                key_at(old(self).entries(), id.0, index) && *slot == old(self).entries()[index].1
                    && call_ensures(update_fn, (slot,), ()) && final(self).entries() == old(
                    self,
                ).entries().update(index, (id.0, *final(slot))),
    {
        if let Some(post) = index_map_get_mut(&mut self.posts, id.0) {
            update_fn(post);
            true
        } else {
            false
        }
    }

    /// Replaces what the store holds by `posts`: each is stored under its
    /// own identifier, a later post taking the place of an earlier one
    /// with the same identifier.
    pub fn populate<T>(&mut self, posts: T) where T: Iterator<Item = PublicPost>
        requires
            posts.obeys_prophetic_iter_laws(),
            posts.initial_value_relation(&posts),
            posts.decrease() is Some,
        ensures
            final(self).entries() == populated(posts.remaining()),
            keys_distinct(final(self).entries()),
    {
        index_map_clear(&mut self.posts);
        let ghost mut stored: Seq<PublicPost> = Seq::empty();
        for post in iter: posts
            invariant
                iter.iter.obeys_prophetic_iter_laws(),
                iter.seq() == posts.remaining(),
                stored.len() == iter.index(),
                forall|i: int| 0 <= i < stored.len() ==> stored[i] == iter.seq()[i],
                entries_of(self.posts) == populated(stored),
                keys_distinct(entries_of(self.posts)),
        {
            let ghost before = entries_of(self.posts);
            let key = post.id.0;
            let replaced = index_map_insert(&mut self.posts, key, post);
            proof {
                lemma_inserted_keeps_keys_distinct(before, key, post);
                if let Some(previous) = replaced {
                    let at = choose|index: int| #[trigger]
                        key_at(before, key, index) && before[index].1 == previous
                            && entries_of(self.posts) == before.update(index, (key, post));
                    lemma_position_is_unique(before, key, at);
                }
                assert(stored.push(post).drop_last() == stored);
                stored = stored.push(post);
            }
        }
        assert(stored == posts.remaining());
    }

    /// Empties the store.
    pub fn clear(&mut self)
        ensures
            final(self).entries() == Seq::<(u128, PublicPost)>::empty(),
    {
        index_map_clear(&mut self.posts);
    }

    /// The post `post_id`, if the store holds it.
    pub fn get(&self, post_id: &PostId) -> (res: Option<&PublicPost>)
        ensures
            res is Some == has_key(self.entries(), post_id.0),
            res matches Some(post) ==> exists|index: int| #[trigger]
                key_at(self.entries(), post_id.0, index) && self.entries()[index].1 == *post,
    {
        index_map_get(&self.posts, post_id.0)
    }

    /// Takes the post `post_id` out of the store, if it is there. The last
    /// post moves into its place.
    pub fn remove(&mut self, post_id: &PostId)
        ensures
            !has_key(old(self).entries(), post_id.0) ==> final(self).entries() == old(
                self,
            ).entries(),
            has_key(old(self).entries(), post_id.0) ==> exists|index: int| #[trigger]
                key_at(old(self).entries(), post_id.0, index) && final(self).entries()
                    == swap_removed(old(self).entries(), index),
    {
        let _ = index_map_remove(&mut self.posts, post_id.0);
    }
}

impl Default for PostManager {
    fn default() -> (res: PostManager)
        ensures
            res.entries() == Seq::<(u128, PublicPost)>::empty(),
    {
        PostManager { posts: index_map_new() }
    }
}

/// What `chrono` writes for the instant `secs`, `nanos` in UTC under the
/// `strftime` pattern `pattern`: `DateTime::from_timestamp`, then
/// `format`. `None` where the instant is outside chrono's range or the
/// pattern is not one.
pub uninterp spec fn chrono_formatted(secs: i64, nanos: u32, pattern: Seq<char>) -> Option<
    Seq<char>,
>;

/// `DateTime::from_timestamp`, then `DateTime::format` written out with
/// `DelayedFormat::write_to`.
#[verifier::external_body]
fn chrono_format(at: Timestamp, pattern: &str) -> (res: Option<String>)
    ensures
        res is Some <==> chrono_formatted(at.secs, at.nanos, pattern@) is Some,
        res matches Some(text) ==> chrono_formatted(at.secs, at.nanos, pattern@) == Some(text@),
{
    let instant = chrono::DateTime::from_timestamp(at.secs, at.nanos)?;
    let mut text = String::new();
    instant.format(pattern).write_to(&mut text).ok()?;
    Some(text)
}

/// The texts of a post's header.
#[derive(Debug)]
pub struct HeaderText {
    /// The author's display name, or nothing where the author has none.
    pub display_name: String,
    /// The author's handle.
    pub handle: String,
    /// The day the post was made, as year, month and day.
    pub post_date: String,
    /// The time of day the post was made, as hour, minute and second.
    pub post_time: String,
}

/// The display name shown for a profile: its own, or the empty text.
pub open spec fn shown_display_name(profile: PublicUserProfile) -> Seq<char> {
    match profile.display_name {
        Some(name) => name@,
        None => Seq::empty(),
    }
}

/// Whether `header` holds the header texts of `post`.
pub open spec fn is_header_of(post: PublicPost, header: HeaderText) -> bool {
    &&& header.display_name@ == shown_display_name(post.by_user)
    &&& header.handle@ == post.by_user.handle@
    &&& chrono_formatted(post.time_posted.secs, post.time_posted.nanos, "%Y-%m-%d"@) == Some(
        header.post_date@,
    )
    &&& chrono_formatted(post.time_posted.secs, post.time_posted.nanos, "%H:%M:%S"@) == Some(
        header.post_time@,
    )
}

/// Whether the instant can be written as a date and a time of day.
pub open spec fn can_be_shown(at: Timestamp) -> bool {
    chrono_formatted(at.secs, at.nanos, "%Y-%m-%d"@) is Some && chrono_formatted(
        at.secs,
        at.nanos,
        "%H:%M:%S"@,
    ) is Some
}

/// The texts of the header of `post`: the author's display name, empty
/// where there is none, the author's handle, and the date and the time of
/// day of the post in UTC. `None` where the post's instant is one that the
/// calendar cannot show.
pub fn header_text(post: &PublicPost) -> (res: Option<HeaderText>)
    ensures
        res is Some <==> can_be_shown(post.time_posted),
        res matches Some(header) ==> is_header_of(*post, header),
{
    let display_name = match &post.by_user.display_name {
        Some(name) => name.as_ref().to_owned(),
        None => String::new(),
    };
    let handle = post.by_user.handle.clone();
    match chrono_format(post.time_posted, "%Y-%m-%d") {
        Some(post_date) => match chrono_format(post.time_posted, "%H:%M:%S") {
            Some(post_time) => Some(HeaderText { display_name, handle, post_date, post_time }),
            None => None,
        },
        None => None,
    }
}

/// Whether `posts[index]` is the last of `posts` with the identifier
/// number `key`.
pub open spec fn is_latest(posts: Seq<PublicPost>, key: u128, index: int) -> bool {
    &&& 0 <= index < posts.len()
    &&& posts[index].id.0 == key
    &&& forall|later: int| index < later < posts.len() ==> posts[later].id.0 != key
}

/// A store that was filled with `posts` holds one entry per identifier:
/// an identifier is present exactly when one of the posts has it, and
/// what is stored under it is the last of the posts that has it.
pub proof fn lemma_populated_holds_latest(posts: Seq<PublicPost>, key: u128)
    ensures
        keys_distinct(populated(posts)),
        has_key(populated(posts), key) <==> exists|index: int| is_latest(posts, key, index),
        forall|index: int|
            is_latest(posts, key, index) ==> populated(posts)[position(populated(posts), key)]
                == (key, posts[index]),
    decreases posts.len(),
{
    if posts.len() == 0 {
        assert(!has_key(populated(posts), key));
    } else {
        let init = posts.drop_last();
        let last = posts.last();
        let before = populated(init);
        let after = populated(posts);
        lemma_populated_holds_latest(init, key);
        lemma_populated_holds_latest(init, last.id.0);
        lemma_inserted_keeps_keys_distinct(before, last.id.0, last);
        let end = posts.len() - 1;
        let slot = if has_key(before, last.id.0) {
            position(before, last.id.0)
        } else {
            before.len() as int
        };
        if has_key(before, last.id.0) {
            assert(key_at(before, last.id.0, slot));
        }
        assert(key_at(after, last.id.0, slot));
        assert(after[slot] == (last.id.0, last));
        assert forall|i: int| 0 <= i < before.len() && i != slot implies after[i]
            == before[i] by {}
        if key == last.id.0 {
            lemma_position_is_unique(after, key, slot);
            assert(is_latest(posts, key, end));
            assert forall|index: int| is_latest(posts, key, index) implies after[position(
                after,
                key,
            )] == (key, posts[index]) by {
                assert(index == end);
            }
        } else {
            assert forall|index: int| is_latest(posts, key, index) implies is_latest(
                init,
                key,
                index,
            ) by {
                assert(index != end);
                assert forall|later: int| index < later < init.len() implies init[later].id.0
                    != key by {
                    assert(init[later] == posts[later]);
                }
            }
            assert forall|index: int| is_latest(init, key, index) implies is_latest(
                posts,
                key,
                index,
            ) by {
                assert forall|later: int| index < later < posts.len() implies posts[later].id.0
                    != key by {
                    if later < init.len() {
                        assert(init[later] == posts[later]);
                    }
                }
            }
            if has_key(before, key) {
                let at = position(before, key);
                assert(key_at(before, key, at));
                assert(at != slot);
                assert(key_at(after, key, at));
                lemma_position_is_unique(after, key, at);
            }
            if has_key(after, key) {
                let at = position(after, key);
                assert(key_at(after, key, at));
                assert(at != slot);
                assert(key_at(before, key, at));
                lemma_position_is_unique(before, key, at);
            }
        }
    }
}

/// Taking a post out leaves no entry under its identifier, keeps the keys
/// distinct, and keeps every other post.
pub proof fn lemma_removed_is_gone(entries: Seq<(u128, PublicPost)>, key: u128, other: u128)
    requires
        keys_distinct(entries),
        other != key,
    ensures
        keys_distinct(removed(entries, key)),
        !has_key(removed(entries, key), key),
        has_key(removed(entries, key), other) <==> has_key(entries, other),
        has_key(entries, other) ==> removed(entries, key)[position(removed(entries, key), other)]
            == entries[position(entries, other)],
{
    let after = removed(entries, key);
    if has_key(entries, key) {
        let at = position(entries, key);
        assert(key_at(entries, key, at));
        let end = entries.len() - 1;
        assert forall|i: int| 0 <= i < after.len() implies after[i] == (if i == at {
            entries[end]
        } else {
            entries[i]
        }) by {}
        assert forall|i: int, j: int|
            0 <= i < after.len() && 0 <= j < after.len() && i != j implies after[i].0
            != after[j].0 by {}
        assert forall|i: int| !key_at(after, key, i) by {
            if 0 <= i < after.len() {
                if i == at {
                    assert(after[i] == entries[end]);
                    assert(end != at);
                } else {
                    assert(after[i] == entries[i]);
                }
            }
        }
        if has_key(entries, other) {
            let was = position(entries, other);
            assert(key_at(entries, other, was));
            assert(was != at);
            let now = if was == end {
                at
            } else {
                was
            };
            assert(key_at(after, other, now));
            lemma_position_is_unique(after, other, now);
        }
        if has_key(after, other) {
            let now = position(after, other);
            assert(key_at(after, other, now));
            let was = if now == at {
                end
            } else {
                now
            };
            assert(key_at(entries, other, was));
        }
    }
}

} // verus!
