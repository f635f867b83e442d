//! The cache that the event stream keeps of one session: the client's own user
//! and the last known record of every user the gateway has told about.
//!
//! Only [`GatewayData::apply`] changes the cache. It takes one decoded payload,
//! brings the cache up to date and makes the event for the consumer, whose
//! `old_user` or `old_status` is taken from the cache as it was before.
//!
//! `Authenticated` brings a fresh snapshot: after it the cache knows exactly
//! the users that it brought. Updates of single users follow on top of that.
use crate::models::{
    event_view, user_view, users_view, Event, EventView, ServerPayload, ServerPayloadView, Status,
    User, UserView,
};
use std::collections::HashMap;
use vstd::prelude::*;

verus! {

broadcast use vstd::std_specs::hash::group_hash_axioms;

/// The view of a [`GatewayData`]: the client's own user, and the users known
/// by their ids.
pub struct GatewayDataView {
    pub user: Option<UserView>,
    pub users: Map<u64, UserView>,
}

/// The cache of a session that has not heard of anyone yet.
pub open spec fn empty_cache() -> GatewayDataView {
    GatewayDataView { user: None, users: Map::empty() }
}

/// The ids of the users of a sequence.
pub open spec fn ids_of(users: Seq<UserView>) -> Set<u64> {
    Set::new(|id: u64| exists|i: int| 0 <= i < users.len() && (#[trigger] users[i]).id == id)
}

/// The known users after each user of `added` has been recorded under its id,
/// in the order of the sequence: of two users with one id the later one stays.
pub open spec fn insert_all(users: Map<u64, UserView>, added: Seq<UserView>) -> Map<u64, UserView>
    decreases added.len(),
{
    if added.len() == 0 {
        users
    } else {
        insert_all(users, added.drop_last()).insert(added.last().id, added.last())
    }
}

/// Every record is held under the id of its user.
pub open spec fn keyed_by_id(data: GatewayDataView) -> bool {
    forall|id: u64| #[trigger] data.users.contains_key(id) ==> data.users[id].id == id
}

/// The record of the user `user_id`, if the cache holds one.
pub open spec fn known_user(data: GatewayDataView, user_id: u64) -> Option<UserView> {
    if data.users.contains_key(user_id) {
        Some(data.users[user_id])
    } else {
        None
    }
}

/// The status of the user `user_id`, if the cache holds a record of it.
pub open spec fn known_status(data: GatewayDataView, user_id: u64) -> Option<
    crate::models::StatusView,
> {
    match known_user(data, user_id) {
        Some(user) => Some(user.status),
        None => None,
    }
}

/// The cache after `payload`.
///
/// `Authenticated` brings a fresh snapshot: it sets the client's own user, and
/// the users it brings are from then on the only ones known, whatever the
/// cache knew before. `UserUpdate` records the user. `PresenceUpdate` changes
/// the status in the record of a known user, and nothing for an unknown one.
/// Every other payload leaves the cache as it is.
pub open spec fn cache_after(data: GatewayDataView, payload: ServerPayloadView) -> GatewayDataView {
    match payload {
        ServerPayloadView::Authenticated { user, users } => GatewayDataView {
            user: Some(user),
            users: insert_all(Map::empty(), users),
        },
        ServerPayloadView::UserUpdate(user) => GatewayDataView {
            user: data.user,
            users: data.users.insert(user.id, user),
        },
        ServerPayloadView::PresenceUpdate { user_id, status } => match known_user(data, user_id) {
            Some(user) => GatewayDataView {
                user: data.user,
                users: data.users.insert(user_id, UserView { status, ..user }),
            },
            None => data,
        },
        _ => data,
    }
}

/// The event that `payload` gives the consumer, made with the cache as it was
/// before the payload. `Pong`, `RateLimit` and `Hello` give none.
pub open spec fn event_of(data: GatewayDataView, payload: ServerPayloadView) -> Option<EventView> {
    match payload {
        ServerPayloadView::Pong => None,
        ServerPayloadView::RateLimit { .. } => None,
        ServerPayloadView::Hello { .. } => None,
        ServerPayloadView::Authenticated { .. } => Some(EventView::Authenticated),
        ServerPayloadView::MessageCreate(message) => Some(EventView::Message(message)),
        ServerPayloadView::UserUpdate(user) => Some(
            EventView::UserUpdate { old_user: known_user(data, user.id), user },
        ),
        ServerPayloadView::PresenceUpdate { user_id, status } => Some(
            EventView::PresenceUpdate { old_status: known_status(data, user_id), user_id, status },
        ),
    }
}

/// Data provided to the client from the gateway
#[derive(Debug)]
pub struct GatewayData {
    user: Option<User>,
    users: HashMap<u64, User>,
}

/// The views of the users of a map, under the same ids.
pub closed spec fn users_map_view(users: Map<u64, User>) -> Map<u64, UserView> {
    Map::new(|id: u64| users.contains_key(id), |id: u64| users[id]@)
}

impl View for GatewayData {
    type V = GatewayDataView;

    closed spec fn view(&self) -> GatewayDataView {
        GatewayDataView { user: user_view(self.user), users: users_map_view(self.users@) }
    }
}

impl Default for GatewayData {
    fn default() -> (data: Self)
        ensures
            data@ == empty_cache(),
            keyed_by_id(data@),
    {
        let data = GatewayData { user: None, users: HashMap::new() };
        assert(data@.users =~= Map::empty());
        data
    }
}

impl Clone for GatewayData {
    fn clone(&self) -> (copy: Self)
        ensures
            copy@ == self@,
    {
        let user = match &self.user {
            Some(user) => Some(user.clone()),
            None => None,
        };
        GatewayData { user, users: self.users.clone() }
    }
}

impl GatewayData {
    /// A cache that has not heard of anyone yet.
    pub fn new() -> (data: Self)
        ensures
            data@ == empty_cache(),
            keyed_by_id(data@),
    {
        GatewayData::default()
    }

    /// The client's own user, once the session is authenticated.
    pub fn user(&self) -> (user: Option<&User>)
        ensures
            match user {
                Some(user) => self@.user == Some(user@),
                None => self@.user is None,
            },
    {
        self.user.as_ref()
    }

    /// The last known record of the user `user_id`.
    pub fn get(&self, user_id: u64) -> (user: Option<&User>)
        ensures
            match user {
                Some(user) => known_user(self@, user_id) == Some(user@),
                None => known_user(self@, user_id) is None,
            },
    {
        self.users.get(&user_id)
    }

    /// The number of users that the cache holds a record of.
    pub fn len(&self) -> (len: usize)
        ensures
            len == self@.users.len(),
    {
        proof {
            lemma_users_map_view_len(self.users@);
        }
        self.users.len()
    }

    /// Records `user` under `user_id` and returns the record that was there.
    fn record(&mut self, user_id: u64, user: User) -> (old_user: Option<User>)
        ensures
            final(self)@ == (GatewayDataView {
                user: old(self)@.user,
                users: old(self)@.users.insert(user_id, user@),
            }),
            user_view(old_user) == known_user(old(self)@, user_id),
    {
        let old_user = self.users.insert(user_id, user);
        assert(users_map_view(self.users@) =~= users_map_view(old(self).users@).insert(
            user_id,
            user@,
        ));
        old_user
    }

    /// Takes one decoded payload: brings the cache up to date and returns the
    /// event for the consumer, if the payload gives one.
    pub fn apply(&mut self, payload: ServerPayload) -> (event: Option<Event>)
        ensures
            final(self)@ == cache_after(old(self)@, payload@),
            event_view(event) == event_of(old(self)@, payload@),
            keyed_by_id(old(self)@) ==> keyed_by_id(final(self)@),
    {
        proof {
            if keyed_by_id(old(self)@) {
                lemma_cache_after_keyed_by_id(old(self)@, payload@);
            }
        }
        match payload {
            ServerPayload::Pong => None,
            ServerPayload::RateLimit { .. } => None,
            ServerPayload::Hello { .. } => None,
            ServerPayload::Authenticated { user, users } => {
                self.user = Some(user);
                self.users = HashMap::new();
                let ghost added = users_view(users@);
                assert(self@.users =~= Map::empty());
                for next in iter: users.into_iter()
                    invariant
                        added == users_view(iter.seq()),
                        self@.user == Some(user@),
                        self@.users == insert_all(Map::empty(), added.take(iter.index() as int)),
                {
                    proof {
                        assert(added.take(iter.index() + 1).drop_last() =~= added.take(
                            iter.index() as int,
                        ));
                    }
                    let _ = self.record(next.id, next);
                }
                assert(added.take(added.len() as int) =~= added);
                Some(Event::Authenticated)
            },
            ServerPayload::MessageCreate(message) => Some(Event::Message(message)),
            ServerPayload::UserUpdate(user) => {
                let old_user = self.record(user.id, user.clone());
                Some(Event::UserUpdate { old_user, user })
            },
            ServerPayload::PresenceUpdate { user_id, status } => {
                let known = match self.users.get(&user_id) {
                    Some(user) => Some(user.clone()),
                    None => None,
                };
                match known {
                    Some(user) => {
                        let old_status = user.status;
                        let updated = User { status: status.clone(), ..user };
                        assert(old(self).users@.contains_key(user_id));
                        let _ = self.record(user_id, updated);
                        Some(
                            Event::PresenceUpdate { old_status: Some(old_status), user_id, status },
                        )
                    },
                    None => Some(Event::PresenceUpdate { old_status: None, user_id, status }),
                }
            },
        }
    }
}

/// Recording users under their ids keeps every record under the id of its
/// user.
pub proof fn lemma_insert_all_keyed_by_id(users: Map<u64, UserView>, added: Seq<UserView>)
    requires
        keyed_by_id(GatewayDataView { user: None, users }),
    ensures
        keyed_by_id(GatewayDataView { user: None, users: insert_all(users, added) }),
    decreases added.len(),
{
    if added.len() > 0 {
        lemma_insert_all_keyed_by_id(users, added.drop_last());
    }
}

/// No payload moves a record away from the id of its user.
pub proof fn lemma_cache_after_keyed_by_id(data: GatewayDataView, payload: ServerPayloadView)
    requires
        keyed_by_id(data),
    ensures
        keyed_by_id(cache_after(data, payload)),
{
    match payload {
        ServerPayloadView::Authenticated { user, users } => {
            lemma_insert_all_keyed_by_id(Map::empty(), users);
        },
        _ => {},
    }
}

/// Recording users adds exactly their ids to the ids that were known.
pub proof fn lemma_insert_all_ids(users: Map<u64, UserView>, added: Seq<UserView>)
    ensures
        insert_all(users, added).dom() =~= users.dom().union(ids_of(added)),
    decreases added.len(),
{
    if added.len() > 0 {
        let earlier = added.drop_last();
        let last = added.last();
        lemma_insert_all_ids(users, earlier);
        assert forall|id: u64| ids_of(added).contains(id) <==> (ids_of(earlier).contains(id) || id
            == last.id) by {
            if ids_of(added).contains(id) {
                let i = choose|i: int| 0 <= i < added.len() && (#[trigger] added[i]).id == id;
                if i < added.len() - 1 {
                    assert(earlier[i].id == id);
                }
            }
            if ids_of(earlier).contains(id) {
                let i = choose|i: int| 0 <= i < earlier.len() && (#[trigger] earlier[i]).id == id;
                assert(added[i].id == id);
            }
            if id == last.id {
                assert(added[added.len() - 1].id == id);
            }
        }
    } else {
        assert(ids_of(added) =~= Set::empty());
    }
}

/// Recording users leaves the record of every other user as it was, and of
/// the users recorded under one id the last one stays.
pub proof fn lemma_insert_all_records(users: Map<u64, UserView>, added: Seq<UserView>, id: u64)
    ensures
        !ids_of(added).contains(id) ==> known_user(
            GatewayDataView { user: None, users: insert_all(users, added) },
            id,
        ) == known_user(GatewayDataView { user: None, users }, id),
        forall|i: int|
            0 <= i < added.len() && (#[trigger] added[i]).id == id && (forall|j: int|
                i < j < added.len() ==> (#[trigger] added[j]).id != id) ==> insert_all(
                users,
                added,
            )[id] == added[i],
    decreases added.len(),
{
    if added.len() > 0 {
        let earlier = added.drop_last();
        let last = added.last();
        lemma_insert_all_records(users, earlier, id);
        if !ids_of(added).contains(id) {
            assert(added[added.len() - 1].id != id);
            if ids_of(earlier).contains(id) {
                let i = choose|i: int| 0 <= i < earlier.len() && (#[trigger] earlier[i]).id == id;
                assert(added[i].id == id);
            }
        }
        assert forall|i: int|
            0 <= i < added.len() && (#[trigger] added[i]).id == id && (forall|j: int|
                i < j < added.len() ==> (#[trigger] added[j]).id != id) implies insert_all(
            users,
            added,
        )[id] == added[i] by {
            if i < added.len() - 1 {
                assert(added[added.len() - 1].id != id);
                assert(earlier[i].id == id);
                assert forall|j: int| i < j < earlier.len() implies (#[trigger] earlier[j]).id
                    != id by {
                    assert(added[j].id != id);
                }
            }
        }
    }
}

/// After `Authenticated` the cache holds the client's own user, and it knows
/// exactly the users that the payload brought, whatever it knew before. Of
/// each of them it holds the record that the payload brought, and where the
/// payload brought several records under one id, the last of them.
pub proof fn lemma_authenticated_fills_cache(
    data: GatewayDataView,
    user: UserView,
    users: Seq<UserView>,
)
    ensures
        cache_after(data, ServerPayloadView::Authenticated { user, users }).user == Some(user),
        cache_after(data, ServerPayloadView::Authenticated { user, users }).users.dom() =~= ids_of(
            users,
        ),
        forall|i: int|
            0 <= i < users.len() && (forall|j: int|
                i < j < users.len() ==> (#[trigger] users[j]).id != users[i].id) ==> known_user(
                cache_after(data, ServerPayloadView::Authenticated { user, users }),
                (#[trigger] users[i]).id,
            ) == Some(users[i]),
        event_of(data, ServerPayloadView::Authenticated { user, users }) == Some(
            EventView::Authenticated,
        ),
{
    let empty = Map::<u64, UserView>::empty();
    lemma_insert_all_ids(empty, users);
    assert(empty.dom().union(ids_of(users)) =~= ids_of(users));
    assert forall|i: int|
        0 <= i < users.len() && (forall|j: int|
            i < j < users.len() ==> (#[trigger] users[j]).id != users[i].id) implies known_user(
        cache_after(data, ServerPayloadView::Authenticated { user, users }),
        (#[trigger] users[i]).id,
    ) == Some(users[i]) by {
        lemma_insert_all_records(empty, users, users[i].id);
        assert(ids_of(users).contains(users[i].id));
    }
}

/// `UserUpdate` tells the record that the cache held of the user before, and
/// leaves the new record in its place; no other record changes.
pub proof fn lemma_user_update_replaces_record(data: GatewayDataView, user: UserView)
    ensures
        event_of(data, ServerPayloadView::UserUpdate(user)) == Some(
            EventView::UserUpdate { old_user: known_user(data, user.id), user },
        ),
        known_user(cache_after(data, ServerPayloadView::UserUpdate(user)), user.id) == Some(user),
        forall|other: u64|
            other != user.id ==> #[trigger] known_user(
                cache_after(data, ServerPayloadView::UserUpdate(user)),
                other,
            ) == known_user(data, other),
        cache_after(data, ServerPayloadView::UserUpdate(user)).user == data.user,
{
}

/// `PresenceUpdate` tells the status that the cache held of the user before,
/// which is none for a user that the cache does not know, and leaves the new
/// status in the record of a known user.
pub proof fn lemma_presence_update_replaces_status(
    data: GatewayDataView,
    user_id: u64,
    status: crate::models::StatusView,
)
    ensures
        event_of(data, ServerPayloadView::PresenceUpdate { user_id, status }) == Some(
            EventView::PresenceUpdate { old_status: known_status(data, user_id), user_id, status },
        ),
        !data.users.contains_key(user_id) ==> known_status(data, user_id) is None && cache_after(
            data,
            ServerPayloadView::PresenceUpdate { user_id, status },
        ) == data,
        data.users.contains_key(user_id) ==> known_status(data, user_id) == Some(
            data.users[user_id].status,
        ) && known_status(
            cache_after(data, ServerPayloadView::PresenceUpdate { user_id, status }),
            user_id,
        ) == Some(status),
{
}

/// A message leaves the cache as it is, and its event does not depend on the
/// cache: the same message gives the same event however often it arrives.
pub proof fn lemma_message_leaves_cache(
    data: GatewayDataView,
    other: GatewayDataView,
    message: crate::models::MessageView,
)
    ensures
        cache_after(data, ServerPayloadView::MessageCreate(message)) == data,
        event_of(data, ServerPayloadView::MessageCreate(message)) == Some(
            EventView::Message(message),
        ),
        event_of(other, ServerPayloadView::MessageCreate(message)) == event_of(
            data,
            ServerPayloadView::MessageCreate(message),
        ),
{
}

/// `Pong`, `RateLimit` and `Hello` stay inside the protocol: they give the
/// consumer no event and leave the cache as it is.
pub proof fn lemma_internal_payloads_are_silent(data: GatewayDataView, payload: ServerPayloadView)
    requires
        payload is Pong || payload is RateLimit || payload is Hello,
    ensures
        event_of(data, payload) is None,
        cache_after(data, payload) == data,
{
}

/// The views of the users of a finite map are as many as its users.
proof fn lemma_users_map_view_len(users: Map<u64, User>)
    requires
        users.dom().finite(),
    ensures
        users_map_view(users).len() == users.len(),
{
    assert(users_map_view(users).dom() =~= users.dom());
}

} // verus!
