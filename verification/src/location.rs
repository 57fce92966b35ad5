//! A user's last-known location; upserted, never historized.

use vstd::prelude::*;

use crate::errors::ApiError;
use crate::store::same_alert_types;
use crate::store::same_alerts;
use crate::store::same_device_tokens;
use crate::store::same_tokens;
use crate::store::same_users;
use crate::store::Store;

verus! {

/// The latest location of a user, one row per user, coordinates in
/// microdegrees.
#[derive(Clone, Copy, Debug)]
pub struct Location {
    pub user_id: i64,
    pub latitude: i64,
    pub longitude: i64,
    pub created_at: i64,
    pub updated_at: i64,
}

/// A client-supplied location sample.
#[derive(Clone, Copy, Debug)]
pub struct LocationInput {
    pub latitude: i64,
    pub longitude: i64,
}

/// What upserting a user's location leaves behind: exactly one row for the
/// user carries the new coordinates, fresh; an updated row keeps its
/// creation time, a new row is stamped with it.
pub open spec fn location_upsert_ok(
    pre: Seq<Location>,
    post: Seq<Location>,
    user_id: i64,
    latitude: i64,
    longitude: i64,
    now: i64,
) -> bool {
    exists|i: int|
        {
            &&& 0 <= i < post.len()
            &&& (#[trigger] post[i]).user_id == user_id
            &&& post[i].latitude == latitude
            &&& post[i].longitude == longitude
            &&& post[i].updated_at == now
            &&& if 0 <= i < pre.len() && pre[i].user_id == user_id {
                post == pre.update(i, post[i]) && post[i].created_at == pre[i].created_at
            } else {
                i == pre.len() && post == pre.push(post[i]) && post[i].created_at == now
            }
        }
}

/// The stored location of a user, if any.
pub fn find_by_user(user_id: i64, store: &Store) -> (r: Option<Location>)
    ensures
        match r {
            Some(l) => l.user_id == user_id && exists|i: int|
                0 <= i < store.locations@.len() && #[trigger] store.locations@[i] == l,
            None => forall|i: int|
                0 <= i < store.locations@.len() ==> #[trigger] store.locations@[i].user_id
                    != user_id,
        },
{
    let n = store.locations.len();
    let mut i: usize = 0;
    while i < n
        invariant
            n == store.locations@.len(),
            i <= n,
            forall|k: int| 0 <= k < i ==> #[trigger] store.locations@[k].user_id != user_id,
        decreases n - i,
    {
        if store.locations[i].user_id == user_id {
            return Some(store.locations[i]);
        }
        i = i + 1;
    }
    None
}

impl Location {
    /// Upserts this user's latest location: at most one row per user; an
    /// update keeps the row's creation time.
    pub fn init_or_update(&self, store: &mut Store, now: i64) -> (r: Result<Location, ApiError>)
        requires
            old(store).wf(),
        ensures
            final(store).wf(),
            same_users(*old(store), *final(store)),
            same_alerts(*old(store), *final(store)),
            same_alert_types(*old(store), *final(store)),
            same_device_tokens(*old(store), *final(store)),
            same_tokens(*old(store), *final(store)),
            match r {
                Ok(l) => {
                    &&& l.user_id == self.user_id
                    &&& l.latitude == self.latitude
                    &&& l.longitude == self.longitude
                    &&& l.updated_at == now
                    &&& exists|i: int|
                        0 <= i < final(store).locations@.len() && (#[trigger] final(store).locations@[i]) == l
                    &&& location_upsert_ok(
                        old(store).locations@,
                        final(store).locations@,
                        self.user_id,
                        self.latitude,
                        self.longitude,
                        now,
                    )
                },
                Err(_) => false,
            },
    {
        let ghost pre = *store;
        let n = store.locations.len();
        let mut i: usize = 0;
        while i < n
            invariant
                *store == pre,
                pre == *old(store),
                pre.wf(),
                n == store.locations@.len(),
                i <= n,
                forall|k: int| 0 <= k < i ==> #[trigger] store.locations@[k].user_id
                    != self.user_id,
            decreases n - i,
        {
            if store.locations[i].user_id == self.user_id {
                let row = Location {
                    user_id: self.user_id,
                    latitude: self.latitude,
                    longitude: self.longitude,
                    created_at: store.locations[i].created_at,
                    updated_at: now,
                };
                store.locations.set(i, row);
                proof {
                    assert(store.locations@ =~= pre.locations@.update(
                        i as int,
                        store.locations@[i as int],
                    ));
                }
                return Ok(row);
            }
            i = i + 1;
        }
        let row = Location {
            user_id: self.user_id,
            latitude: self.latitude,
            longitude: self.longitude,
            created_at: now,
            updated_at: now,
        };
        store.locations.push(row);
        proof {
            let m = pre.locations@.len() as int;
            assert(store.locations@ =~= pre.locations@.push(store.locations@[m]));
        }
        Ok(row)
    }
}

} // verus!
