//! In-memory image of the persisted tables.
//!
//! One `Store` value stands for the state of the relational store as one
//! transaction sees it.  The handlers mutate it only on their success path,
//! so a handler that returns an error leaves it exactly as a rolled-back
//! transaction would.

use vstd::prelude::*;

use crate::alerts::Alert;
use crate::alerts::AlertType;
use crate::auth::TokenType;
use crate::errors::ApiError;
use crate::location::Location;
use crate::user::User;

verus! {

/// A registered push token; at most one row per user.
#[derive(Debug)]
pub struct DeviceTokenRow {
    pub user_id: i64,
    pub token: String,
    pub updated_at: i64,
}

impl Clone for DeviceTokenRow {
    fn clone(&self) -> (r: Self)
        ensures
            r == *self,
    {
        DeviceTokenRow {
            user_id: self.user_id,
            token: self.token.clone(),
            updated_at: self.updated_at,
        }
    }
}

/// A single-use token row: the opaque value, its purpose, the subject it
/// was created for, and when it was created.
#[derive(Debug)]
pub struct StoredToken {
    pub token: String,
    pub token_type: TokenType,
    pub created_for: String,
    pub created_at: i64,
}

impl Clone for StoredToken {
    fn clone(&self) -> (r: Self)
        ensures
            r == *self,
    {
        StoredToken {
            token: self.token.clone(),
            token_type: self.token_type,
            created_for: self.created_for.clone(),
            created_at: self.created_at,
        }
    }
}

/// All tables of the store.
#[derive(Debug)]
pub struct Store {
    pub users: Vec<User>,
    pub locations: Vec<Location>,
    pub alerts: Vec<Alert>,
    pub alert_types: Vec<AlertType>,
    pub device_tokens: Vec<DeviceTokenRow>,
    pub tokens: Vec<StoredToken>,
    pub next_user_id: i64,
    pub next_alert_id: i64,
}

pub open spec fn distinct_user_emails(users: Seq<User>) -> bool {
    forall|i: int, j: int|
        0 <= i < j < users.len() ==> #[trigger] users[i].email@ != #[trigger] users[j].email@
}

pub open spec fn distinct_user_ids(users: Seq<User>) -> bool {
    forall|i: int, j: int|
        0 <= i < j < users.len() ==> #[trigger] users[i].id != #[trigger] users[j].id
}

pub open spec fn distinct_location_users(locations: Seq<Location>) -> bool {
    forall|i: int, j: int|
        0 <= i < j < locations.len() ==> #[trigger] locations[i].user_id != #[trigger] locations[j].user_id
}

pub open spec fn distinct_device_token_users(rows: Seq<DeviceTokenRow>) -> bool {
    forall|i: int, j: int|
        0 <= i < j < rows.len() ==> #[trigger] rows[i].user_id != #[trigger] rows[j].user_id
}

pub open spec fn distinct_alert_ids(alerts: Seq<Alert>) -> bool {
    forall|i: int, j: int|
        0 <= i < j < alerts.len() ==> #[trigger] alerts[i].id != #[trigger] alerts[j].id
}

pub open spec fn distinct_alert_type_names(types: Seq<AlertType>) -> bool {
    forall|i: int, j: int|
        0 <= i < j < types.len() ==> #[trigger] types[i].name@ != #[trigger] types[j].name@
}

pub open spec fn distinct_token_values(tokens: Seq<StoredToken>) -> bool {
    forall|i: int, j: int|
        0 <= i < j < tokens.len() ==> #[trigger] tokens[i].token@ != #[trigger] tokens[j].token@
}

impl Store {
    pub open spec fn users_wf(self) -> bool {
        &&& distinct_user_emails(self.users@)
        &&& distinct_user_ids(self.users@)
        &&& forall|i: int|
            0 <= i < self.users@.len() ==> 0 < #[trigger] self.users@[i].id < self.next_user_id
        &&& 0 < self.next_user_id
    }

    pub open spec fn locations_wf(self) -> bool {
        distinct_location_users(self.locations@)
    }

    pub open spec fn alerts_wf(self) -> bool {
        &&& distinct_alert_ids(self.alerts@)
        &&& forall|i: int|
            0 <= i < self.alerts@.len() ==> 0 < #[trigger] self.alerts@[i].id < self.next_alert_id
        &&& 0 < self.next_alert_id
    }

    pub open spec fn tokens_wf(self) -> bool {
        distinct_token_values(self.tokens@)
    }

    pub open spec fn device_tokens_wf(self) -> bool {
        distinct_device_token_users(self.device_tokens@)
    }

    pub open spec fn alert_types_wf(self) -> bool {
        distinct_alert_type_names(self.alert_types@)
    }

    /// The invariant every store operation preserves.
    pub open spec fn wf(self) -> bool {
        &&& self.users_wf()
        &&& self.locations_wf()
        &&& self.alerts_wf()
        &&& self.tokens_wf()
        &&& self.device_tokens_wf()
        &&& self.alert_types_wf()
    }

    /// An empty store.
    pub fn new() -> (s: Store)
        ensures
            s.wf(),
            s.users@.len() == 0,
            s.locations@.len() == 0,
            s.alerts@.len() == 0,
            s.alert_types@.len() == 0,
            s.device_tokens@.len() == 0,
            s.tokens@.len() == 0,
            s.next_user_id == 1,
            s.next_alert_id == 1,
    {
        Store {
            users: Vec::new(),
            locations: Vec::new(),
            alerts: Vec::new(),
            alert_types: Vec::new(),
            device_tokens: Vec::new(),
            tokens: Vec::new(),
            next_user_id: 1,
            next_alert_id: 1,
        }
    }
    /// Loads one row of alert-type reference data, refusing a duplicate
    /// name (the name is the key).
    pub fn add_alert_type(&mut self, name: &String, alert_level: i16, now: i64) -> (r: Result<
        (),
        ApiError,
    >)
        requires
            old(self).wf(),
        ensures
            final(self).wf(),
            same_users(*old(self), *final(self)),
            same_locations(*old(self), *final(self)),
            same_alerts(*old(self), *final(self)),
            same_device_tokens(*old(self), *final(self)),
            same_tokens(*old(self), *final(self)),
            match r {
                Ok(_) => {
                    &&& final(self).alert_types@.len() == old(self).alert_types@.len() + 1
                    &&& final(self).alert_types@ == old(self).alert_types@.push(
                        final(self).alert_types@.last(),
                    )
                    &&& final(self).alert_types@.last().name@ == name@
                    &&& final(self).alert_types@.last().alert_level == alert_level
                    &&& final(self).alert_types@.last().created_at == now
                    &&& final(self).alert_types@.last().updated_at == now
                },
                Err(e) => {
                    &&& e == ApiError::DuplicateName
                    &&& unchanged(*old(self), *final(self))
                },
            },
            r is Err <==> exists|i: int|
                0 <= i < old(self).alert_types@.len()
                    && #[trigger] old(self).alert_types@[i].name@ == name@,
    {
        let ghost pre = *self;
        let n = self.alert_types.len();
        let mut i: usize = 0;
        while i < n
            invariant
                *self == pre,
                pre == *old(self),
                pre.wf(),
                n == self.alert_types@.len(),
                i <= n,
                forall|k: int| 0 <= k < i ==> #[trigger] self.alert_types@[k].name@ != name@,
            decreases n - i,
        {
            if self.alert_types[i].name == *name {
                return Err(ApiError::DuplicateName);
            }
            i = i + 1;
        }
        let row = AlertType { name: name.clone(), alert_level, created_at: now, updated_at: now };
        self.alert_types.push(row);
        proof {
            let m = pre.alert_types@.len() as int;
            assert(self.alert_types@ =~= pre.alert_types@.push(self.alert_types@[m]));
        }
        Ok(())
    }
}

/// The user table and its id counter are unchanged.
pub open spec fn same_users(pre: Store, post: Store) -> bool {
    post.users@ == pre.users@ && post.next_user_id == pre.next_user_id
}

/// The location table is unchanged.
pub open spec fn same_locations(pre: Store, post: Store) -> bool {
    post.locations@ == pre.locations@
}

/// The alert table and its id counter are unchanged.
pub open spec fn same_alerts(pre: Store, post: Store) -> bool {
    post.alerts@ == pre.alerts@ && post.next_alert_id == pre.next_alert_id
}

/// The alert-type table is unchanged.
pub open spec fn same_alert_types(pre: Store, post: Store) -> bool {
    post.alert_types@ == pre.alert_types@
}

/// The device-token table is unchanged.
pub open spec fn same_device_tokens(pre: Store, post: Store) -> bool {
    post.device_tokens@ == pre.device_tokens@
}

/// The single-use token table is unchanged.
pub open spec fn same_tokens(pre: Store, post: Store) -> bool {
    post.tokens@ == pre.tokens@
}

/// Nothing in the store changed.
pub open spec fn unchanged(pre: Store, post: Store) -> bool {
    &&& same_users(pre, post)
    &&& same_locations(pre, post)
    &&& same_alerts(pre, post)
    &&& same_alert_types(pre, post)
    &&& same_device_tokens(pre, post)
    &&& same_tokens(pre, post)
}

} // verus!
