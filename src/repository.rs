use vstd::prelude::*;
use crate::error::Error;
use crate::models::{App, CreateApp, CreateUser, QueryApp, QueryUser, UpdateUser, User};

verus! {

/// `r` is what a lookup of `q` in `apps` returns: the first app that matches,
/// or `None` when none does.
pub open spec fn app_found(apps: Seq<App>, q: QueryApp, r: Option<App>) -> bool {
    match r {
        Some(a) => exists|i: int|
            0 <= i < apps.len() && q.matches(#[trigger] apps[i]) && a == apps[i] && forall|j: int|
                0 <= j < i ==> !q.matches(#[trigger] apps[j]),
        None => forall|i: int| 0 <= i < apps.len() ==> !q.matches(#[trigger] apps[i]),
    }
}

/// `i` is the position of the first user of `users` that `q` matches.
pub open spec fn is_first_user_match(users: Seq<User>, q: QueryUser, i: int) -> bool {
    &&& 0 <= i < users.len()
    &&& q.matches(users[i])
    &&& forall|j: int| 0 <= j < i ==> !q.matches(#[trigger] users[j])
}

/// `r` is what a lookup of `q` in `users` returns: the first user that
/// matches, or `None` when none does.
pub open spec fn user_found(users: Seq<User>, q: QueryUser, r: Option<User>) -> bool {
    match r {
        Some(u) => exists|i: int| is_first_user_match(users, q, i) && u == #[trigger] users[i],
        None => forall|i: int| 0 <= i < users.len() ==> !q.matches(#[trigger] users[i]),
    }
}

/// How many users of `users` the query matches.
pub open spec fn count_matches(users: Seq<User>, q: QueryUser) -> nat
    decreases users.len(),
{
    if users.len() == 0 {
        0
    } else {
        count_matches(users.drop_last(), q) + if q.matches(users.last()) {
            1nat
        } else {
            0nat
        }
    }
}

/// `after` is `before` with `u` applied, at time `now`, to every user that
/// `q` matches.
pub open spec fn updated_users(
    before: Seq<User>,
    after: Seq<User>,
    q: QueryUser,
    u: UpdateUser,
    now: i64,
) -> bool {
    &&& after.len() == before.len()
    &&& forall|i: int|
        0 <= i < before.len() ==> #[trigger] after[i] == if q.matches(before[i]) {
            u.apply(before[i], now)
        } else {
            before[i]
        }
}

/// The app that an insert of `c` with id `id` at time `now` stores.
pub open spec fn app_row(c: CreateApp, id: u64, now: i64) -> App {
    App {
        id,
        name: c.name,
        secret: c.secret,
        secret_salt: c.secret_salt,
        created_at: now,
        updated_at: now,
    }
}

/// The user that an insert of `c` with id `id` at time `now` stores.
pub open spec fn user_row(c: CreateUser, id: u64, now: i64) -> User {
    User {
        id,
        phone: c.phone,
        email: c.email,
        password_salt: c.password_salt,
        password: c.password,
        secret: c.secret,
        secret_salt: c.secret_salt,
        app_id: c.app_id,
        created_at: now,
        updated_at: now,
    }
}

/// A store of apps and users held in memory. Ids are assigned in order of
/// insertion, from 1; rows are never removed.
pub struct MemoryRepository {
    apps: Vec<App>,
    users: Vec<User>,
}

/// A transaction: a working copy of a repository, and the time at which it
/// began. Its writes become visible only through `MemoryRepository::commit`;
/// a transaction that is dropped is rolled back.
pub struct Transaction {
    pub working: MemoryRepository,
    pub now: i64,
}

/// Relies on `chrono::Utc::now` and `DateTime::timestamp`: the current time
/// in seconds since the Unix epoch. Nothing is promised of its value.
#[verifier::external_body]
fn now_seconds() -> (r: i64) {
    chrono::Utc::now().timestamp()
}

fn copy_apps(v: &Vec<App>) -> (r: Vec<App>)
    ensures
        r@ == v@,
{
    let mut r: Vec<App> = Vec::new();
    let mut i: usize = 0;
    while i < v.len()
        invariant
            i <= v@.len(),
            r@ == v@.take(i as int),
        decreases v@.len() - i,
    {
        r.push(v[i].duplicate());
        i = i + 1;
        assert(r@ =~= v@.take(i as int));
    }
    assert(r@ =~= v@);
    r
}

fn copy_users(v: &Vec<User>) -> (r: Vec<User>)
    ensures
        r@ == v@,
{
    let mut r: Vec<User> = Vec::new();
    let mut i: usize = 0;
    while i < v.len()
        invariant
            i <= v@.len(),
            r@ == v@.take(i as int),
        decreases v@.len() - i,
    {
        r.push(v[i].duplicate());
        i = i + 1;
        assert(r@ =~= v@.take(i as int));
    }
    assert(r@ =~= v@);
    r
}

impl MemoryRepository {
    /// The apps, the app with id `k` at position `k - 1`.
    pub closed spec fn apps(&self) -> Seq<App> {
        self.apps@
    }

    /// The users, the user with id `k` at position `k - 1`.
    pub closed spec fn users(&self) -> Seq<User> {
        self.users@
    }

    pub open spec fn wf(&self) -> bool {
        &&& self.apps().len() < u64::MAX
        &&& self.users().len() < u64::MAX
        &&& forall|i: int| 0 <= i < self.apps().len() ==> #[trigger] self.apps()[i].id == i + 1
        &&& forall|i: int| 0 <= i < self.users().len() ==> #[trigger] self.users()[i].id == i + 1
    }

    pub fn new() -> (r: MemoryRepository)
        ensures
            r.wf(),
            r.apps() == Seq::<App>::empty(),
            r.users() == Seq::<User>::empty(),
    {
        MemoryRepository { apps: Vec::new(), users: Vec::new() }
    }

    /// Opens a transaction on a copy of the stored rows.
    pub fn begin(&self) -> (tx: Transaction)
        requires
            self.wf(),
        ensures
            tx.working.wf(),
            tx.working.apps() == self.apps(),
            tx.working.users() == self.users(),
    {
        Transaction {
            working: MemoryRepository { apps: copy_apps(&self.apps), users: copy_users(&self.users) },
            now: now_seconds(),
        }
    }

    /// Makes the writes of `tx` the stored rows.
    pub fn commit(&mut self, tx: Transaction)
        ensures
            final(self).apps() == tx.working.apps(),
            final(self).users() == tx.working.users(),
    {
        *self = tx.working;
    }

    /// The first app that `q` matches, if any.
    pub fn fetch_app(&self, q: &QueryApp) -> (r: Option<App>)
        requires
            self.wf(),
        ensures
            app_found(self.apps(), *q, r),
            q.id_eq matches Some(id) ==> match r {
                Some(a) => 1 <= id <= self.apps().len() && a == self.apps()[id - 1],
                None => !(1 <= id <= self.apps().len()),
            },
    {
        let mut i: usize = 0;
        while i < self.apps.len()
            invariant
                self.wf(),
                i <= self.apps@.len(),
                forall|j: int| 0 <= j < i ==> !q.matches(#[trigger] self.apps@[j]),
            decreases self.apps@.len() - i,
        {
            if q.test(&self.apps[i]) {
                return Some(self.apps[i].duplicate());
            }
            i = i + 1;
        }
        proof {
            if let Some(id) = q.id_eq {
                if 1 <= id <= self.apps@.len() {
                    assert(self.apps@[id - 1].id == id);
                }
            }
        }
        None
    }

    /// The first user that `q` matches, if any.
    pub fn fetch_user(&self, q: &QueryUser) -> (r: Option<User>)
        requires
            self.wf(),
        ensures
            user_found(self.users(), *q, r),
    {
        let mut i: usize = 0;
        while i < self.users.len()
            invariant
                self.wf(),
                i <= self.users@.len(),
                forall|j: int| 0 <= j < i ==> !q.matches(#[trigger] self.users@[j]),
            decreases self.users@.len() - i,
        {
            if q.test(&self.users[i]) {
                let u = self.users[i].duplicate();
                assert(is_first_user_match(self.users(), *q, i as int));
                return Some(u);
            }
            i = i + 1;
        }
        None
    }

    /// Stores a new app under the next id and returns that id; fails when no
    /// id is left.
    pub fn insert_app(&mut self, app: CreateApp, now: i64) -> (r: Result<u64, Error>)
        requires
            old(self).wf(),
        ensures
            final(self).wf(),
            final(self).users() == old(self).users(),
            old(self).apps().len() + 1 < u64::MAX ==> {
                &&& r == Ok::<u64, Error>((old(self).apps().len() + 1) as u64)
                &&& final(self).apps() == old(self).apps().push(
                    app_row(app, (old(self).apps().len() + 1) as u64, now),
                )
            },
            old(self).apps().len() + 1 >= u64::MAX ==> {
                &&& r matches Err(Error::RepositoryError(_))
                &&& final(self).apps() == old(self).apps()
            },
    {
        let n = self.apps.len();
        if n as u64 >= u64::MAX - 1 {
            return Err(Error::RepositoryError("no app id is left".to_owned()));
        }
        let id = n as u64 + 1;
        self.apps.push(
            App {
                id,
                name: app.name,
                secret: app.secret,
                secret_salt: app.secret_salt,
                created_at: now,
                updated_at: now,
            },
        );
        Ok(id)
    }

    /// Stores a new user under the next id and returns that id; fails when no
    /// id is left.
    pub fn insert_user(&mut self, user: CreateUser, now: i64) -> (r: Result<u64, Error>)
        requires
            old(self).wf(),
        ensures
            final(self).wf(),
            final(self).apps() == old(self).apps(),
            old(self).users().len() + 1 < u64::MAX ==> {
                &&& r == Ok::<u64, Error>((old(self).users().len() + 1) as u64)
                &&& final(self).users() == old(self).users().push(
                    user_row(user, (old(self).users().len() + 1) as u64, now),
                )
            },
            old(self).users().len() + 1 >= u64::MAX ==> {
                &&& r matches Err(Error::RepositoryError(_))
                &&& final(self).users() == old(self).users()
            },
    {
        let n = self.users.len();
        if n as u64 >= u64::MAX - 1 {
            return Err(Error::RepositoryError("no user id is left".to_owned()));
        }
        let id = n as u64 + 1;
        self.users.push(
            User {
                id,
                phone: user.phone,
                email: user.email,
                password_salt: user.password_salt,
                password: user.password,
                secret: user.secret,
                secret_salt: user.secret_salt,
                app_id: user.app_id,
                created_at: now,
                updated_at: now,
            },
        );
        Ok(id)
    }

    /// Applies `update` to every user that `q` matches and returns how many
    /// that was.
    pub fn update_user(&mut self, q: &QueryUser, update: &UpdateUser, now: i64) -> (r: u64)
        requires
            old(self).wf(),
        ensures
            final(self).wf(),
            final(self).apps() == old(self).apps(),
            r == count_matches(old(self).users(), *q),
            updated_users(old(self).users(), final(self).users(), *q, *update, now),
    {
        let ghost before = self.users@;
        let mut count: u64 = 0;
        let mut i: usize = 0;
        while i < self.users.len()
            invariant
                self.apps@ == old(self).apps@,
                self.users@.len() == before.len(),
                before == old(self).users(),
                old(self).wf(),
                i <= before.len(),
                count == count_matches(before.take(i as int), *q),
                count <= i,
                forall|j: int|
                    0 <= j < i ==> #[trigger] self.users@[j] == if q.matches(before[j]) {
                        update.apply(before[j], now)
                    } else {
                        before[j]
                    },
                forall|j: int| i <= j < before.len() ==> #[trigger] self.users@[j] == before[j],
            decreases before.len() - i,
        {
            assert(before.take(i + 1).drop_last() =~= before.take(i as int));
            if q.test(&self.users[i]) {
                let u = update.applied(&self.users[i], now);
                self.users[i] = u;
                count = count + 1;
            }
            i = i + 1;
        }
        assert(before.take(i as int) =~= before);
        count
    }
}

/// With ids in order of insertion, a query on one id matches exactly the user
/// at that position, if the other filters accept it.
pub proof fn lemma_count_id_query(users: Seq<User>, q: QueryUser, id: u64)
    requires
        forall|i: int| 0 <= i < users.len() ==> #[trigger] users[i].id == i + 1,
        q.id_eq == Some(id),
        1 <= id <= users.len(),
        q.matches(users[id - 1]),
    ensures
        count_matches(users, q) == 1,
    decreases users.len(),
{
    if users.len() > id {
        let rest = users.drop_last();
        lemma_count_id_query(rest, q, id);
        assert(users.last() == users[users.len() - 1]);
    } else {
        assert forall|k: int| 0 <= k <= users.len() - 1 implies count_matches(users.take(k), q) == 0 by {
            lemma_count_none(users, q, id, k);
        }
        assert(users.take(users.len() - 1) =~= users.drop_last());
    }
}

proof fn lemma_count_none(users: Seq<User>, q: QueryUser, id: u64, k: int)
    requires
        forall|i: int| 0 <= i < users.len() ==> #[trigger] users[i].id == i + 1,
        q.id_eq == Some(id),
        0 <= k <= users.len(),
        k < id,
    ensures
        count_matches(users.take(k), q) == 0,
    decreases k,
{
    if k > 0 {
        lemma_count_none(users, q, id, k - 1);
        assert(users.take(k).drop_last() =~= users.take(k - 1));
        assert(users.take(k).last() == users[k - 1]);
    }
}

} // verus!
