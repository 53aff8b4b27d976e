//! Keeping records on disk in fjall keyspaces: a keyspace is made to hold
//! exactly the encoded records of a store.

use vstd::prelude::*;
use vstd::utf8::{encode_utf8, encode_utf8_decode_utf8};
use crate::error::RepositoryError;
use crate::keyed::distinct_keys;
use crate::model::Keyed;
use crate::store::{Store, TodoData, UserData};

verus! {

broadcast use vstd::string::group_string_axioms;

#[verifier::external_type_specification]
#[verifier::external_body]
pub struct ExDatabase(fjall::Database);

#[verifier::external_type_specification]
#[verifier::external_body]
pub struct ExKeyspace(fjall::Keyspace);


/// What a keyspace holds: the value stored under each key.
pub uninterp spec fn keyspace_contents(ks: fjall::Keyspace) -> Map<Seq<u8>, Seq<u8>>;

/// What a keyspace was opened as: the directory given for its database, and
/// its name.
pub uninterp spec fn keyspace_origin(ks: fjall::Keyspace) -> (Seq<char>, Seq<char>);

/// The directory that a database was opened in, as it was given.
pub uninterp spec fn database_dir(db: fjall::Database) -> Seq<char>;

/// The largest length of a key that fjall takes, in bytes.
pub const MAX_KEY_BYTES: usize = 65535;

/// The largest length of a value that fjall takes, in bytes.
pub const MAX_VALUE_BYTES: usize = 4294967295;

/// `k` is a key that fjall takes: not empty, and at most `MAX_KEY_BYTES` long.
pub open spec fn storable_key(k: Seq<u8>) -> bool {
    0 < k.len() <= MAX_KEY_BYTES
}

/// Every pair of `s` can be written to fjall.
pub open spec fn storable_pairs(s: Seq<(Vec<u8>, Vec<u8>)>) -> bool {
    forall|i: int| 0 <= i < s.len() ==> storable_key(#[trigger] s[i].0@) && s[i].1@.len() <= MAX_VALUE_BYTES
}

/// The map that a list of key and value pairs stands for; a later pair
/// wins over an earlier one with the same key.
pub open spec fn entries_map(s: Seq<(Vec<u8>, Vec<u8>)>) -> Map<Seq<u8>, Seq<u8>>
    decreases s.len(),
{
    if s.len() == 0 {
        Map::empty()
    } else {
        entries_map(s.drop_last()).insert(s.last().0@, s.last().1@)
    }
}

pub proof fn lemma_entries_map_dom(s: Seq<(Vec<u8>, Vec<u8>)>, k: Seq<u8>)
    ensures
        entries_map(s).contains_key(k) <==> exists|i: int| 0 <= i < s.len() && #[trigger] s[i].0@ == k,
    decreases s.len(),
{
    if s.len() > 0 {
        lemma_entries_map_dom(s.drop_last(), k);
        if exists|i: int| 0 <= i < s.len() && #[trigger] s[i].0@ == k {
            let i = choose|i: int| 0 <= i < s.len() && #[trigger] s[i].0@ == k;
            if i < s.len() - 1 {
                assert(s.drop_last()[i].0@ == k);
            }
        }
        if exists|i: int| 0 <= i < s.len() - 1 && #[trigger] s.drop_last()[i].0@ == k {
            let i = choose|i: int| 0 <= i < s.len() - 1 && #[trigger] s.drop_last()[i].0@ == k;
            assert(s[i].0@ == k);
        }
    }
}

/// Calls fjall's `Database::builder(path).open()`, which opens or creates
/// the database in the directory `path`; an error comes as its text. The
/// builder makes the path absolute and panics where that fails, as it does
/// for an empty path, which `requires` leaves out.
#[verifier::external_body]
fn open_database(path: &str) -> (r: Result<fjall::Database, String>)
    requires
        path@.len() > 0,
    ensures
        r matches Ok(db) ==> database_dir(db) == path@,
{
    fjall::Database::builder(path).open().map_err(|e| e.to_string())
}

/// Calls fjall's `Database::keyspace` with the default options, which
/// opens or creates the keyspace `name`; it panics on a name that is empty
/// or longer than 255 bytes, which `requires` leaves out. An error comes as
/// its text.
#[verifier::external_body]
fn open_keyspace(db: &fjall::Database, name: &str) -> (r: Result<fjall::Keyspace, String>)
    requires
        vstd::string::is_ascii(name),
        0 < name@.len() <= 255,
    ensures
        r matches Ok(ks) ==> keyspace_origin(ks) == (database_dir(*db), name@),
{
    db.keyspace(name, fjall::KeyspaceCreateOptions::default).map_err(|e| e.to_string())
}

/// Calls fjall's `Keyspace::iter` and reads every key and value of the
/// snapshot that it takes, as `Guard::into_inner` gives them. The pairs it
/// gives stand for what the keyspace holds; an error comes as its text.
/// Each key came in through `insert`, whose bounds every key keeps.
#[verifier::external_body]
fn keyspace_entries(ks: &fjall::Keyspace) -> (r: Result<Vec<(Vec<u8>, Vec<u8>)>, String>)
    ensures
        r is Ok ==> entries_map(r->Ok_0@) == keyspace_contents(*ks),
        r is Ok ==> forall|i: int| 0 <= i < r->Ok_0@.len() ==> storable_key(#[trigger] r->Ok_0@[i].0@),
{
    ks.iter()
        .map(|guard| guard.into_inner().map(|(k, v)| (k.to_vec(), v.to_vec())))
        .collect::<Result<Vec<_>, fjall::Error>>()
        .map_err(|e| e.to_string())
}

/// Calls fjall's `Keyspace::insert`. When it succeeds, the keyspace holds
/// `value` under `key`, and every other key as before; the handle stays that
/// of the same keyspace. An error comes as its text. fjall panics on an
/// empty key, a key over 65535 bytes or a value over 2^32 - 1 bytes, which
/// `requires` leaves out.
#[verifier::external_body]
fn keyspace_insert(ks: &mut fjall::Keyspace, key: &Vec<u8>, value: &Vec<u8>) -> (r: Result<(), String>)
    requires
        storable_key(key@),
        value@.len() <= MAX_VALUE_BYTES,
    ensures
        keyspace_origin(*final(ks)) == keyspace_origin(*old(ks)),
        r is Ok ==> keyspace_contents(*final(ks)) == keyspace_contents(*old(ks)).insert(key@, value@),
{
    ks.insert(key.as_slice(), value.as_slice()).map_err(|e| e.to_string())
}

/// Calls fjall's `Keyspace::remove`. When it succeeds, the keyspace holds
/// nothing under `key`, and every other key as before; the handle stays that
/// of the same keyspace. An error comes as its text. fjall panics on an
/// empty key or a key over 65535 bytes, which `requires` leaves out.
#[verifier::external_body]
fn keyspace_remove(ks: &mut fjall::Keyspace, key: &Vec<u8>) -> (r: Result<(), String>)
    requires
        storable_key(key@),
    ensures
        keyspace_origin(*final(ks)) == keyspace_origin(*old(ks)),
        r is Ok ==> keyspace_contents(*final(ks)) == keyspace_contents(*old(ks)).remove(key@),
{
    ks.remove(key.as_slice()).map_err(|e| e.to_string())
}

/// Calls fjall's `Database::persist` with `PersistMode::SyncAll`, which
/// writes the journal to disk; what the keyspaces hold does not change. An
/// error comes as its text.
#[verifier::external_body]
fn persist_database(db: &fjall::Database) -> (r: Result<(), String>) {
    db.persist(fjall::PersistMode::SyncAll).map_err(|e| e.to_string())
}

/// A storage failure, kept as the text of the storage error `e`.
pub fn external(e: String) -> (r: RepositoryError)
    ensures
        r == RepositoryError::External(e),
{
    RepositoryError::External(e)
}

fn bytes_eq(a: &Vec<u8>, b: &Vec<u8>) -> (r: bool)
    ensures
        r == (a@ == b@),
{
    if a.len() != b.len() {
        return false;
    }
    let mut i: usize = 0;
    while i < a.len()
        invariant
            i <= a@.len(),
            a@.len() == b@.len(),
            forall|j: int| 0 <= j < i ==> a@[j] == b@[j],
        decreases a@.len() - i,
    {
        if a[i] != b[i] {
            return false;
        }
        i += 1;
    }
    assert(a@ =~= b@);
    true
}

fn has_entry_key(s: &Vec<(Vec<u8>, Vec<u8>)>, k: &Vec<u8>) -> (r: bool)
    ensures
        r == entries_map(s@).contains_key(k@),
{
    proof {
        lemma_entries_map_dom(s@, k@);
    }
    let mut i: usize = 0;
    while i < s.len()
        invariant
            i <= s@.len(),
            forall|j: int| 0 <= j < i ==> #[trigger] s@[j].0@ != k@,
        decreases s@.len() - i,
    {
        if bytes_eq(&s[i].0, k) {
            proof {
                lemma_entries_map_dom(s@, k@);
                assert(s@[i as int].0@ == k@);
            }
            return true;
        }
        i += 1;
    }
    false
}

/// Makes `ks` hold exactly the pairs of `records` (a later pair winning
/// over an earlier one with the same key): keys that `records` lacks are
/// removed, and every pair is written. A storage failure stops the work
/// and is reported with its text.
pub fn sync_keyspace(ks: &mut fjall::Keyspace, records: &Vec<(Vec<u8>, Vec<u8>)>) -> (r: Result<(), RepositoryError>)
    requires
        storable_pairs(records@),
    ensures
        keyspace_origin(*final(ks)) == keyspace_origin(*old(ks)),
        r is Ok ==> keyspace_contents(*final(ks)) == entries_map(records@),
        r matches Err(e) ==> e is External,
{
    let ghost target = entries_map(records@);
    let existing = match keyspace_entries(ks) {
        Ok(e) => e,
        Err(e) => {
            return Err(external(e));
        },
    };
    let ghost start = keyspace_contents(*ks);
    let mut i: usize = 0;
    while i < existing.len()
        invariant
            i <= existing@.len(),
            keyspace_origin(*ks) == keyspace_origin(*old(ks)),
            forall|j: int| 0 <= j < existing@.len() ==> storable_key(#[trigger] existing@[j].0@),
            entries_map(existing@) == start,
            target == entries_map(records@),
            forall|k: Seq<u8>| #[trigger] keyspace_contents(*ks).contains_key(k) <==> (start.contains_key(k)
                && !(!target.contains_key(k) && exists|j: int| 0 <= j < i && #[trigger] existing@[j].0@ == k)),
            forall|k: Seq<u8>| #[trigger] keyspace_contents(*ks).contains_key(k) ==> keyspace_contents(*ks)[k] == start[k],
        decreases existing@.len() - i,
    {
        let ghost before = keyspace_contents(*ks);
        if !has_entry_key(records, &existing[i].0) {
            match keyspace_remove(ks, &existing[i].0) {
                Ok(()) => {},
                Err(e) => {
                    return Err(external(e));
                },
            }
        }
        proof {
            let ki = existing@[i as int].0@;
            assert forall|k: Seq<u8>| #[trigger] keyspace_contents(*ks).contains_key(k) <==> (start.contains_key(k)
                && !(!target.contains_key(k) && exists|j: int| 0 <= j < i + 1 && #[trigger] existing@[j].0@ == k)) by {
                if k == ki {
                    assert(existing@[i as int].0@ == k);
                } else {
                    if exists|j: int| 0 <= j < i + 1 && #[trigger] existing@[j].0@ == k {
                        let j = choose|j: int| 0 <= j < i + 1 && #[trigger] existing@[j].0@ == k;
                        assert(j < i);
                    }
                }
            }
        }
        i += 1;
    }
    proof {
        assert forall|k: Seq<u8>| #[trigger] keyspace_contents(*ks).contains_key(k) implies target.contains_key(k) by {
            lemma_entries_map_dom(existing@, k);
            assert(start.contains_key(k));
            if !target.contains_key(k) {
                let j = choose|j: int| 0 <= j < existing@.len() && #[trigger] existing@[j].0@ == k;
                assert(exists|j2: int| 0 <= j2 < i && #[trigger] existing@[j2].0@ == k);
            }
        }
    }
    let ghost base = keyspace_contents(*ks);
    let mut n: usize = 0;
    while n < records.len()
        invariant
            n <= records@.len(),
            keyspace_origin(*ks) == keyspace_origin(*old(ks)),
            storable_pairs(records@),
            target == entries_map(records@),
            forall|k: Seq<u8>| #[trigger] base.contains_key(k) ==> target.contains_key(k),
            keyspace_contents(*ks) == base.union_prefer_right(entries_map(records@.take(n as int))),
        decreases records@.len() - n,
    {
        assert(storable_key(records@[n as int].0@) && records@[n as int].1@.len() <= MAX_VALUE_BYTES);
        match keyspace_insert(ks, &records[n].0, &records[n].1) {
            Ok(()) => {},
            Err(e) => {
                return Err(external(e));
            },
        }
        proof {
            assert(records@.take(n as int + 1).drop_last() =~= records@.take(n as int));
            assert(records@.take(n as int + 1).last() == records@[n as int]);
            assert(keyspace_contents(*ks) =~= base.union_prefer_right(entries_map(records@.take(n as int + 1))));
        }
        n += 1;
    }
    proof {
        assert(records@.take(records@.len() as int) =~= records@);
        assert(keyspace_contents(*ks) =~= target);
    }
    Ok(())
}

/// The bytes under which a record is kept: the UTF-8 encoding of its key.
pub open spec fn key_bytes<M: Keyed>(m: M) -> Seq<u8> {
    encode_utf8(m.key_view())
}

/// What a keyspace holds once the records `records`, encoded as `values`
/// (in the same order), are written to it.
pub open spec fn records_map<M: Keyed>(records: Seq<M>, values: Seq<Vec<u8>>) -> Map<Seq<u8>, Seq<u8>>
    decreases records.len(),
{
    if records.len() == 0 {
        Map::empty()
    } else {
        let n = records.len() - 1;
        records_map(records.drop_last(), values.take(n)).insert(key_bytes(records.last()), values[n]@)
    }
}

/// Records with distinct keys are kept under distinct bytes, and each record
/// stands under its own bytes with its own encoding.
pub proof fn lemma_records_map<M: Keyed>(records: Seq<M>, values: Seq<Vec<u8>>, i: int)
    requires
        distinct_keys(records),
        values.len() == records.len(),
        0 <= i < records.len(),
    ensures
        records_map(records, values).contains_key(key_bytes(records[i])),
        records_map(records, values)[key_bytes(records[i])] == values[i]@,
    decreases records.len(),
{
    let n = records.len() - 1;
    if i < n {
        let t = records.drop_last();
        assert forall|a: int, b: int|
            0 <= a < t.len() && 0 <= b < t.len() && a != b implies #[trigger] t[a].key_view()
                != #[trigger] t[b].key_view() by {
            assert(t[a] == records[a] && t[b] == records[b]);
        }
        assert(t[i] == records[i]);
        assert(values.take(n)[i] == values[i]);
        lemma_records_map(t, values.take(n), i);
        assert(records[i].key_view() != records[n].key_view());
        encode_utf8_decode_utf8(records[i].key_view());
        encode_utf8_decode_utf8(records[n].key_view());
    }
}

/// Every key that a written keyspace holds is the bytes of some record's
/// key.
pub proof fn lemma_records_map_dom<M: Keyed>(records: Seq<M>, values: Seq<Vec<u8>>, k: Seq<u8>)
    requires
        values.len() == records.len(),
        records_map(records, values).contains_key(k),
    ensures
        exists|i: int| 0 <= i < records.len() && #[trigger] key_bytes(records[i]) == k,
    decreases records.len(),
{
    let n = records.len() - 1;
    if k != key_bytes(records[n]) {
        lemma_records_map_dom(records.drop_last(), values.take(n), k);
        let i = choose|i: int| 0 <= i < n && #[trigger] key_bytes(records.drop_last()[i]) == k;
        assert(records.drop_last()[i] == records[i]);
    }
}

/// Each record of `records` and its encoding in `values` can be written to
/// fjall.
pub open spec fn storable_records<M: Keyed>(records: Seq<M>, values: Seq<Vec<u8>>) -> bool {
    &&& values.len() == records.len()
    &&& forall|i: int| 0 <= i < records.len() ==> storable_key(#[trigger] key_bytes(records[i]))
    &&& forall|i: int| 0 <= i < values.len() ==> (#[trigger] values[i])@.len() <= MAX_VALUE_BYTES
}

/// The pairs of key bytes and encoding that `records` and `values` give.
fn encoded_pairs<M: Keyed>(records: &Vec<M>, values: &Vec<Vec<u8>>) -> (r: Vec<(Vec<u8>, Vec<u8>)>)
    requires
        storable_records(records@, values@),
    ensures
        entries_map(r@) == records_map(records@, values@),
        storable_pairs(r@),
{
    let mut r: Vec<(Vec<u8>, Vec<u8>)> = Vec::new();
    let mut i: usize = 0;
    assert(records@.take(0) =~= Seq::<M>::empty());
    while i < records.len()
        invariant
            i <= records@.len(),
            storable_records(records@, values@),
            r@.len() == i,
            entries_map(r@) == records_map(records@.take(i as int), values@.take(i as int)),
            forall|j: int| 0 <= j < i ==> (#[trigger] r@[j]).0@ == key_bytes(records@[j]) && r@[j].1@ == values@[j]@,
        decreases records@.len() - i,
    {
        let key = vstd::slice::slice_to_vec(records[i].key().as_str().as_bytes());
        let value = vstd::slice::slice_to_vec(values[i].as_slice());
        let ghost before = r@;
        assert(key@ == key_bytes(records@[i as int]));
        r.push((key, value));
        proof {
            assert(storable_key(key_bytes(records@[i as int])));
            assert(values@[i as int]@.len() <= MAX_VALUE_BYTES);
            let t = records@.take(i as int + 1);
            let w = values@.take(i as int + 1);
            assert(t.drop_last() =~= records@.take(i as int));
            assert(w.take(i as int) =~= values@.take(i as int));
            assert(r@.drop_last() =~= before);
        }
        i += 1;
    }
    assert(records@.take(records@.len() as int) =~= records@);
    assert(values@.take(values@.len() as int) =~= values@);
    assert forall|i: int| 0 <= i < r@.len() implies storable_key(#[trigger] r@[i].0@) && r@[i].1@.len() <= MAX_VALUE_BYTES by {
        assert(r@[i].0@ == key_bytes(records@[i]));
        assert(storable_key(key_bytes(records@[i])));
        assert(values@[i]@.len() <= MAX_VALUE_BYTES);
    }
    r
}

/// Writes `store` to `ks` if it changed since it was last written, and then
/// marks it clean.
fn commit_store<M: Keyed>(ks: &mut fjall::Keyspace, store: &mut Store<M>, values: &Vec<Vec<u8>>) -> (r: Result<(), RepositoryError>)
    requires
        old(store).dirty_spec() ==> storable_records(old(store).entries(), values@),
    ensures
        keyspace_origin(*final(ks)) == keyspace_origin(*old(ks)),
        final(store).entries() == old(store).entries(),
        !old(store).dirty_spec() ==> r is Ok && keyspace_contents(*final(ks)) == keyspace_contents(*old(ks)),
        r is Ok ==> !final(store).dirty_spec(),
        old(store).dirty_spec() && r is Ok ==> keyspace_contents(*final(ks)) == records_map(old(store).entries(), values@),
        r is Err ==> final(store).dirty_spec(),
        r matches Err(e) ==> e is External,
{
    if !store.is_dirty() {
        return Ok(());
    }
    let records = store.records();
    let pairs = encoded_pairs(&records, values);
    match sync_keyspace(ks, &pairs) {
        Ok(()) => {
            store.mark_clean();
            Ok(())
        },
        Err(e) => Err(e),
    }
}

/// The stores' keyspaces, `user` and `todo`, in the database kept in one
/// directory.
pub struct RepositoriesImpl {
    db: fjall::Database,
    user: fjall::Keyspace,
    todo: fjall::Keyspace,
}

impl RepositoriesImpl {
    /// Opens (or creates) the database in `data_dir` and its two keyspaces,
    /// `user` and `todo`, and empties them: nothing that an earlier run
    /// stored is kept.
    pub fn new(data_dir: &str) -> (r: Result<RepositoriesImpl, RepositoryError>)
        requires
            data_dir@.len() > 0,
        ensures
            r matches Ok(repos) ==> repos.origins() == ((data_dir@, "user"@), (data_dir@, "todo"@)),
            r matches Ok(repos) ==> repos.users_contents() == Map::<Seq<u8>, Seq<u8>>::empty(),
            r matches Ok(repos) ==> repos.todos_contents() == Map::<Seq<u8>, Seq<u8>>::empty(),
            r matches Err(e) ==> e is External,
    {
        let db = match open_database(data_dir) {
            Ok(db) => db,
            Err(e) => {
                return Err(external(e));
            },
        };
        proof {
            reveal_strlit("user");
            reveal_strlit("todo");
        }
        let user = match open_keyspace(&db, "user") {
            Ok(ks) => ks,
            Err(e) => {
                return Err(external(e));
            },
        };
        let todo = match open_keyspace(&db, "todo") {
            Ok(ks) => ks,
            Err(e) => {
                return Err(external(e));
            },
        };
        let mut user = user;
        let mut todo = todo;
        let nothing: Vec<(Vec<u8>, Vec<u8>)> = Vec::new();
        match sync_keyspace(&mut user, &nothing) {
            Ok(()) => {},
            Err(e) => {
                return Err(e);
            },
        }
        match sync_keyspace(&mut todo, &nothing) {
            Ok(()) => {},
            Err(e) => {
                return Err(e);
            },
        }
        Ok(RepositoriesImpl { db, user, todo })
    }

    /// What the two keyspaces were opened as: the directory and the name of
    /// the user keyspace, then of the todo keyspace.
    pub closed spec fn origins(&self) -> ((Seq<char>, Seq<char>), (Seq<char>, Seq<char>)) {
        (keyspace_origin(self.user), keyspace_origin(self.todo))
    }

    /// What the user keyspace holds.
    pub closed spec fn users_contents(&self) -> Map<Seq<u8>, Seq<u8>> {
        keyspace_contents(self.user)
    }

    /// What the todo keyspace holds.
    pub closed spec fn todos_contents(&self) -> Map<Seq<u8>, Seq<u8>> {
        keyspace_contents(self.todo)
    }

    /// The encoded users, as key and value pairs.
    pub fn user_entries(&self) -> (r: Result<Vec<(Vec<u8>, Vec<u8>)>, RepositoryError>)
        ensures
            r matches Ok(v) ==> entries_map(v@) == self.users_contents(),
            r matches Err(e) ==> e is External,
    {
        match keyspace_entries(&self.user) {
            Ok(v) => Ok(v),
            Err(e) => Err(external(e)),
        }
    }

    /// The encoded todos, as key and value pairs.
    pub fn todo_entries(&self) -> (r: Result<Vec<(Vec<u8>, Vec<u8>)>, RepositoryError>)
        ensures
            r matches Ok(v) ==> entries_map(v@) == self.todos_contents(),
            r matches Err(e) ==> e is External,
    {
        match keyspace_entries(&self.todo) {
            Ok(v) => Ok(v),
            Err(e) => Err(external(e)),
        }
    }

    /// Makes the user keyspace hold exactly `records`.
    pub fn save_users(&mut self, records: &Vec<(Vec<u8>, Vec<u8>)>) -> (r: Result<(), RepositoryError>)
        requires
            storable_pairs(records@),
        ensures
            final(self).origins() == old(self).origins(),
            r is Ok ==> final(self).users_contents() == entries_map(records@),
            r is Ok ==> final(self).todos_contents() == old(self).todos_contents(),
            r matches Err(e) ==> e is External,
    {
        sync_keyspace(&mut self.user, records)
    }

    /// Makes the todo keyspace hold exactly `records`.
    pub fn save_todos(&mut self, records: &Vec<(Vec<u8>, Vec<u8>)>) -> (r: Result<(), RepositoryError>)
        requires
            storable_pairs(records@),
        ensures
            final(self).origins() == old(self).origins(),
            r is Ok ==> final(self).todos_contents() == entries_map(records@),
            r is Ok ==> final(self).users_contents() == old(self).users_contents(),
            r matches Err(e) ==> e is External,
    {
        sync_keyspace(&mut self.todo, records)
    }

    /// Writes the users to the user keyspace if they changed since they were
    /// last written, and marks them clean. `values` holds the encoding of
    /// each user, in the order of `entries`.
    pub fn commit_users(&mut self, users: &mut UserData, values: &Vec<Vec<u8>>) -> (r: Result<(), RepositoryError>)
        requires
            old(users).dirty_spec() ==> storable_records(old(users).entries(), values@),
        ensures
            final(self).origins() == old(self).origins(),
            final(users).entries() == old(users).entries(),
            final(self).todos_contents() == old(self).todos_contents(),
            !old(users).dirty_spec() ==> r is Ok && final(self).users_contents() == old(self).users_contents(),
            r is Ok ==> !final(users).dirty_spec(),
            old(users).dirty_spec() && r is Ok ==> final(self).users_contents() == records_map(old(users).entries(), values@),
            r is Err ==> final(users).dirty_spec(),
            r matches Err(e) ==> e is External,
    {
        commit_store(&mut self.user, users, values)
    }

    /// Writes the todos to the todo keyspace if they changed since they were
    /// last written, and marks them clean. `values` holds the encoding of
    /// each todo, in the order of `entries`.
    pub fn commit_todos(&mut self, todos: &mut TodoData, values: &Vec<Vec<u8>>) -> (r: Result<(), RepositoryError>)
        requires
            old(todos).dirty_spec() ==> storable_records(old(todos).entries(), values@),
        ensures
            final(self).origins() == old(self).origins(),
            final(todos).entries() == old(todos).entries(),
            final(self).users_contents() == old(self).users_contents(),
            !old(todos).dirty_spec() ==> r is Ok && final(self).todos_contents() == old(self).todos_contents(),
            r is Ok ==> !final(todos).dirty_spec(),
            old(todos).dirty_spec() && r is Ok ==> final(self).todos_contents() == records_map(old(todos).entries(), values@),
            r is Err ==> final(todos).dirty_spec(),
            r matches Err(e) ==> e is External,
    {
        commit_store(&mut self.todo, todos, values)
    }

    /// Writes the journal of the database to disk.
    pub fn flush(&self) -> (r: Result<(), RepositoryError>)
        ensures
            r matches Err(e) ==> e is External,
    {
        match persist_database(&self.db) {
            Ok(()) => Ok(()),
            Err(e) => Err(external(e)),
        }
    }
}

} // verus!
