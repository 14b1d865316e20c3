//! The table of open connections.
//!
//! A connection is known by a small integer, its handle. One handle is the
//! current one: commands that name no handle work on it.

use crate::value::Span;
use mongodb::sync::{Client, Database};
use std::collections::HashMap;
use vstd::prelude::*;

verus! {

broadcast use vstd::std_specs::hash::group_hash_axioms;

/// A database of the driver. Nothing is known of what is inside one.
#[verifier::external_type_specification]
#[verifier::external_body]
pub struct ExDatabase(mongodb::sync::Database);

/// A client of the driver.
#[verifier::external_type_specification]
#[verifier::external_body]
pub struct ExClient(mongodb::sync::Client);

/// An error of the driver.
#[verifier::external_type_specification]
#[verifier::external_body]
pub struct ExDriverError(mongodb::error::Error);

/// What the user is told of a handle that no connection goes by.
pub const NO_SUCH_HANDLE: &'static str = "database handle doesn't exist";

/// The note at the place where such a handle stands.
pub const NO_SUCH_HANDLE_NOTE: &'static str = "not existed database handle";

/// What the user can do about such a handle.
pub const NO_SUCH_HANDLE_HELP: &'static str =
    "You can run `mongoc list` to list all available handles, or `mongoc open` to open a new handle";

/// What the user is told where no connection is open.
pub const NO_HANDLES: &'static str = "no database handles available";

/// What the user can do where no connection is open.
pub const NO_HANDLES_HELP: &'static str = "You can run `mongoc open` to open a new handle";

/// What the user is told of an address that names no database.
pub const NO_DEFAULT_DATABASE: &'static str = "No default database in connection url";

/// Why the table could not do what was asked.
#[derive(Debug, PartialEq, Eq)]
pub enum RegistryError {
    /// The address could not be read, or names no database.
    Connection { message: String },
    /// No connection goes by this handle.
    HandleNotFound { id: u8, span: Span },
    /// No connection is open.
    NoHandlesAvailable,
}

impl RegistryError {
    /// What went wrong, in a line.
    pub fn message(&self) -> (r: String)
        ensures
            r@ == match self {
                RegistryError::Connection { message } => message@,
                RegistryError::HandleNotFound { .. } => NO_SUCH_HANDLE@,
                RegistryError::NoHandlesAvailable => NO_HANDLES@,
            },
    {
        match self {
            RegistryError::Connection { message } => message.clone(),
            RegistryError::HandleNotFound { .. } => NO_SUCH_HANDLE.to_owned(),
            RegistryError::NoHandlesAvailable => NO_HANDLES.to_owned(),
        }
    }

    /// The note for the place in the user's text that the error is about,
    /// and that place, where there is one.
    pub fn label(&self) -> (r: Option<(&'static str, Span)>)
        ensures
            match self {
                RegistryError::HandleNotFound { id, span } => r matches Some(note) && note.0@
                    == NO_SUCH_HANDLE_NOTE@ && note.1 == span,
                _ => r is None,
            },
    {
        match self {
            RegistryError::HandleNotFound { id, span } => Some((NO_SUCH_HANDLE_NOTE, *span)),
            _ => None,
        }
    }

    /// What the user can do about it, where there is something.
    pub fn help(&self) -> (r: Option<&'static str>)
        ensures
            match self {
                RegistryError::Connection { .. } => r is None,
                RegistryError::HandleNotFound { .. } => r matches Some(advice) && advice@
                    == NO_SUCH_HANDLE_HELP@,
                RegistryError::NoHandlesAvailable => r matches Some(advice) && advice@
                    == NO_HANDLES_HELP@,
            },
    {
        match self {
            RegistryError::Connection { .. } => None,
            RegistryError::HandleNotFound { .. } => Some(NO_SUCH_HANDLE_HELP),
            RegistryError::NoHandlesAvailable => Some(NO_HANDLES_HELP),
        }
    }
}

/// What the table holds, as mathematics sees it: the connections by their
/// handles, each with the address it was opened from, and the current
/// handle.
pub ghost struct Registry {
    pub entries: Map<u8, (Database, Seq<char>)>,
    pub current: u8,
}

/// The highest of `keys` below `n`, or 0 where there is none.
pub open spec fn highest_below(keys: Set<u8>, n: nat) -> u8
    decreases n,
{
    if n == 0 {
        0
    } else if n <= 256 && keys.contains((n - 1) as u8) {
        (n - 1) as u8
    } else {
        highest_below(keys, (n - 1) as nat)
    }
}

/// The handles below `n` that `entries` holds, each with its address, in
/// rising order.
pub open spec fn listing(entries: Map<u8, (Database, Seq<char>)>, n: nat) -> Seq<(u8, Seq<char>)>
    decreases n,
{
    if n == 0 {
        Seq::empty()
    } else if n <= 256 && entries.contains_key((n - 1) as u8) {
        listing(entries, (n - 1) as nat).push(((n - 1) as u8, entries[(n - 1) as u8].1))
    } else {
        listing(entries, (n - 1) as nat)
    }
}

impl Registry {
    /// The table without connections.
    pub open spec fn empty() -> Registry {
        Registry { entries: Map::empty(), current: 0 }
    }

    /// Whether a connection goes by `id`.
    pub open spec fn has(self, id: u8) -> bool {
        self.entries.contains_key(id)
    }

    /// What holds of the table at all times: while a connection is open,
    /// the current handle is the handle of one.
    pub open spec fn valid(self) -> bool {
        &&& self.entries.dom().finite()
        &&& self.entries.dom().len() == 0 || self.has(self.current)
    }

    /// The handle that the next connection gets: the number of open
    /// connections.
    pub open spec fn next_id(self) -> u8 {
        (self.entries.dom().len() % 256) as u8
    }

    /// The table after a connection `db` to `uri` has been added: it goes
    /// by the next handle and is the current one.
    pub open spec fn connect(self, db: Database, uri: Seq<char>) -> Registry {
        Registry {
            entries: self.entries.insert(self.next_id(), (db, uri)),
            current: self.next_id(),
        }
    }

    /// The table after `id` has been chosen: it is the current handle if a
    /// connection goes by it, and nothing has changed if none does.
    pub open spec fn select(self, id: u8) -> Registry {
        if self.has(id) {
            Registry { current: id, ..self }
        } else {
            self
        }
    }

    /// The table after the connection `id` has been closed. Where it was
    /// the current one, the highest handle left becomes current, or 0 if
    /// none is left. Nothing has changed if no connection goes by `id`.
    pub open spec fn remove(self, id: u8) -> Registry {
        if self.has(id) {
            let left = self.entries.remove(id);
            Registry {
                entries: left,
                current: if self.current == id {
                    highest_below(left.dom(), 256)
                } else {
                    self.current
                },
            }
        } else {
            self
        }
    }

    /// The open connections by rising handle, each with its address.
    pub open spec fn list(self) -> Seq<(u8, Seq<char>)> {
        listing(self.entries, 256)
    }

    /// What the table answers when asked for the current handle: the
    /// handle, or, where no connection is open, that there is none.
    pub open spec fn current_handle(self) -> Result<u8, RegistryError> {
        if self.entries.dom().len() == 0 {
            Err(RegistryError::NoHandlesAvailable)
        } else {
            Ok(self.current)
        }
    }

    /// What the table answers when asked for the connection `id`: the
    /// connection, or that none goes by `id`, which the user wrote at
    /// `span`.
    pub open spec fn lookup(self, id: u8, span: Span) -> Result<Database, RegistryError> {
        if self.has(id) {
            Ok(self.entries[id].0)
        } else {
            Err(RegistryError::HandleNotFound { id, span })
        }
    }

    /// What the table answers when `id` is chosen or closed: that it is
    /// done, or that no connection goes by `id`, which the user wrote at
    /// `span`.
    pub open spec fn answer(self, id: u8, span: Span) -> Result<(), RegistryError> {
        if self.has(id) {
            Ok(())
        } else {
            Err(RegistryError::HandleNotFound { id, span })
        }
    }
}

/// Whether `shown` is the listing `list`: the same handles with the same
/// addresses, in the same order.
pub open spec fn shows(shown: Seq<(u8, String)>, list: Seq<(u8, Seq<char>)>) -> bool {
    &&& shown.len() == list.len()
    &&& forall|i: int|
        0 <= i < shown.len() ==> (#[trigger] shown[i]).0 == list[i].0 && shown[i].1@ == list[i].1
}

/// `highest_below` gives a key wherever there is one below `n`, and none
/// of the keys below `n` is higher.
pub proof fn lemma_highest_below(keys: Set<u8>, n: nat)
    requires
        n <= 256,
    ensures
        (exists|k: u8| k < n && keys.contains(k)) ==> keys.contains(highest_below(keys, n))
            && highest_below(keys, n) < n,
        forall|k: u8| k < n && keys.contains(k) ==> k <= highest_below(keys, n),
    decreases n,
{
    if n > 0 {
        lemma_highest_below(keys, (n - 1) as nat);
    }
}

/// The table of open connections.
pub struct Handle {
    inner: HashMap<u8, (Database, String)>,
    current: u8,
}

impl View for Handle {
    type V = Registry;

    closed spec fn view(&self) -> Registry {
        Registry {
            entries: Map::new(
                |id: u8| self.inner@.contains_key(id),
                |id: u8| (self.inner@[id].0, self.inner@[id].1@),
            ),
            current: self.current,
        }
    }
}

/// Makes a second reference to a database, with `Database::clone`.
/// Trusted: the clone stands for the same database as the one it was made
/// from, the two share what lies beneath them, and nothing tells them
/// apart.
#[verifier::external_body]
fn share(db: &Database) -> (r: Database)
    ensures
        r == *db,
{
    db.clone()
}

/// Opens a client with `mongodb::sync::Client::with_uri_str`. Nothing is
/// promised of the outcome: it depends on the address, and for some
/// addresses on what the name service answers.
#[verifier::external_body]
fn open_client(uri: &str) -> (r: Result<Client, mongodb::error::Error>) {
    Client::with_uri_str(uri)
}

/// Asks a client for its default database with
/// `mongodb::sync::Client::default_database`: the one that its address
/// names, if it names one.
#[verifier::external_body]
fn default_database(client: &Client) -> (r: Option<Database>) {
    client.default_database()
}

/// The text of a driver's error, as it displays itself.
#[verifier::external_body]
fn driver_error_text(error: &mongodb::error::Error) -> (r: String) {
    error.to_string()
}

/// What an attempt to open a connection comes to: the database that the
/// address names, or the reason why there is none.
pub fn opened(attempt: Result<Option<Database>, String>) -> (r: Result<Database, RegistryError>)
    ensures
        match attempt {
            Ok(Some(db)) => r == Ok::<Database, RegistryError>(db),
            Ok(None) => r matches Err(RegistryError::Connection { message }) && message@
                == NO_DEFAULT_DATABASE@,
            Err(text) => r == Err::<Database, RegistryError>(
                RegistryError::Connection { message: text },
            ),
        },
{
    match attempt {
        Ok(Some(db)) => Ok(db),
        Ok(None) => Err(RegistryError::Connection { message: NO_DEFAULT_DATABASE.to_owned() }),
        Err(message) => Err(RegistryError::Connection { message }),
    }
}

/// Opens the database that the address `uri` names. The driver decides
/// whether the address is good; where it is not, or names no database,
/// the error is a `Connection`.
pub fn open_database(uri: &str) -> (r: Result<Database, RegistryError>)
    ensures
        r matches Err(e) ==> e is Connection,
{
    let attempt = match open_client(uri) {
        Ok(client) => Ok(default_database(&client)),
        Err(error) => Err(driver_error_text(&error)),
    };
    opened(attempt)
}

impl Handle {
    /// What holds of every table: see [`Registry::valid`].
    pub open spec fn wf(&self) -> bool {
        self@.valid()
    }

    /// The table without connections.
    pub fn new() -> (h: Handle)
        ensures
            h@ == Registry::empty(),
            h.wf(),
    {
        let h = Handle { inner: HashMap::new(), current: 0 };
        assert(h@.entries =~= Map::empty());
        h
    }

    /// Adds a connection that has been opened from `uri`. It gets the
    /// number of open connections as its handle, taking the place of a
    /// connection that goes by that handle already, and becomes the
    /// current one.
    pub fn register(&mut self, db: Database, uri: String) -> (id: u8)
        ensures
            id == old(self)@.next_id(),
            final(self)@ == old(self)@.connect(db, uri@),
            final(self).wf(),
    {
        let count = self.inner.len();
        let id = (count % 256) as u8;
        proof {
            assert(self@.entries.dom() =~= self.inner@.dom());
        }
        self.inner.insert(id, (db, uri));
        self.current = id;
        proof {
            assert(self@.entries =~= old(self)@.entries.insert(id, (db, uri@)));
        }
        id
    }

    /// Opens a connection to `uri` and adds it. On failure the table is
    /// as before.
    pub fn connect(&mut self, uri: &str) -> (r: Result<u8, RegistryError>)
        ensures
            match r {
                Ok(id) => id == old(self)@.next_id() && exists|db: Database|
                    final(self)@ == old(self)@.connect(db, uri@),
                Err(e) => e is Connection && final(self)@ == old(self)@,
            },
            old(self).wf() ==> final(self).wf(),
    {
        match open_database(uri) {
            Ok(db) => Ok(self.register(db, uri.to_owned())),
            Err(e) => Err(e),
        }
    }

    /// The handle of the current connection.
    pub fn get_current(&self) -> (r: Result<u8, RegistryError>)
        ensures
            r == self@.current_handle(),
    {
        proof {
            assert(self@.entries.dom() =~= self.inner@.dom());
        }
        if self.inner.is_empty() {
            return Err(RegistryError::NoHandlesAvailable);
        }
        Ok(self.current)
    }

    /// The connection that goes by `id`.
    pub fn get_handle(&self, id: u8, span: Span) -> (r: Result<Database, RegistryError>)
        ensures
            r == self@.lookup(id, span),
    {
        match self.inner.get(&id) {
            Some(entry) => Ok(share(&entry.0)),
            None => Err(RegistryError::HandleNotFound { id, span }),
        }
    }

    /// Makes `id` the current handle.
    pub fn select_handle(&mut self, id: u8, span: Span) -> (r: Result<(), RegistryError>)
        ensures
            final(self)@ == old(self)@.select(id),
            !old(self)@.has(id) ==> final(self)@ == old(self)@,
            r == old(self)@.answer(id, span),
            old(self).wf() || old(self)@.has(id) ==> final(self).wf(),
    {
        if !self.inner.contains_key(&id) {
            return Err(RegistryError::HandleNotFound { id, span });
        }
        self.current = id;
        proof {
            assert(self@.entries.dom() =~= self.inner@.dom());
        }
        Ok(())
    }

    /// Closes the connection that goes by `id`. Where it was the current
    /// one, the highest handle left becomes current.
    pub fn remove_handle(&mut self, id: u8, span: Span) -> (r: Result<(), RegistryError>)
        ensures
            final(self)@ == old(self)@.remove(id),
            !old(self)@.has(id) ==> final(self)@ == old(self)@,
            r == old(self)@.answer(id, span),
            old(self).wf() ==> final(self).wf(),
    {
        match self.inner.remove(&id) {
            Some(_) => {},
            None => {
                proof {
                    assert(self@.entries =~= old(self)@.entries);
                }
                return Err(RegistryError::HandleNotFound { id, span });
            },
        }
        if self.current == id {
            self.current = self.max_id();
        }
        proof {
            assert(self@.entries =~= old(self)@.entries.remove(id));
            lemma_highest_below(self@.entries.dom(), 256);
            if old(self).wf() && old(self)@.current == id && self@.entries.dom().len() != 0 {
                lemma_some_key(self@.entries.dom());
            }
        }
        Ok(())
    }

    /// The highest handle in use, or 0 where no connection is open.
    fn max_id(&self) -> (id: u8)
        ensures
            id == highest_below(self@.entries.dom(), 256),
    {
        let mut n: u16 = 256;
        while n > 0
            invariant
                n <= 256,
                highest_below(self@.entries.dom(), 256) == highest_below(
                    self@.entries.dom(),
                    n as nat,
                ),
            decreases n,
        {
            let id = (n - 1) as u8;
            if self.inner.contains_key(&id) {
                return id;
            }
            n = n - 1;
        }
        0
    }

    /// The open connections by rising handle, each with the address it
    /// was opened from.
    pub fn list_handles(&self) -> (r: Vec<(u8, String)>)
        ensures
            shows(r@, self@.list()),
    {
        let mut result: Vec<(u8, String)> = Vec::new();
        let mut n: u16 = 0;
        while n < 256
            invariant
                n <= 256,
                result@.len() == listing(self@.entries, n as nat).len(),
                forall|i: int|
                    0 <= i < result@.len() ==> (#[trigger] result@[i]).0 == listing(
                        self@.entries,
                        n as nat,
                    )[i].0 && result@[i].1@ == listing(self@.entries, n as nat)[i].1,
            decreases 256 - n,
        {
            let id = n as u8;
            match self.inner.get(&id) {
                Some(entry) => {
                    result.push((id, entry.1.clone()));
                },
                None => {},
            }
            n = n + 1;
        }
        result
    }
}

/// A listing names every handle in use once, with its address, and no
/// other; its handles rise.
pub proof fn lemma_listing(entries: Map<u8, (Database, Seq<char>)>, n: nat)
    requires
        n <= 256,
    ensures
        forall|i: int|
            0 <= i < listing(entries, n).len() ==> {
                let item = #[trigger] listing(entries, n)[i];
                item.0 < n && entries.contains_key(item.0) && item.1 == entries[item.0].1
            },
        forall|i: int, j: int|
            0 <= i < j < listing(entries, n).len() ==> (#[trigger] listing(entries, n)[i]).0 < (
            #[trigger] listing(entries, n)[j]).0,
        forall|id: u8|
            id < n && entries.contains_key(id) ==> exists|i: int|
                0 <= i < listing(entries, n).len() && (#[trigger] listing(entries, n)[i]).0 == id,
    decreases n,
{
    if n > 0 {
        let before = listing(entries, (n - 1) as nat);
        let all = listing(entries, n);
        lemma_listing(entries, (n - 1) as nat);
        assert forall|id: u8| id < n && entries.contains_key(id) implies exists|i: int|
            0 <= i < all.len() && (#[trigger] all[i]).0 == id by {
            if id < n - 1 {
                let i = choose|i: int| 0 <= i < before.len() && (#[trigger] before[i]).0 == id;
                assert(all[i] == before[i]);
            } else {
                assert(all[all.len() - 1].0 == id);
            }
        }
    }
}

/// One change to the table.
pub ghost enum Step {
    /// A connection `db` to `uri` is added.
    Connect { db: Database, uri: Seq<char> },
    /// The connection `id` is closed, if there is one.
    Remove { id: u8 },
    /// The handle `id` is chosen, if a connection goes by it.
    Select { id: u8 },
}

impl Registry {
    /// The table after one change.
    pub open spec fn step(self, step: Step) -> Registry {
        match step {
            Step::Connect { db, uri } => self.connect(db, uri),
            Step::Remove { id } => self.remove(id),
            Step::Select { id } => self.select(id),
        }
    }

    /// The table after the changes `steps`, one after the other.
    pub open spec fn run(self, steps: Seq<Step>) -> Registry
        decreases steps.len(),
    {
        if steps.len() == 0 {
            self
        } else {
            self.run(steps.drop_last()).step(steps.last())
        }
    }

    /// The table after connections to `targets` have been added to the
    /// empty table, one after the other.
    pub open spec fn connected(targets: Seq<(Database, Seq<char>)>) -> Registry
        decreases targets.len(),
    {
        if targets.len() == 0 {
            Registry::empty()
        } else {
            Registry::connected(targets.drop_last()).connect(targets.last().0, targets.last().1)
        }
    }
}

/// Every change keeps the table valid: while a connection is open, the
/// current handle is the handle of one.
pub proof fn lemma_step_valid(table: Registry, step: Step)
    requires
        table.valid(),
    ensures
        table.step(step).valid(),
{
    match step {
        Step::Remove { id } => {
            if table.has(id) && table.current == id {
                let left = table.entries.remove(id);
                lemma_highest_below(left.dom(), 256);
                if left.dom().len() != 0 {
                    lemma_some_key(left.dom());
                }
            }
        },
        _ => {},
    }
}

/// The table without connections is valid, and after any changes to a
/// valid table, either no connection is open or the current handle is the
/// handle of one.
pub proof fn lemma_run_valid(table: Registry, steps: Seq<Step>)
    requires
        table.valid(),
    ensures
        table.run(steps).valid(),
        Registry::empty().valid(),
    decreases steps.len(),
{
    if steps.len() > 0 {
        lemma_run_valid(table, steps.drop_last());
        lemma_step_valid(table.run(steps.drop_last()), steps.last());
    }
}

/// After `n` connections have been added to the empty table, and none
/// closed, the handles in use are the `n` numbers from 0 to `n - 1`, and
/// the connection added as the `i`-th goes by `i`.
pub proof fn lemma_connected_handles(targets: Seq<(Database, Seq<char>)>)
    requires
        targets.len() <= 256,
    ensures
        Registry::connected(targets).entries.dom() =~= Set::new(|id: u8| id < targets.len()),
        Registry::connected(targets).entries.dom().finite(),
        Registry::connected(targets).entries.dom().len() == targets.len(),
        forall|i: int|
            0 <= i < targets.len() ==> Registry::connected(targets).entries[i as u8]
                == #[trigger] targets[i],
        forall|i: int|
            0 <= i < targets.len() ==> (#[trigger] Registry::connected(targets.take(i))).next_id()
                == i,
        targets.len() > 0 ==> Registry::connected(targets).current == targets.len() - 1,
    decreases targets.len(),
{
    let n = targets.len();
    if n > 0 {
        let before = targets.drop_last();
        lemma_connected_handles(before);
        let after = Registry::connected(targets);
        assert forall|i: int| 0 <= i < n implies after.entries[i as u8]
            == #[trigger] targets[i] by {
            if i < n - 1 {
                assert(before[i] == targets[i]);
            }
        }
        assert forall|i: int| 0 <= i < n implies (#[trigger] Registry::connected(
            targets.take(i),
        )).next_id() == i by {
            if i < n - 1 {
                assert(targets.take(i) =~= before.take(i));
            }
        }
    }
}

/// A handle that no connection goes by changes nothing when it is chosen
/// or closed.
pub proof fn lemma_absent_unchanged(table: Registry, id: u8)
    requires
        !table.has(id),
    ensures
        table.select(id) == table,
        table.remove(id) == table,
{
}

/// A finite set of handles that is not empty holds a handle.
pub proof fn lemma_some_key(keys: Set<u8>)
    requires
        keys.finite(),
        keys.len() != 0,
    ensures
        exists|k: u8| k < 256 && keys.contains(k),
{
    let k = keys.choose();
    assert(keys.contains(k));
}

} // verus!
