//! The plugin: the table of open connections behind a lock, so that
//! commands running at the same time see and change it one at a time.

use crate::handle::{lemma_listing, open_database, shows, Handle, Registry, RegistryError};
use crate::value::{Span, Spanned};
use mongodb::sync::Database;
use vstd::prelude::*;
use vstd::rwlock::{RwLock, RwLockPredicate};

verus! {

/// What the lock keeps of the table it guards: that it is well formed.
pub struct TableInv;

impl RwLockPredicate<Handle> for TableInv {
    open spec fn inv(self, table: Handle) -> bool {
        table.wf()
    }
}

/// The plugin's state: the open connections and the current handle. Every
/// method takes the lock once, for the whole of what it reads or changes,
/// so that no command sees a table half changed. Whatever table a method
/// finds under the lock is well formed, and so is the one it leaves.
///
/// Between two calls another command may have changed the table, so no
/// caller can say which table a method will find. What a method promises
/// is therefore said of the table it finds: there is a valid table of
/// which the result is the answer.
pub struct MongoPlugin {
    handlers: RwLock<Handle, TableInv>,
}

impl Default for MongoPlugin {
    fn default() -> (plugin: MongoPlugin) {
        MongoPlugin::new()
    }
}

/// The handle that a number written by the user stands for: its lowest
/// eight bits.
pub open spec fn narrowed(item: i64) -> u8 {
    (item % 256) as u8
}

/// The handle that a number written by the user stands for.
pub fn narrow(item: i64) -> (id: u8)
    ensures
        id == narrowed(item),
{
    let low: i64 = item & 0xff;
    assert(0 <= low < 256 && low == item % 256) by (bit_vector)
        requires
            low == item & 0xff,
    ;
    low as u8
}

impl MongoPlugin {
    /// A plugin without connections.
    pub fn new() -> (plugin: MongoPlugin) {
        MongoPlugin { handlers: RwLock::new(Handle::new(), Ghost(TableInv)) }
    }

    /// Opens a connection to `conn_str`, adds it under the next handle and
    /// makes it current. The connection is opened before the lock is
    /// taken. The handle given is the next handle of the table found;
    /// where the driver does not open the connection, the table is not
    /// touched.
    pub fn connect(&self, conn_str: &str) -> (r: Result<u8, RegistryError>)
        ensures
            match r {
                Ok(id) => exists|table: Registry| table.valid() && id == table.next_id(),
                Err(e) => e is Connection,
            },
    {
        match open_database(conn_str) {
            Err(e) => Err(e),
            Ok(db) => {
                let (mut table, guard) = self.handlers.acquire_write();
                let ghost found = table@;
                let id = table.register(db, conn_str.to_owned());
                guard.release_write(table);
                assert(found.valid() && id == found.next_id());
                Ok(id)
            },
        }
    }

    /// The open connections of the table found, by rising handle, each
    /// with its address.
    pub fn list_handles(&self) -> (r: Vec<(u8, String)>)
        ensures
            exists|table: Registry| table.valid() && shows(r@, table.list()),
            forall|i: int, j: int|
                0 <= i < j < r@.len() ==> (#[trigger] r@[i]).0 < (#[trigger] r@[j]).0,
    {
        let guard = self.handlers.acquire_read();
        let ghost found = guard.view()@;
        let result = guard.borrow().list_handles();
        proof {
            lemma_listing(found.entries, 256);
            assert(found.valid() && shows(result@, found.list()));
        }
        guard.release_read();
        result
    }

    /// The connection that goes by `id` in the table found, or that none
    /// does.
    pub fn get_handle(&self, id: u8, span: Span) -> (r: Result<Database, RegistryError>)
        ensures
            exists|table: Registry| table.valid() && r == table.lookup(id, span),
    {
        let guard = self.handlers.acquire_read();
        let ghost found = guard.view()@;
        let result = guard.borrow().get_handle(id, span);
        guard.release_read();
        assert(found.valid() && result == found.lookup(id, span));
        result
    }

    /// Closes the connection that goes by `id` in the table found, and
    /// leaves the table without it; says so where none goes by `id`, and
    /// leaves the table as it was.
    pub fn remove_handle(&self, id: u8, span: Span) -> (r: Result<(), RegistryError>)
        ensures
            exists|table: Registry| table.valid() && r == table.answer(id, span),
    {
        let (mut table, guard) = self.handlers.acquire_write();
        let ghost found = table@;
        let result = table.remove_handle(id, span);
        guard.release_write(table);
        assert(found.valid() && result == found.answer(id, span));
        result
    }

    /// Makes `id` the current handle of the table found; says so where no
    /// connection goes by `id`, and leaves the table as it was.
    pub fn select_handle(&self, id: u8, span: Span) -> (r: Result<(), RegistryError>)
        ensures
            exists|table: Registry| table.valid() && r == table.answer(id, span),
    {
        let (mut table, guard) = self.handlers.acquire_write();
        let ghost found = table@;
        let result = table.select_handle(id, span);
        guard.release_write(table);
        assert(found.valid() && result == found.answer(id, span));
        result
    }

    /// The connection that a command works on: the one that goes by the
    /// handle given with the command, or by the current handle where the
    /// command names none. `head` is the place of the command itself, to
    /// which an error about the current handle points. The current handle
    /// is asked for first and looked up then, and the table may have
    /// changed in between.
    pub fn database(&self, db_handle: Option<Spanned>, head: Span) -> (r: Result<
        Database,
        RegistryError,
    >)
        ensures
            match db_handle {
                Some(chosen) => exists|table: Registry|
                    table.valid() && r == table.lookup(narrowed(chosen.item), chosen.span),
                None => exists|first: Registry, later: Registry|
                    first.valid() && later.valid() && r == match first.current_handle() {
                        Ok(id) => later.lookup(id, head),
                        Err(e) => Err(e),
                    },
            },
    {
        match db_handle {
            None => match self.get_current() {
                Ok(id) => self.get_handle(id, head),
                Err(e) => Err(e),
            },
            Some(chosen) => self.get_handle(narrow(chosen.item), chosen.span),
        }
    }

    /// The current handle of the table found, or that no connection is
    /// open.
    pub fn get_current(&self) -> (r: Result<u8, RegistryError>)
        ensures
            exists|table: Registry| table.valid() && r == table.current_handle(),
    {
        let guard = self.handlers.acquire_read();
        let ghost found = guard.view()@;
        let result = guard.borrow().get_current();
        guard.release_read();
        assert(found.valid() && result == found.current_handle());
        result
    }
}

} // verus!
