//! The database under the queue, as far as the queue needs one: a place
//! where the table of the queue is, or is not yet.

use vstd::prelude::*;

use crate::error::Error;
use crate::table::{JobTable, TableView};

verus! {

/// The message of the error of a call that finds no table.
pub open spec fn missing_table_message() -> Seq<char> {
    "relation \"pg_loco_queue\" does not exist"@
}

/// The mathematical value of a [`Database`]: the table of the queue, where
/// it was created.
pub struct DatabaseView {
    pub table: Option<TableView>,
}

impl DatabaseView {
    /// The table, where there is one, holds valid rows.
    pub open spec fn wf(self) -> bool {
        match self.table {
            Some(table) => table.wf(),
            None => true,
        }
    }

    /// The database after the table of the queue was created where it was
    /// not there: a table that is there stays as it is, rows and all.
    pub open spec fn initialize_database(self) -> DatabaseView {
        match self.table {
            Some(_) => self,
            None => DatabaseView { table: Some(TableView { rows: Seq::empty(), clock: i64::MIN }) },
        }
    }
}

/// Idempotent initialization: creating the table twice leaves what creating
/// it once leaves, and creating it where it is leaves everything as it was.
pub proof fn lemma_initialize_is_idempotent(database: DatabaseView)
    ensures
        database.initialize_database().table is Some,
        database.initialize_database().initialize_database() == database.initialize_database(),
        database.table is Some ==> database.initialize_database() == database,
        database.wf() ==> database.initialize_database().wf(),
{
}

/// A database in memory.
#[derive(Debug)]
pub struct Database {
    table: Option<JobTable>,
}

impl View for Database {
    type V = DatabaseView;

    closed spec fn view(&self) -> DatabaseView {
        DatabaseView {
            table: match self.table {
                Some(table) => Some(table@),
                None => None,
            },
        }
    }
}

impl Database {
    /// The table, where there is one, holds valid rows.
    pub open spec fn wf(&self) -> bool {
        self@.wf()
    }

    /// A database without the table of the queue.
    pub fn new() -> (database: Database)
        ensures
            database@.table is None,
            database.wf(),
    {
        Database { table: None }
    }

    /// Creates the table of the queue where it is not there yet.
    pub fn initialize_database(&mut self)
        requires
            old(self).wf(),
        ensures
            final(self).wf(),
            final(self)@ == old(self)@.initialize_database(),
    {
        if self.table.is_none() {
            let table = JobTable::new();
            assert(table@.rows =~= Seq::empty());
            self.table = Some(table);
        }
    }

    /// Confirms that the table of the queue can be reached.
    pub fn ping(&self) -> (reached: Result<(), Error>)
        ensures
            match reached {
                Ok(()) => self@.table is Some,
                Err(e) => self@.table is None && e@ == missing_table_message(),
            },
    {
        if self.table.is_some() {
            Ok(())
        } else {
            Err(Error::string("relation \"pg_loco_queue\" does not exist"))
        }
    }

    /// The table of the queue, to work on, where it was created.
    pub fn table(&mut self) -> (table: Option<&mut JobTable>)
        requires
            old(self).wf(),
        ensures
            match table {
                Some(t) => old(self)@.table == Some(t@) && t.wf() && final(self)@.table == Some(
                    final(t)@,
                ),
                None => old(self)@.table is None && final(self)@.table is None,
            },
    {
        self.table.as_mut()
    }
}

} // verus!
