use crate::domain::tickets::ticket_row::{RowView, TicketRow};
use std::collections::HashMap;
use vstd::prelude::*;

verus! {

/// The message of a first write whose identifier is taken.
pub open spec fn duplicate_message() -> Seq<char> {
    "duplicate key value violates unique constraint"@
}

/// The message of a conditional write whose version cannot go up any more.
pub open spec fn version_message() -> Seq<char> {
    "version out of range"@
}

/// The row that a conditional write leaves behind: the values that were sent, with the
/// version one higher.
pub open spec fn bumped(row: RowView) -> RowView {
    RowView { version: row.version + 1, ..row }
}

/// A table of ticket rows kept in memory, with the three statements that the
/// repository needs. A row is filed under its identifier.
pub struct MemoryTable {
    rows: HashMap<u128, TicketRow>,
}

impl View for MemoryTable {
    type V = Map<u128, RowView>;

    closed spec fn view(&self) -> Map<u128, RowView> {
        self.rows@.map_values(|row: TicketRow| row@)
    }
}

impl Clone for MemoryTable {
    fn clone(&self) -> (r: Self)
        ensures
            r@ == self@,
    {
        MemoryTable { rows: self.rows.clone() }
    }
}

impl MemoryTable {
    pub fn new() -> (r: Self)
        ensures
            r@ == Map::<u128, RowView>::empty(),
    {
        let table = MemoryTable { rows: HashMap::new() };
        assert(table@ =~= Map::<u128, RowView>::empty());
        table
    }

    /// The number of rows.
    pub fn len(&self) -> (r: usize)
        ensures
            r == self@.len(),
    {
        assert(self@.dom() =~= self.rows@.dom());
        self.rows.len()
    }

    /// The row with this identifier, if there is one.
    pub fn select(&self, id: u128) -> (r: Option<TicketRow>)
        ensures
            match r {
                Some(row) => self@.contains_key(id) && row.id == id && self@[id] == row@,
                None => !self@.contains_key(id),
            },
    {
        broadcast use vstd::std_specs::hash::group_hash_axioms;

        match self.rows.get(&id) {
            Some(stored) => Some(
                TicketRow {
                    id,
                    title: stored.title.clone(),
                    description: stored.description.clone(),
                    status: stored.status.clone(),
                    assignee: stored.assignee,
                    version: stored.version,
                },
            ),
            None => None,
        }
    }

    /// Adds a row. Where its identifier is taken, nothing is added and the statement
    /// fails; else one row is affected.
    pub fn insert(&mut self, row: TicketRow) -> (r: Result<u64, String>)
        ensures
            match r {
                Ok(rows_affected) => {
                    &&& rows_affected == 1
                    &&& !old(self)@.contains_key(row.id)
                    &&& final(self)@ == old(self)@.insert(row.id, row@)
                },
                Err(message) => {
                    &&& old(self)@.contains_key(row.id)
                    &&& final(self)@ == old(self)@
                    &&& message@ == duplicate_message()
                },
            },
    {
        broadcast use vstd::std_specs::hash::group_hash_axioms;

        if self.rows.contains_key(&row.id) {
            return Err("duplicate key value violates unique constraint".to_owned());
        }
        let ghost id = row.id;
        let ghost view = row@;
        self.rows.insert(row.id, row);
        assert(self@ =~= old(self)@.insert(id, view));
        Ok(1)
    }

    /// Overwrites the row that has the identifier and the version of `row` with the
    /// values of `row`, and raises its version by one. Where no row matches, none is
    /// affected. Where the version cannot go up, the statement fails.
    pub fn update(&mut self, row: TicketRow) -> (r: Result<u64, String>)
        ensures
            r is Err <==> old(self)@.contains_key(row.id) && old(self)@[row.id].version
                == row.version && row.version == i64::MAX,
            match r {
                Ok(rows_affected) => if old(self)@.contains_key(row.id) && old(self)@[row.id].version
                    == row.version {
                    &&& rows_affected == 1
                    &&& final(self)@ == old(self)@.insert(row.id, bumped(row@))
                } else {
                    &&& rows_affected == 0
                    &&& final(self)@ == old(self)@
                },
                Err(message) => final(self)@ == old(self)@ && message@ == version_message(),
            },
    {
        broadcast use vstd::std_specs::hash::group_hash_axioms;

        let matches = match self.rows.get(&row.id) {
            Some(stored) => stored.version == row.version,
            None => false,
        };
        if !matches {
            return Ok(0);
        }
        if row.version == i64::MAX {
            return Err("version out of range".to_owned());
        }
        let mut row = row;
        let ghost sent = row@;
        row.version = row.version + 1;
        let ghost id = row.id;
        let ghost view = row@;
        self.rows.insert(row.id, row);
        assert(view == bumped(sent));
        assert(self@ =~= old(self)@.insert(id, view));
        Ok(1)
    }
}

} // verus!
