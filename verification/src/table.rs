//! Statement renderers for one table's maintenance operations: index and
//! column changes, duplicate checks, row counts and truncation. Each method
//! returns the exact statement text; dispatching it over a session is the
//! caller's business.

use vstd::prelude::*;

verus! {

/// One fully qualified table: the target of the maintenance statements.
pub struct Table {
    pub table_name: String,
    pub keyspace_name: String,
}

impl Table {
    /// A handle on `keyspace_name.table_name`.
    pub fn new(table_name: String, keyspace_name: String) -> (r: Self)
        ensures
            r.table_name@ == table_name@,
            r.keyspace_name@ == keyspace_name@,
    {
        Table { table_name, keyspace_name }
    }

    /// The statement creating an index on the given column.
    pub fn create_index(&self, index_name: &str, column_name: &str) -> (r: String)
        ensures
            r@ == "CREATE INDEX IF NOT EXISTS "@ + index_name@ + " ON "@ + self.keyspace_name@
                + "."@ + self.table_name@ + " ("@ + column_name@ + ")"@,
    {
        let mut q = String::new();
        q.append("CREATE INDEX IF NOT EXISTS ");
        q.append(index_name);
        q.append(" ON ");
        q.append(self.keyspace_name.as_str());
        q.append(".");
        q.append(self.table_name.as_str());
        q.append(" (");
        q.append(column_name);
        q.append(")");
        assert(q@ =~= "CREATE INDEX IF NOT EXISTS "@ + index_name@ + " ON "@
            + self.keyspace_name@ + "."@ + self.table_name@ + " ("@ + column_name@ + ")"@);
        q
    }

    /// The statement dropping an index of this keyspace.
    pub fn drop_index(&self, index_name: &str) -> (r: String)
        ensures
            r@ == "DROP INDEX IF EXISTS "@ + self.keyspace_name@ + "."@ + index_name@,
    {
        let mut q = String::new();
        q.append("DROP INDEX IF EXISTS ");
        q.append(self.keyspace_name.as_str());
        q.append(".");
        q.append(index_name);
        assert(q@ =~= "DROP INDEX IF EXISTS "@ + self.keyspace_name@ + "."@ + index_name@);
        q
    }

    /// The statement adding a column of the given datatype.
    pub fn create_column(&self, column_name: &str, column_datatype: &str) -> (r: String)
        ensures
            r@ == "ALTER TABLE "@ + self.keyspace_name@ + "."@ + self.table_name@ + " ADD "@
                + column_name@ + " "@ + column_datatype@,
    {
        let mut q = String::new();
        q.append("ALTER TABLE ");
        q.append(self.keyspace_name.as_str());
        q.append(".");
        q.append(self.table_name.as_str());
        q.append(" ADD ");
        q.append(column_name);
        q.append(" ");
        q.append(column_datatype);
        assert(q@ =~= "ALTER TABLE "@ + self.keyspace_name@ + "."@ + self.table_name@ + " ADD "@
            + column_name@ + " "@ + column_datatype@);
        q
    }

    /// The statement removing a column.
    pub fn delete_column(&self, column_name: &str) -> (r: String)
        ensures
            r@ == "ALTER TABLE "@ + self.keyspace_name@ + "."@ + self.table_name@ + " DROP "@
                + column_name@,
    {
        let mut q = String::new();
        q.append("ALTER TABLE ");
        q.append(self.keyspace_name.as_str());
        q.append(".");
        q.append(self.table_name.as_str());
        q.append(" DROP ");
        q.append(column_name);
        assert(q@ =~= "ALTER TABLE "@ + self.keyspace_name@ + "."@ + self.table_name@ + " DROP "@
            + column_name@);
        q
    }

    /// The statement grouping a column's values and keeping the groups that
    /// hold more than one row. Its result feeds [`duplicates_found`].
    pub fn check_duplicates(&self, column_name: &str) -> (r: String)
        ensures
            r@ == "SELECT "@ + column_name@ + ", COUNT(*) FROM "@ + self.keyspace_name@ + "."@
                + self.table_name@ + " GROUP BY "@ + column_name@ + " HAVING COUNT(*) > 1"@,
    {
        let mut q = String::new();
        q.append("SELECT ");
        q.append(column_name);
        q.append(", COUNT(*) FROM ");
        q.append(self.keyspace_name.as_str());
        q.append(".");
        q.append(self.table_name.as_str());
        q.append(" GROUP BY ");
        q.append(column_name);
        q.append(" HAVING COUNT(*) > 1");
        assert(q@ =~= "SELECT "@ + column_name@ + ", COUNT(*) FROM "@ + self.keyspace_name@
            + "."@ + self.table_name@ + " GROUP BY "@ + column_name@ + " HAVING COUNT(*) > 1"@);
        q
    }

    /// The statement counting this table's rows.
    pub fn count_rows(&self) -> (r: String)
        ensures
            r@ == "SELECT COUNT(*) FROM "@ + self.keyspace_name@ + "."@ + self.table_name@,
    {
        let mut q = String::new();
        q.append("SELECT COUNT(*) FROM ");
        q.append(self.keyspace_name.as_str());
        q.append(".");
        q.append(self.table_name.as_str());
        assert(q@ =~= "SELECT COUNT(*) FROM "@ + self.keyspace_name@ + "."@ + self.table_name@);
        q
    }

    /// The statement truncating this table.
    pub fn truncate_table(&self) -> (r: String)
        ensures
            r@ == "TRUNCATE TABLE "@ + self.keyspace_name@ + "."@ + self.table_name@,
    {
        let mut q = String::new();
        q.append("TRUNCATE TABLE ");
        q.append(self.keyspace_name.as_str());
        q.append(".");
        q.append(self.table_name.as_str());
        assert(q@ =~= "TRUNCATE TABLE "@ + self.keyspace_name@ + "."@ + self.table_name@);
        q
    }
}

/// How a duplicate check reads the row count that its statement returned:
/// more than one group row means a duplicated value.
pub fn duplicates_found(rows_count: usize) -> (r: bool)
    ensures
        r == (rows_count > 1),
{
    rows_count > 1
}

} // verus!
