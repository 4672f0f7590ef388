//! Read-only projections of backend rows: databases, tables and columns.
//!
//! Each type carries a mathematical model (its view) with every text field
//! abstracted to its character sequence; the contracts of the codec and of
//! the metadata service speak of these models.

use vstd::prelude::*;

verus! {

/// One database, by name.
#[derive(Debug, PartialEq, Eq)]
pub struct DatabaseInfo {
    pub name: String,
}

/// One table: its name, the database that holds it, and its engine.
#[derive(Debug, PartialEq, Eq)]
pub struct TableInfo {
    pub name: String,
    pub database: String,
    pub engine: String,
}

/// One column of a table: its name and type, how its default value is
/// declared, its comment, and whether it takes part in the partition,
/// sorting, primary or sampling key (each flag 0 or 1 as the backend
/// reports it).
#[derive(Debug, PartialEq, Eq)]
pub struct ColumnInfo {
    pub name: String,
    pub column_type: String,
    pub default_type: String,
    pub default_expression: String,
    pub comment: String,
    pub is_in_partition_key: u8,
    pub is_in_sorting_key: u8,
    pub is_in_primary_key: u8,
    pub is_in_sampling_key: u8,
}

/// The model of a [`DatabaseInfo`].
pub struct DatabaseModel {
    pub name: Seq<char>,
}

/// The model of a [`TableInfo`].
pub struct TableModel {
    pub name: Seq<char>,
    pub database: Seq<char>,
    pub engine: Seq<char>,
}

/// The model of a [`ColumnInfo`].
pub struct ColumnModel {
    pub name: Seq<char>,
    pub column_type: Seq<char>,
    pub default_type: Seq<char>,
    pub default_expression: Seq<char>,
    pub comment: Seq<char>,
    pub is_in_partition_key: u8,
    pub is_in_sorting_key: u8,
    pub is_in_primary_key: u8,
    pub is_in_sampling_key: u8,
}

impl View for DatabaseInfo {
    type V = DatabaseModel;

    open spec fn view(&self) -> DatabaseModel {
        DatabaseModel { name: self.name@ }
    }
}

impl View for TableInfo {
    type V = TableModel;

    open spec fn view(&self) -> TableModel {
        TableModel { name: self.name@, database: self.database@, engine: self.engine@ }
    }
}

impl View for ColumnInfo {
    type V = ColumnModel;

    open spec fn view(&self) -> ColumnModel {
        ColumnModel {
            name: self.name@,
            column_type: self.column_type@,
            default_type: self.default_type@,
            default_expression: self.default_expression@,
            comment: self.comment@,
            is_in_partition_key: self.is_in_partition_key,
            is_in_sorting_key: self.is_in_sorting_key,
            is_in_primary_key: self.is_in_primary_key,
            is_in_sampling_key: self.is_in_sampling_key,
        }
    }
}

} // verus!
