//! The responder: classifies a trimmed command line by its leading keyword,
//! case-insensitively, and yields the fixed response block for its category.

use vstd::prelude::*;

use crate::text::{contains_ci, contains_ignore_case, starts_with_ci, starts_with_ignore_case};

verus! {

/// The category of a command, decided by its leading keyword.
#[derive(Clone, Copy, Debug, PartialEq, Eq)]
pub enum Command {
    /// Leading `SELECT`.
    Select,
    /// Leading `CREATE` with `TABLE` somewhere in the command.
    CreateTable,
    /// Leading `CREATE` without `TABLE`.
    Create,
    /// Leading `INSERT`.
    Insert,
    /// Leading `UPDATE`.
    Update,
    /// Leading `DELETE`.
    Delete,
    /// Leading `DROP`.
    Drop,
    /// Any other leading keyword.
    Other,
}

/// The category of a trimmed command line; the checks are ordered and the
/// first match wins.
pub open spec fn classify(s: Seq<char>) -> Command {
    if starts_with_ci(s, "select"@) {
        Command::Select
    } else if starts_with_ci(s, "create"@) {
        if contains_ci(s, "table"@) {
            Command::CreateTable
        } else {
            Command::Create
        }
    } else if starts_with_ci(s, "insert"@) {
        Command::Insert
    } else if starts_with_ci(s, "update"@) {
        Command::Update
    } else if starts_with_ci(s, "delete"@) {
        Command::Delete
    } else if starts_with_ci(s, "drop"@) {
        Command::Drop
    } else {
        Command::Other
    }
}

pub fn classify_command(cmd: &str) -> (c: Command)
    ensures
        c == classify(cmd@),
{
    if starts_with_ignore_case(cmd, "select") {
        Command::Select
    } else if starts_with_ignore_case(cmd, "create") {
        if contains_ignore_case(cmd, "table") {
            Command::CreateTable
        } else {
            Command::Create
        }
    } else if starts_with_ignore_case(cmd, "insert") {
        Command::Insert
    } else if starts_with_ignore_case(cmd, "update") {
        Command::Update
    } else if starts_with_ignore_case(cmd, "delete") {
        Command::Delete
    } else if starts_with_ignore_case(cmd, "drop") {
        Command::Drop
    } else {
        Command::Other
    }
}

/// The fixed response block for each category. The `Select` block is the
/// canned two-row table followed by its row-count summary line.
pub open spec fn response(c: Command) -> Seq<char> {
    match c {
        Command::Select => "| id | name  | age | email           |\n|----|-------|-----|-----------------|\n| 1  | Alice | 30  | alice@email.com |\n| 2  | Bob   | 25  | bob@email.com   |\n2 rows returned."@,
        Command::CreateTable => "Table 'test' created successfully."@,
        Command::Create => "Created successfully."@,
        Command::Insert => "1 row inserted."@,
        Command::Update => "Rows updated."@,
        Command::Delete => "Rows deleted."@,
        Command::Drop => "Dropped successfully."@,
        Command::Other => "Query executed."@,
    }
}

pub fn response_text(c: Command) -> (r: &'static str)
    ensures
        r@ == response(c),
{
    match c {
        Command::Select => "| id | name  | age | email           |\n|----|-------|-----|-----------------|\n| 1  | Alice | 30  | alice@email.com |\n| 2  | Bob   | 25  | bob@email.com   |\n2 rows returned.",
        Command::CreateTable => "Table 'test' created successfully.",
        Command::Create => "Created successfully.",
        Command::Insert => "1 row inserted.",
        Command::Update => "Rows updated.",
        Command::Delete => "Rows deleted.",
        Command::Drop => "Dropped successfully.",
        Command::Other => "Query executed.",
    }
}

} // verus!
