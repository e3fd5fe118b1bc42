//! `prism db`: arguments of the taxonomy database commands and their messages.

use vstd::prelude::*;

use crate::text::{decimal, decimal_string};

verus! {

/// Arguments for the db command: one of its subcommands.
#[derive(Debug, Clone)]
pub struct DbArgs {
    pub command: DbCommands,
}

/// The subcommands of `prism db`.
#[derive(Debug, Clone)]
pub enum DbCommands {
    /// Update the taxonomy database to the latest version.
    Update,
    /// Show taxonomy database statistics.
    Stats,
    /// Search the taxonomy for an error.
    Search {
        /// Search query (error name, category, or keyword).
        query: String,
    },
}

/// What a db subcommand line says.
#[verifier::ext_equal]
pub enum DbCommandsView {
    Update,
    Stats,
    Search { query: Seq<char> },
}

impl View for DbCommands {
    type V = DbCommandsView;

    open spec fn view(&self) -> DbCommandsView {
        match self {
            DbCommands::Update => DbCommandsView::Update,
            DbCommands::Stats => DbCommandsView::Stats,
            DbCommands::Search { query } => DbCommandsView::Search { query: query@ },
        }
    }
}

impl View for DbArgs {
    type V = DbCommandsView;

    open spec fn view(&self) -> DbCommandsView {
        self.command@
    }
}


/// What `prism db stats` prints for a database of `n` entries.
pub fn stats_message(entries: u64) -> (r: String)
    ensures
        r@ == "Taxonomy database: "@ + decimal(entries as nat) + " entries"@,
{
    let mut msg = "Taxonomy database: ".to_owned();
    let n = decimal_string(entries);
    msg.append(n.as_str());
    msg.append(" entries");
    msg
}

/// What `prism db search` prints before it searches.
pub fn search_message(query: &str) -> (r: String)
    ensures
        r@ == "Searching for: "@ + query@,
{
    let mut msg = "Searching for: ".to_owned();
    msg.append(query);
    msg
}

/// What `prism db update` prints once the database is reloaded.
pub fn updated_message(entries: u64) -> (r: String)
    ensures
        r@ == "📊 Database now contains "@ + decimal(entries as nat) + " error definitions"@,
{
    let mut msg = "📊 Database now contains ".to_owned();
    let n = decimal_string(entries);
    msg.append(n.as_str());
    msg.append(" error definitions");
    msg
}

} // verus!
