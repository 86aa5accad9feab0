//! The commands that a frontend sends once the handshake is over.

use crate::format::PgFormat;
use crate::types::PgType;
use vstd::prelude::*;

verus! {

/// The model of a [`CommandMessage`]: strings are sequences of characters
/// and buffers are sequences of bytes.
pub enum CommandModel {
    Query { sql: Seq<char> },
    Parse { statement_name: Seq<char>, sql: Seq<char>, param_types: Seq<Option<PgType>> },
    DescribeStatement { name: Seq<char> },
    DescribePortal { name: Seq<char> },
    Bind {
        portal_name: Seq<char>,
        statement_name: Seq<char>,
        param_formats: Seq<PgFormat>,
        raw_params: Seq<Option<Seq<u8>>>,
        result_formats: Seq<PgFormat>,
    },
    Execute { portal_name: Seq<char>, max_rows: i32 },
    Flush,
    Sync,
    CloseStatement { name: Seq<char> },
    ClosePortal { name: Seq<char> },
    Terminate,
}

/// A message that a frontend sends while it talks to the server.
#[derive(Debug, PartialEq)]
pub enum CommandMessage {
    /// Execute the SQL. This is the simple query flow.
    Query {
        /// The SQL to execute.
        sql: String,
    },
    /// Parse the SQL into a prepared statement. This opens the extended
    /// query flow.
    Parse {
        /// The name of the prepared statement to create. An empty string
        /// names the unnamed prepared statement.
        statement_name: String,
        /// The SQL to parse.
        sql: String,
        /// The types of the parameters, as far as the client gave them.
        param_types: Vec<Option<PgType>>,
    },
    /// Describe a prepared statement.
    DescribeStatement {
        /// The name of the prepared statement.
        name: String,
    },
    /// Describe a portal.
    DescribePortal {
        /// The name of the portal.
        name: String,
    },
    /// Bind a prepared statement to a portal.
    Bind {
        /// The portal to create. An empty string names the unnamed portal.
        portal_name: String,
        /// The prepared statement to bind. An empty string names the
        /// unnamed prepared statement.
        statement_name: String,
        /// The formats in which the parameters are sent.
        param_formats: Vec<PgFormat>,
        /// The value of each parameter; none for `NULL`.
        raw_params: Vec<Option<Vec<u8>>>,
        /// The formats asked for the columns of the result.
        result_formats: Vec<PgFormat>,
    },
    /// Execute a bound portal.
    Execute {
        /// The name of the portal.
        portal_name: String,
        /// The number of rows to return before suspending; zero or less
        /// for all of them.
        max_rows: i32,
    },
    /// Send what is pending.
    Flush,
    /// End an extended query.
    Sync,
    /// Close a prepared statement.
    CloseStatement {
        /// The name of the prepared statement.
        name: String,
    },
    /// Close a portal.
    ClosePortal {
        /// The name of the portal.
        name: String,
    },
    /// End the connection.
    Terminate,
}

/// The model of a parameter value.
pub open spec fn raw_param_model(param: Option<Vec<u8>>) -> Option<Seq<u8>> {
    match param {
        Some(bytes) => Some(bytes@),
        None => None,
    }
}

impl View for CommandMessage {
    type V = CommandModel;

    open spec fn view(&self) -> CommandModel {
        match self {
            CommandMessage::Query { sql } => CommandModel::Query { sql: sql@ },
            CommandMessage::Parse { statement_name, sql, param_types } => CommandModel::Parse {
                statement_name: statement_name@,
                sql: sql@,
                param_types: param_types@,
            },
            CommandMessage::DescribeStatement { name } => CommandModel::DescribeStatement {
                name: name@,
            },
            CommandMessage::DescribePortal { name } => CommandModel::DescribePortal { name: name@ },
            CommandMessage::Bind {
                portal_name,
                statement_name,
                param_formats,
                raw_params,
                result_formats,
            } => CommandModel::Bind {
                portal_name: portal_name@,
                statement_name: statement_name@,
                param_formats: param_formats@,
                raw_params: raw_params@.map_values(|param: Option<Vec<u8>>| raw_param_model(param)),
                result_formats: result_formats@,
            },
            CommandMessage::Execute { portal_name, max_rows } => CommandModel::Execute {
                portal_name: portal_name@,
                max_rows: *max_rows,
            },
            CommandMessage::Flush => CommandModel::Flush,
            CommandMessage::Sync => CommandModel::Sync,
            CommandMessage::CloseStatement { name } => CommandModel::CloseStatement { name: name@ },
            CommandMessage::ClosePortal { name } => CommandModel::ClosePortal { name: name@ },
            CommandMessage::Terminate => CommandModel::Terminate,
        }
    }
}

} // verus!
