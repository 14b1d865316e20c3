//! `mongoc open`: opens a connection and makes it the current one.

use crate::handle::RegistryError;
use crate::plugin::MongoPlugin;
use crate::value::{Span, Value, ValueView};
use vstd::prelude::*;

verus! {

/// Opens a connection and makes it the current one.
#[derive(Clone, Copy, Debug)]
pub struct Open;

impl Open {
    /// The name under which the shell calls the command.
    pub fn name(&self) -> (r: &'static str)
        ensures
            r@ == "mongoc open"@,
    {
        "mongoc open"
    }

    /// One line on what the command does.
    pub fn description(&self) -> (r: &'static str)
        ensures
            r@ == "open mongodb connection, the url must contains default databse"@,
    {
        "open mongodb connection, the url must contains default databse"
    }

    /// What the command hands back to the shell: the new handle, at the
    /// place of the command.
    pub fn output(&self, id: u8, head: Span) -> (v: Value)
        ensures
            v@ == (ValueView::Int { val: id as i64, span: head }),
    {
        Value::Int { val: id as i64, span: head }
    }

    /// Opens a connection to `conn_str` and hands back its handle.
    pub fn run(&self, plugin: &MongoPlugin, conn_str: &str, head: Span) -> (r: Result<
        Value,
        RegistryError,
    >)
        ensures
            match r {
                Ok(v) => v@ matches ValueView::Int { val, span } && 0 <= val < 256 && span == head,
                Err(e) => e is Connection,
            },
    {
        match plugin.connect(conn_str) {
            Ok(id) => Ok(self.output(id, head)),
            Err(e) => Err(e),
        }
    }
}

} // verus!
