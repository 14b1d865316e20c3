//! `mongoc select`: makes a connection the current one.

use crate::handle::RegistryError;
use crate::plugin::{narrow, narrowed, MongoPlugin};
use crate::value::{Span, Spanned, Value, ValueView};
use vstd::prelude::*;

verus! {

/// Makes a connection the current one.
#[derive(Clone, Copy, Debug)]
pub struct Select;

impl Select {
    /// The name under which the shell calls the command.
    pub fn name(&self) -> (r: &'static str)
        ensures
            r@ == "mongoc select"@,
    {
        "mongoc select"
    }

    /// One line on what the command does.
    pub fn description(&self) -> (r: &'static str)
        ensures
            r@ == "select current mongodb handle"@,
    {
        "select current mongodb handle"
    }

    /// Makes current the connection that goes by the handle that the user wrote, and hands
    /// back nothing.
    pub fn run(&self, plugin: &MongoPlugin, handle_id: Spanned, head: Span) -> (r: Result<
        Value,
        RegistryError,
    >)
        ensures
            match r {
                Ok(v) => v@ == (ValueView::Nothing { span: head }),
                Err(e) => e == (RegistryError::HandleNotFound {
                    id: narrowed(handle_id.item),
                    span: handle_id.span,
                }),
            },
    {
        match plugin.select_handle(narrow(handle_id.item), handle_id.span) {
            Ok(()) => Ok(Value::Nothing { span: head }),
            Err(e) => Err(e),
        }
    }
}

} // verus!
