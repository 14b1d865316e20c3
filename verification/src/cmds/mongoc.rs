//! `mongoc`: the parent of the other commands: it only prints help.

use crate::value::{Span, Value, ValueView};
use vstd::prelude::*;

verus! {

/// The parent of the other commands: it only prints help.
#[derive(Clone, Copy, Debug)]
pub struct MongoCmd;

impl MongoCmd {
    /// The name under which the shell calls the command.
    pub fn name(&self) -> (r: &'static str)
        ensures
            r@ == "mongoc"@,
    {
        "mongoc"
    }

    /// One line on what the command does.
    pub fn description(&self) -> (r: &'static str)
        ensures
            r@ == "Operate with mongodb"@,
    {
        "Operate with mongodb"
    }

    /// What the shell's help adds below the description.
    pub fn extra_description(&self) -> (r: &'static str)
        ensures
            r@ == "You must use one of the following subcommands. Using this command as-is will only produce this help message."@,
    {
        "You must use one of the following subcommands. Using this command as-is will only produce this help message."
    }

    /// What the command hands back to the shell: the help that the shell
    /// has written for it, at the place of the command.
    pub fn run(&self, help: String, head: Span) -> (v: Value)
        ensures
            v@ == (ValueView::String { val: help@, span: head }),
    {
        Value::String { val: help, span: head }
    }
}

} // verus!
