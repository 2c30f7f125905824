//! The tools this manager knows how to install and dispatch to.

use vstd::prelude::*;
use crate::text::{eq_ascii_fold, eq_ignore_ascii_case};

verus! {

/// A managed tool.
#[derive(Debug, Clone, Copy, PartialEq, Eq, Structural)]
pub enum Tool {
    Node,
    Java,
    Python,
    MySql,
    MariaDb,
    Redis,
}

impl Tool {
    /// The canonical lower-case name of the tool.
    pub open spec fn spec_name(self) -> Seq<char> {
        match self {
            Tool::Node => seq!['n', 'o', 'd', 'e'],
            Tool::Java => seq!['j', 'a', 'v', 'a'],
            Tool::Python => seq!['p', 'y', 't', 'h', 'o', 'n'],
            Tool::MySql => seq!['m', 'y', 's', 'q', 'l'],
            Tool::MariaDb => seq!['m', 'a', 'r', 'i', 'a', 'd', 'b'],
            Tool::Redis => seq!['r', 'e', 'd', 'i', 's'],
        }
    }

    /// The tool whose name equals `s` up to ASCII case, if any.
    pub open spec fn spec_from_name(s: Seq<char>) -> Option<Tool> {
        if eq_ascii_fold(s, Tool::Node.spec_name()) {
            Some(Tool::Node)
        } else if eq_ascii_fold(s, Tool::Java.spec_name()) {
            Some(Tool::Java)
        } else if eq_ascii_fold(s, Tool::Python.spec_name()) {
            Some(Tool::Python)
        } else if eq_ascii_fold(s, Tool::MySql.spec_name()) {
            Some(Tool::MySql)
        } else if eq_ascii_fold(s, Tool::MariaDb.spec_name()) {
            Some(Tool::MariaDb)
        } else if eq_ascii_fold(s, Tool::Redis.spec_name()) {
            Some(Tool::Redis)
        } else {
            None
        }
    }

    /// Parses a tool name; the comparison ignores ASCII case.
    pub fn from_str(s: &str) -> (r: Option<Tool>)
        ensures
            r == Tool::spec_from_name(s@),
    {
        if eq_ignore_ascii_case(s, Tool::Node.name()) {
            Some(Tool::Node)
        } else if eq_ignore_ascii_case(s, Tool::Java.name()) {
            Some(Tool::Java)
        } else if eq_ignore_ascii_case(s, Tool::Python.name()) {
            Some(Tool::Python)
        } else if eq_ignore_ascii_case(s, Tool::MySql.name()) {
            Some(Tool::MySql)
        } else if eq_ignore_ascii_case(s, Tool::MariaDb.name()) {
            Some(Tool::MariaDb)
        } else if eq_ignore_ascii_case(s, Tool::Redis.name()) {
            Some(Tool::Redis)
        } else {
            None
        }
    }

    /// The canonical lower-case name of the tool.
    pub fn name(&self) -> (r: &'static str)
        ensures
            r@ == self.spec_name(),
    {
        proof {
            reveal_strlit("node");
            reveal_strlit("java");
            reveal_strlit("python");
            reveal_strlit("mysql");
            reveal_strlit("mariadb");
            reveal_strlit("redis");
        }
        match self {
            Tool::Node => "node",
            Tool::Java => "java",
            Tool::Python => "python",
            Tool::MySql => "mysql",
            Tool::MariaDb => "mariadb",
            Tool::Redis => "redis",
        }
    }
}

/// Every name a tool answers to is recognised again by `from_str`.
pub proof fn lemma_name_round_trip(t: Tool)
    ensures
        Tool::spec_from_name(t.spec_name()) == Some(t),
{
    assert(eq_ascii_fold(t.spec_name(), t.spec_name()));
}

} // verus!
