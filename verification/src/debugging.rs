//! Severity-keyed debug messages.

use vstd::prelude::*;
use vstd::string::StringExecFns;

verus! {

/// A debug message key: the severity together with the message text.
#[derive(Clone, Debug, PartialEq, Eq, Hash)]
pub enum DebugKey {
    Debug(String),
    Info(String),
    Warning(String),
    Fatal(String),
}

impl DebugKey {
    /// The severity label the key renders with.
    pub open spec fn spec_label(&self) -> Seq<char> {
        match *self {
            DebugKey::Debug(_) => "[DEBUG] "@,
            DebugKey::Info(_) => "[INFO] "@,
            DebugKey::Warning(_) => "[WARN] "@,
            DebugKey::Fatal(_) => "[FATAL] "@,
        }
    }

    /// The message text the key carries.
    pub open spec fn spec_text(&self) -> Seq<char> {
        match *self {
            DebugKey::Debug(msg) => msg@,
            DebugKey::Info(msg) => msg@,
            DebugKey::Warning(msg) => msg@,
            DebugKey::Fatal(msg) => msg@,
        }
    }

    /// The rendered message: the severity label followed by the text.
    pub fn message(&self) -> (r: String)
        ensures
            r@ == self.spec_label() + self.spec_text(),
    {
        match self {
            DebugKey::Debug(msg) => String::from_str("[DEBUG] ").concat(msg.as_str()),
            DebugKey::Info(msg) => String::from_str("[INFO] ").concat(msg.as_str()),
            DebugKey::Warning(msg) => String::from_str("[WARN] ").concat(msg.as_str()),
            DebugKey::Fatal(msg) => String::from_str("[FATAL] ").concat(msg.as_str()),
        }
    }
}

} // verus!
