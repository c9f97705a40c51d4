//! The failure value of a checked computation and its message.

use vstd::prelude::*;
use vstd::string::*;

verus! {

/// Checked arithmetics error.
#[derive(Clone, Copy, Debug, PartialEq, Eq)]
pub struct Error {
    /// The text of the whole expression, one space between tokens.
    pub expr: &'static str,
    /// The offset in `expr` just behind the operator that has failed.
    pub __op_ix: usize,
    /// The number of characters of the operator that has failed.
    pub __op_len: usize,
}

impl Error {
    /// The offset in `expr` at which the failing operator starts: `__op_ix`
    /// less `__op_len`, and zero where that would be negative.
    pub open spec fn op_start(&self) -> int {
        if self.__op_ix >= self.__op_len {
            self.__op_ix - self.__op_len
        } else {
            0
        }
    }

    /// The operator lies within `expr`.
    pub open spec fn well_formed(&self) -> bool {
        self.op_start() + self.__op_len <= self.expr@.len()
    }

    /// The text before the failing operator.
    pub open spec fn prefix(&self) -> Seq<char> {
        self.expr@.subrange(0, self.op_start())
    }

    /// The text of the failing operator.
    pub open spec fn operator_text(&self) -> Seq<char> {
        self.expr@.subrange(self.op_start(), self.op_start() + self.__op_len)
    }

    /// The text behind the failing operator.
    pub open spec fn suffix(&self) -> Seq<char> {
        self.expr@.subrange(self.op_start() + self.__op_len, self.expr@.len() as int)
    }

    /// The message: the expression with the failing operator between markers.
    pub open spec fn message(&self) -> Seq<char> {
        "Failure in: "@ + self.prefix() + " 》"@ + self.operator_text() + "《 "@ + self.suffix()
    }

    /// Renders the message that points at the failing operator.
    pub fn to_string(&self) -> (text: String)
        requires
            self.well_formed(),
        ensures
            text@ == self.message(),
    {
        let total: usize = self.expr.unicode_len();
        let start: usize = if self.__op_ix >= self.__op_len {
            self.__op_ix - self.__op_len
        } else {
            0
        };
        let end: usize = start + self.__op_len;
        let mut text = String::from_str("Failure in: ");
        text.append(self.expr.substring_char(0, start));
        text.append(" 》");
        text.append(self.expr.substring_char(start, end));
        text.append("《 ");
        text.append(self.expr.substring_char(end, total));
        text
    }

    /// The three parts of the message's expression make up `expr` again.
    pub proof fn parts_rebuild_expr(&self)
        requires
            self.well_formed(),
        ensures
            self.prefix() + self.operator_text() + self.suffix() == self.expr@,
    {
        assert(self.prefix() + self.operator_text() + self.suffix() =~= self.expr@);
    }
}

} // verus!
