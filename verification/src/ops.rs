//! The operators of an expression and the checked primitives that stand for
//! the arithmetic ones.

use vstd::prelude::*;
use crate::text::same_text;

verus! {

/// A binary operator of the surface syntax.
#[derive(Clone, Copy, Debug, PartialEq, Eq, Structural)]
pub enum BinOp {
    Add,
    Sub,
    Mul,
    Div,
    Rem,
    And,
    Or,
    BitXor,
    BitAnd,
    BitOr,
    Shl,
    Shr,
    Eq,
    Lt,
    Le,
    Ne,
    Ge,
    Gt,
    AddAssign,
    SubAssign,
    MulAssign,
    DivAssign,
    RemAssign,
    BitXorAssign,
    BitAndAssign,
    BitOrAssign,
    ShlAssign,
    ShrAssign,
}

/// A unary operator of the surface syntax.
#[derive(Clone, Copy, Debug, PartialEq, Eq, Structural)]
pub enum UnOp {
    Neg,
    Not,
    Deref,
}

/// A checked primitive with two operands. Each reports failure in place of
/// wrapping or panicking.
#[derive(Clone, Copy, Debug, PartialEq, Eq, Structural)]
pub enum Primitive {
    Add,
    Sub,
    Mul,
    Div,
    Rem,
    /// Exponentiation. The surface operator `^` stands for it: bitwise xor
    /// cannot be written in a checked expression.
    Pow,
    Shl,
    Shr,
}

impl BinOp {
    /// The operator's token.
    pub open spec fn token(self) -> Seq<char> {
        match self {
            BinOp::Add => "+"@,
            BinOp::Sub => "-"@,
            BinOp::Mul => "*"@,
            BinOp::Div => "/"@,
            BinOp::Rem => "%"@,
            BinOp::And => "&&"@,
            BinOp::Or => "||"@,
            BinOp::BitXor => "^"@,
            BinOp::BitAnd => "&"@,
            BinOp::BitOr => "|"@,
            BinOp::Shl => "<<"@,
            BinOp::Shr => ">>"@,
            BinOp::Eq => "=="@,
            BinOp::Lt => "<"@,
            BinOp::Le => "<="@,
            BinOp::Ne => "!="@,
            BinOp::Ge => ">="@,
            BinOp::Gt => ">"@,
            BinOp::AddAssign => "+="@,
            BinOp::SubAssign => "-="@,
            BinOp::MulAssign => "*="@,
            BinOp::DivAssign => "/="@,
            BinOp::RemAssign => "%="@,
            BinOp::BitXorAssign => "^="@,
            BinOp::BitAndAssign => "&="@,
            BinOp::BitOrAssign => "|="@,
            BinOp::ShlAssign => "<<="@,
            BinOp::ShrAssign => ">>="@,
        }
    }

    /// The operator's token as text.
    pub fn token_str(self) -> (text: &'static str)
        ensures
            text@ == self.token(),
    {
        match self {
            BinOp::Add => "+",
            BinOp::Sub => "-",
            BinOp::Mul => "*",
            BinOp::Div => "/",
            BinOp::Rem => "%",
            BinOp::And => "&&",
            BinOp::Or => "||",
            BinOp::BitXor => "^",
            BinOp::BitAnd => "&",
            BinOp::BitOr => "|",
            BinOp::Shl => "<<",
            BinOp::Shr => ">>",
            BinOp::Eq => "==",
            BinOp::Lt => "<",
            BinOp::Le => "<=",
            BinOp::Ne => "!=",
            BinOp::Ge => ">=",
            BinOp::Gt => ">",
            BinOp::AddAssign => "+=",
            BinOp::SubAssign => "-=",
            BinOp::MulAssign => "*=",
            BinOp::DivAssign => "/=",
            BinOp::RemAssign => "%=",
            BinOp::BitXorAssign => "^=",
            BinOp::BitAndAssign => "&=",
            BinOp::BitOrAssign => "|=",
            BinOp::ShlAssign => "<<=",
            BinOp::ShrAssign => ">>=",
        }
    }

    /// The operator that a token stands for, if it stands for one.
    pub open spec fn with_token(token: Seq<char>) -> Option<BinOp> {
        if exists|op: BinOp| op.token() == token {
            Some(choose|op: BinOp| op.token() == token)
        } else {
            None
        }
    }

    /// Finds the operator that a token stands for.
    pub fn from_token(token: &str) -> (found: Option<BinOp>)
        ensures
            forall|op: BinOp| found == Some(op) <==> op.token() == token@,
            found == BinOp::with_token(token@),
    {
        proof {
            assert forall|a: BinOp, b: BinOp| a != b implies a.token() != b.token() by {
                a.tokens_differ(b);
            }
        }
        if same_text(token, BinOp::Add.token_str()) {
            Some(BinOp::Add)
        } else if same_text(token, BinOp::Sub.token_str()) {
            Some(BinOp::Sub)
        } else if same_text(token, BinOp::Mul.token_str()) {
            Some(BinOp::Mul)
        } else if same_text(token, BinOp::Div.token_str()) {
            Some(BinOp::Div)
        } else if same_text(token, BinOp::Rem.token_str()) {
            Some(BinOp::Rem)
        } else if same_text(token, BinOp::And.token_str()) {
            Some(BinOp::And)
        } else if same_text(token, BinOp::Or.token_str()) {
            Some(BinOp::Or)
        } else if same_text(token, BinOp::BitXor.token_str()) {
            Some(BinOp::BitXor)
        } else if same_text(token, BinOp::BitAnd.token_str()) {
            Some(BinOp::BitAnd)
        } else if same_text(token, BinOp::BitOr.token_str()) {
            Some(BinOp::BitOr)
        } else if same_text(token, BinOp::Shl.token_str()) {
            Some(BinOp::Shl)
        } else if same_text(token, BinOp::Shr.token_str()) {
            Some(BinOp::Shr)
        } else if same_text(token, BinOp::Eq.token_str()) {
            Some(BinOp::Eq)
        } else if same_text(token, BinOp::Lt.token_str()) {
            Some(BinOp::Lt)
        } else if same_text(token, BinOp::Le.token_str()) {
            Some(BinOp::Le)
        } else if same_text(token, BinOp::Ne.token_str()) {
            Some(BinOp::Ne)
        } else if same_text(token, BinOp::Ge.token_str()) {
            Some(BinOp::Ge)
        } else if same_text(token, BinOp::Gt.token_str()) {
            Some(BinOp::Gt)
        } else if same_text(token, BinOp::AddAssign.token_str()) {
            Some(BinOp::AddAssign)
        } else if same_text(token, BinOp::SubAssign.token_str()) {
            Some(BinOp::SubAssign)
        } else if same_text(token, BinOp::MulAssign.token_str()) {
            Some(BinOp::MulAssign)
        } else if same_text(token, BinOp::DivAssign.token_str()) {
            Some(BinOp::DivAssign)
        } else if same_text(token, BinOp::RemAssign.token_str()) {
            Some(BinOp::RemAssign)
        } else if same_text(token, BinOp::BitXorAssign.token_str()) {
            Some(BinOp::BitXorAssign)
        } else if same_text(token, BinOp::BitAndAssign.token_str()) {
            Some(BinOp::BitAndAssign)
        } else if same_text(token, BinOp::BitOrAssign.token_str()) {
            Some(BinOp::BitOrAssign)
        } else if same_text(token, BinOp::ShlAssign.token_str()) {
            Some(BinOp::ShlAssign)
        } else if same_text(token, BinOp::ShrAssign.token_str()) {
            Some(BinOp::ShrAssign)
        } else {
            None
        }
    }

    /// No two operators share a token.
    pub proof fn tokens_differ(self, other: BinOp)
        requires
            self != other,
        ensures
            self.token() != other.token(),
    {
        reveal_strlit("+");
        reveal_strlit("-");
        reveal_strlit("*");
        reveal_strlit("/");
        reveal_strlit("%");
        reveal_strlit("&&");
        reveal_strlit("||");
        reveal_strlit("^");
        reveal_strlit("&");
        reveal_strlit("|");
        reveal_strlit("<<");
        reveal_strlit(">>");
        reveal_strlit("==");
        reveal_strlit("<");
        reveal_strlit("<=");
        reveal_strlit("!=");
        reveal_strlit(">=");
        reveal_strlit(">");
        reveal_strlit("+=");
        reveal_strlit("-=");
        reveal_strlit("*=");
        reveal_strlit("/=");
        reveal_strlit("%=");
        reveal_strlit("^=");
        reveal_strlit("&=");
        reveal_strlit("|=");
        reveal_strlit("<<=");
        reveal_strlit(">>=");
        let a = self.token();
        let b = other.token();
        if a.len() == b.len() {
            assert(a[0] != b[0] || a[a.len() - 1] != b[b.len() - 1]);
        }
    }

    /// The checked primitive that replaces the operator, for the eight
    /// arithmetic operators; `None` for every other operator.
    pub open spec fn primitive(self) -> Option<Primitive> {
        match self {
            BinOp::Add => Some(Primitive::Add),
            BinOp::Sub => Some(Primitive::Sub),
            BinOp::Mul => Some(Primitive::Mul),
            BinOp::Div => Some(Primitive::Div),
            BinOp::Rem => Some(Primitive::Rem),
            BinOp::BitXor => Some(Primitive::Pow),
            BinOp::Shl => Some(Primitive::Shl),
            BinOp::Shr => Some(Primitive::Shr),
            _ => None,
        }
    }

    /// Looks up the checked primitive that replaces the operator.
    pub fn checked_primitive(self) -> (found: Option<Primitive>)
        ensures
            found == self.primitive(),
    {
        match self {
            BinOp::Add => Some(Primitive::Add),
            BinOp::Sub => Some(Primitive::Sub),
            BinOp::Mul => Some(Primitive::Mul),
            BinOp::Div => Some(Primitive::Div),
            BinOp::Rem => Some(Primitive::Rem),
            BinOp::BitXor => Some(Primitive::Pow),
            BinOp::Shl => Some(Primitive::Shl),
            BinOp::Shr => Some(Primitive::Shr),
            _ => None,
        }
    }
}

impl UnOp {
    /// The operator's token.
    pub open spec fn token(self) -> Seq<char> {
        match self {
            UnOp::Neg => "-"@,
            UnOp::Not => "!"@,
            UnOp::Deref => "*"@,
        }
    }

    /// The operator's token as text.
    pub fn token_str(self) -> (text: &'static str)
        ensures
            text@ == self.token(),
    {
        match self {
            UnOp::Neg => "-",
            UnOp::Not => "!",
            UnOp::Deref => "*",
        }
    }
    /// The operator that a token stands for, if it stands for one.
    pub open spec fn with_token(token: Seq<char>) -> Option<UnOp> {
        if exists|op: UnOp| op.token() == token {
            Some(choose|op: UnOp| op.token() == token)
        } else {
            None
        }
    }

    /// Finds the operator that a token stands for.
    pub fn from_token(token: &str) -> (found: Option<UnOp>)
        ensures
            forall|op: UnOp| found == Some(op) <==> op.token() == token@,
            found == UnOp::with_token(token@),
    {
        proof {
            reveal_strlit("-");
            reveal_strlit("!");
            reveal_strlit("*");
            assert("-"@[0] != "!"@[0] && "-"@[0] != "*"@[0] && "!"@[0] != "*"@[0]);
        }
        if same_text(token, UnOp::Neg.token_str()) {
            Some(UnOp::Neg)
        } else if same_text(token, UnOp::Not.token_str()) {
            Some(UnOp::Not)
        } else if same_text(token, UnOp::Deref.token_str()) {
            Some(UnOp::Deref)
        } else {
            None
        }
    }
}

impl Primitive {
    /// The name of the method that performs the primitive.
    pub open spec fn method(self) -> Seq<char> {
        match self {
            Primitive::Add => "checked_add"@,
            Primitive::Sub => "checked_sub"@,
            Primitive::Mul => "checked_mul"@,
            Primitive::Div => "checked_div"@,
            Primitive::Rem => "checked_rem"@,
            Primitive::Pow => "checked_pow"@,
            Primitive::Shl => "checked_shl"@,
            Primitive::Shr => "checked_shr"@,
        }
    }

    /// The name of the method that performs the primitive, as text.
    pub fn method_str(self) -> (text: &'static str)
        ensures
            text@ == self.method(),
    {
        match self {
            Primitive::Add => "checked_add",
            Primitive::Sub => "checked_sub",
            Primitive::Mul => "checked_mul",
            Primitive::Div => "checked_div",
            Primitive::Rem => "checked_rem",
            Primitive::Pow => "checked_pow",
            Primitive::Shl => "checked_shl",
            Primitive::Shr => "checked_shr",
        }
    }
}

} // verus!
