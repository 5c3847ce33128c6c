//! Operator binding strength, as a small totally ordered value type.

use vstd::prelude::*;

verus! {

pub const PREC_LOWEST: u8 = 0;

pub const PREC_COMMA: u8 = 1;

pub const PREC_ASSIGNMENT: u8 = 2;

pub const PREC_CONDITIONAL: u8 = 3;

pub const PREC_LOGICAL_OR: u8 = 4;

pub const PREC_LOGICAL_AND: u8 = 5;

pub const PREC_BITWISE_OR: u8 = 6;

pub const PREC_BITWISE_XOR: u8 = 7;

pub const PREC_BITWISE_AND: u8 = 8;

pub const PREC_EQUALITY: u8 = 9;

pub const PREC_RELATIONAL: u8 = 10;

pub const PREC_SHIFT: u8 = 11;

pub const PREC_ADDITIVE: u8 = 12;

pub const PREC_MULTIPLICATIVE: u8 = 13;

pub const PREC_UNARY: u8 = 14;

pub const PREC_POSTFIX: u8 = 15;

pub const PREC_LEFT_HAND_SIDE: u8 = 16;

pub const PREC_CALL_OR_NEW: u8 = 17;

pub const PREC_MEMBER: u8 = 18;

pub const PREC_PRIMARY: u8 = 19;

/// How tightly an operator binds; ordered from `lowest` up to `primary`.
#[derive(Debug, Clone, Copy, Eq)]
pub struct Precedence {
    level: u8,
}

impl Precedence {
    /// The numeric binding strength.
    pub closed spec fn level(self) -> u8 {
        self.level
    }

    pub fn lowest() -> (r: Precedence)
        ensures
            r.level() == PREC_LOWEST,
    {
        Precedence { level: PREC_LOWEST }
    }

    pub fn comma() -> (r: Precedence)
        ensures
            r.level() == PREC_COMMA,
    {
        Precedence { level: PREC_COMMA }
    }

    pub fn assignment() -> (r: Precedence)
        ensures
            r.level() == PREC_ASSIGNMENT,
    {
        Precedence { level: PREC_ASSIGNMENT }
    }

    pub fn conditional() -> (r: Precedence)
        ensures
            r.level() == PREC_CONDITIONAL,
    {
        Precedence { level: PREC_CONDITIONAL }
    }

    pub fn logical_or() -> (r: Precedence)
        ensures
            r.level() == PREC_LOGICAL_OR,
    {
        Precedence { level: PREC_LOGICAL_OR }
    }

    pub fn logical_and() -> (r: Precedence)
        ensures
            r.level() == PREC_LOGICAL_AND,
    {
        Precedence { level: PREC_LOGICAL_AND }
    }

    pub fn bitwise_or() -> (r: Precedence)
        ensures
            r.level() == PREC_BITWISE_OR,
    {
        Precedence { level: PREC_BITWISE_OR }
    }

    pub fn bitwise_xor() -> (r: Precedence)
        ensures
            r.level() == PREC_BITWISE_XOR,
    {
        Precedence { level: PREC_BITWISE_XOR }
    }

    pub fn bitwise_and() -> (r: Precedence)
        ensures
            r.level() == PREC_BITWISE_AND,
    {
        Precedence { level: PREC_BITWISE_AND }
    }

    pub fn equality() -> (r: Precedence)
        ensures
            r.level() == PREC_EQUALITY,
    {
        Precedence { level: PREC_EQUALITY }
    }

    pub fn relational() -> (r: Precedence)
        ensures
            r.level() == PREC_RELATIONAL,
    {
        Precedence { level: PREC_RELATIONAL }
    }

    pub fn shift() -> (r: Precedence)
        ensures
            r.level() == PREC_SHIFT,
    {
        Precedence { level: PREC_SHIFT }
    }

    pub fn additive() -> (r: Precedence)
        ensures
            r.level() == PREC_ADDITIVE,
    {
        Precedence { level: PREC_ADDITIVE }
    }

    pub fn multiplicative() -> (r: Precedence)
        ensures
            r.level() == PREC_MULTIPLICATIVE,
    {
        Precedence { level: PREC_MULTIPLICATIVE }
    }

    pub fn unary() -> (r: Precedence)
        ensures
            r.level() == PREC_UNARY,
    {
        Precedence { level: PREC_UNARY }
    }

    pub fn postfix() -> (r: Precedence)
        ensures
            r.level() == PREC_POSTFIX,
    {
        Precedence { level: PREC_POSTFIX }
    }

    pub fn left_hand_side() -> (r: Precedence)
        ensures
            r.level() == PREC_LEFT_HAND_SIDE,
    {
        Precedence { level: PREC_LEFT_HAND_SIDE }
    }

    pub fn call_or_new() -> (r: Precedence)
        ensures
            r.level() == PREC_CALL_OR_NEW,
    {
        Precedence { level: PREC_CALL_OR_NEW }
    }

    pub fn member() -> (r: Precedence)
        ensures
            r.level() == PREC_MEMBER,
    {
        Precedence { level: PREC_MEMBER }
    }

    pub fn primary() -> (r: Precedence)
        ensures
            r.level() == PREC_PRIMARY,
    {
        Precedence { level: PREC_PRIMARY }
    }
}

impl PartialEq for Precedence {
    fn eq(&self, other: &Precedence) -> (r: bool) {
        self.level == other.level
    }
}

impl vstd::std_specs::cmp::PartialEqSpecImpl for Precedence {
    open spec fn obeys_eq_spec() -> bool {
        true
    }

    open spec fn eq_spec(&self, other: &Precedence) -> bool {
        self.level() == other.level()
    }
}

impl PartialOrd for Precedence {
    fn partial_cmp(&self, other: &Precedence) -> (r: Option<core::cmp::Ordering>) {
        if self.level < other.level {
            Some(core::cmp::Ordering::Less)
        } else if self.level == other.level {
            Some(core::cmp::Ordering::Equal)
        } else {
            Some(core::cmp::Ordering::Greater)
        }
    }
}

impl vstd::std_specs::cmp::PartialOrdSpecImpl for Precedence {
    open spec fn obeys_partial_cmp_spec() -> bool {
        true
    }

    open spec fn partial_cmp_spec(&self, other: &Precedence) -> Option<core::cmp::Ordering> {
        if self.level() < other.level() {
            Some(core::cmp::Ordering::Less)
        } else if self.level() == other.level() {
            Some(core::cmp::Ordering::Equal)
        } else {
            Some(core::cmp::Ordering::Greater)
        }
    }
}

} // verus!
