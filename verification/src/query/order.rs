//! The order of the rows of a result.

use vstd::prelude::*;
use crate::text::{
    ascii_lower, debug_text, is_word, joined, lowered, optional_text, owned, quoted,
};

verus! {

/// The direction of an order.
#[derive(Clone, Copy, Debug, PartialEq, Eq, Structural)]
pub enum Order {
    Asc,
    Desc,
}

/// Where the nulls stand in an order.
#[derive(Clone, Copy, Debug, PartialEq, Eq, Structural)]
pub enum NullOrdering {
    First,
    Last,
}

/// The direction that a word stands for, letter case apart.
pub open spec fn order_of(word: Seq<char>) -> Option<Order> {
    let lower = ascii_lower(word);
    if lower == "asc"@ {
        Some(Order::Asc)
    } else if lower == "desc"@ {
        Some(Order::Desc)
    } else {
        None
    }
}

/// The place of the nulls that a word stands for, letter case apart.
pub open spec fn null_order_of(word: Seq<char>) -> Option<NullOrdering> {
    let lower = ascii_lower(word);
    if lower == "first"@ {
        Some(NullOrdering::First)
    } else if lower == "last"@ {
        Some(NullOrdering::Last)
    } else {
        None
    }
}

/// How the rows are ordered by one expression. The expression itself is the
/// host's and stays with it.
#[derive(Clone, Copy, Debug, PartialEq, Eq, Structural)]
pub struct OrderClause {
    pub order: Order,
    pub null_order: Option<NullOrdering>,
}

/// What the words of an order clause come to: the clause, or the message for
/// the first word that is none of those expected. The message shows the word
/// in lower case.
pub open spec fn clause_of(order: Seq<char>, null_order: Option<Seq<char>>) -> Result<
    OrderClause,
    Seq<char>,
> {
    match order_of(order) {
        None => Err(
            "invalid order value, expected 'asc' or 'desc'; got "@ + debug_text(ascii_lower(order)),
        ),
        Some(direction) => match null_order {
            None => Ok(OrderClause { order: direction, null_order: None }),
            Some(word) => match null_order_of(word) {
                Some(place) => Ok(OrderClause { order: direction, null_order: Some(place) }),
                None => Err(
                    "invalid order value, expected 'first', 'last' or None; got "@ + debug_text(
                        ascii_lower(word),
                    ),
                ),
            },
        },
    }
}

/// The words of a clause in SQL, after the expression: the direction, and
/// the place of the nulls where one is given.
pub open spec fn clause_text(clause: OrderClause) -> Seq<char> {
    (match clause.order {
        Order::Asc => " ASC"@,
        Order::Desc => " DESC"@,
    }) + (match clause.null_order {
        None => Seq::empty(),
        Some(NullOrdering::First) => "NULLS FIRST"@,
        Some(NullOrdering::Last) => "NULLS LAST"@,
    })
}

impl OrderClause {
    /// Reads the words of an order clause, letter case apart: `asc` or
    /// `desc`, and for the nulls `first`, `last` or nothing.
    pub fn from_parameters(order: String, null_order: Option<String>) -> (r: Result<Self, String>)
        ensures
            match r {
                Ok(clause) => clause_of(order@, optional_text(null_order)) == Ok::<
                    OrderClause,
                    Seq<char>,
                >(clause),
                Err(message) => clause_of(order@, optional_text(null_order)) == Err::<
                    OrderClause,
                    Seq<char>,
                >(message@),
            },
    {
        let lower = lowered(order.as_str());
        let direction = if is_word(&lower, "asc") {
            Order::Asc
        } else if is_word(&lower, "desc") {
            Order::Desc
        } else {
            let message = owned("invalid order value, expected 'asc' or 'desc'; got ");
            return Err(joined(message, quoted(lower.as_str()).as_str()));
        };
        let place = match &null_order {
            None => None,
            Some(word) => {
                let lower = lowered(word.as_str());
                if is_word(&lower, "first") {
                    Some(NullOrdering::First)
                } else if is_word(&lower, "last") {
                    Some(NullOrdering::Last)
                } else {
                    let message = owned(
                        "invalid order value, expected 'first', 'last' or None; got ",
                    );
                    return Err(joined(message, quoted(lower.as_str()).as_str()));
                }
            },
        };
        Ok(OrderClause { order: direction, null_order: place })
    }

    /// The words of the clause in SQL, after the expression.
    pub fn fmt(&self) -> (r: String)
        ensures
            r@ == clause_text(*self),
    {
        let s = match self.order {
            Order::Asc => owned(" ASC"),
            Order::Desc => owned(" DESC"),
        };
        match self.null_order {
            None => {
                assert(s@ + Seq::<char>::empty() =~= s@);
                s
            },
            Some(NullOrdering::First) => joined(s, "NULLS FIRST"),
            Some(NullOrdering::Last) => joined(s, "NULLS LAST"),
        }
    }
}

} // verus!
