//! The words of a `SELECT` statement.

use vstd::prelude::*;
use crate::text::{ascii_lower, is_word, lowered, optional_text, owned};

verus! {

/// The kind of a row lock.
#[derive(Clone, Copy, Debug, PartialEq, Eq, Structural)]
pub enum LockType {
    Update,
    Share,
}

/// What a statement does where a row is locked already.
#[derive(Clone, Copy, Debug, PartialEq, Eq, Structural)]
pub enum LockBehavior {
    Nowait,
    SkipLocked,
}

/// How the rows of two queries are combined.
#[derive(Clone, Copy, Debug, PartialEq, Eq, Structural)]
pub enum UnionType {
    Intersect,
    Distinct,
    Except,
    All,
}

/// The kind of a join.
#[derive(Clone, Copy, Debug, PartialEq, Eq, Structural)]
pub enum JoinType {
    Join,
    CrossJoin,
    InnerJoin,
    LeftJoin,
    RightJoin,
    FullOuterJoin,
}

/// The kind of lock that a word stands for, letter case apart.
pub open spec fn lock_type_of(word: Seq<char>) -> Option<LockType> {
    let lower = ascii_lower(word);
    if lower == "exclusive"@ {
        Some(LockType::Update)
    } else if lower == "shared"@ {
        Some(LockType::Share)
    } else {
        None
    }
}

/// The lock behavior that a word stands for, letter case apart.
pub open spec fn lock_behavior_of(word: Seq<char>) -> Option<LockBehavior> {
    let lower = ascii_lower(word);
    if lower == "nowait"@ {
        Some(LockBehavior::Nowait)
    } else if lower == "skip"@ {
        Some(LockBehavior::SkipLocked)
    } else {
        None
    }
}

/// The way of combining that a word stands for, letter case apart.
pub open spec fn union_type_of(word: Seq<char>) -> Option<UnionType> {
    let lower = ascii_lower(word);
    if lower == "all"@ {
        Some(UnionType::All)
    } else if lower == "intersect"@ {
        Some(UnionType::Intersect)
    } else if lower == "distinct"@ {
        Some(UnionType::Distinct)
    } else if lower == "except"@ {
        Some(UnionType::Except)
    } else {
        None
    }
}

/// The kind of join that a word stands for, letter case apart. No word at
/// all stands for the plain join.
pub open spec fn join_type_of(word: Seq<char>) -> Option<JoinType> {
    let lower = ascii_lower(word);
    if lower.len() == 0 {
        Some(JoinType::Join)
    } else if lower == "cross"@ {
        Some(JoinType::CrossJoin)
    } else if lower == "full"@ {
        Some(JoinType::FullOuterJoin)
    } else if lower == "inner"@ {
        Some(JoinType::InnerJoin)
    } else if lower == "left"@ {
        Some(JoinType::LeftJoin)
    } else if lower == "right"@ {
        Some(JoinType::RightJoin)
    } else {
        None
    }
}

/// The message for a word that stands for no kind of lock.
pub open spec fn invalid_lock_type() -> Seq<char> {
    "acceptable lock type are: 'exclusive' and 'shared'. got invalid type"@
}

/// The message for a word that stands for no lock behavior.
pub open spec fn invalid_lock_behavior() -> Seq<char> {
    "acceptable lock behavior are: 'nowait' and 'skip'. got invalid behavior"@
}

/// The message for a word that stands for no way of combining.
pub open spec fn invalid_union_type() -> Seq<char> {
    "acceptable union types are: 'all', 'distinct', 'except', and 'intersect'. got invalid type"@
}

/// The message for a word that stands for no kind of join.
pub open spec fn invalid_join_type() -> Seq<char> {
    "acceptable join types are: '', 'cross', 'full', 'left', 'right', and 'inner'. got invalid type"@
}

/// What the words of a lock clause come to: the kind of lock and the
/// behavior, or the message for the first word that is wrong.
pub open spec fn lock_of(kind: Seq<char>, behavior: Option<Seq<char>>) -> Result<
    (LockType, Option<LockBehavior>),
    Seq<char>,
> {
    match lock_type_of(kind) {
        None => Err(invalid_lock_type()),
        Some(lock) => match behavior {
            None => Ok((lock, None)),
            Some(word) => match lock_behavior_of(word) {
                Some(b) => Ok((lock, Some(b))),
                None => Err(invalid_lock_behavior()),
            },
        },
    }
}

/// Reads the words of a lock clause: `exclusive` or `shared`, and for the
/// behavior `nowait`, `skip` or nothing.
pub fn lock(kind: String, behavior: Option<String>) -> (r: Result<
    (LockType, Option<LockBehavior>),
    String,
>)
    ensures
        match r {
            Ok(clause) => lock_of(kind@, optional_text(behavior)) == Ok::<
                (LockType, Option<LockBehavior>),
                Seq<char>,
            >(clause),
            Err(message) => lock_of(kind@, optional_text(behavior)) == Err::<
                (LockType, Option<LockBehavior>),
                Seq<char>,
            >(message@),
        },
{
    let lower = lowered(kind.as_str());
    let lock_type = if is_word(&lower, "exclusive") {
        LockType::Update
    } else if is_word(&lower, "shared") {
        LockType::Share
    } else {
        return Err(owned("acceptable lock type are: 'exclusive' and 'shared'. got invalid type"));
    };
    let lock_behavior = match &behavior {
        None => None,
        Some(word) => {
            let lower = lowered(word.as_str());
            if is_word(&lower, "nowait") {
                Some(LockBehavior::Nowait)
            } else if is_word(&lower, "skip") {
                Some(LockBehavior::SkipLocked)
            } else {
                return Err(
                    owned(
                        "acceptable lock behavior are: 'nowait' and 'skip'. got invalid behavior",
                    ),
                );
            }
        },
    };
    Ok((lock_type, lock_behavior))
}

/// Reads the way in which the rows of two queries are combined: `all`,
/// `intersect`, `distinct` or `except`.
pub fn union(kind: String) -> (r: Result<UnionType, String>)
    ensures
        match r {
            Ok(way) => union_type_of(kind@) == Some(way),
            Err(message) => union_type_of(kind@) is None && message@ == invalid_union_type(),
        },
{
    let lower = lowered(kind.as_str());
    if is_word(&lower, "all") {
        Ok(UnionType::All)
    } else if is_word(&lower, "intersect") {
        Ok(UnionType::Intersect)
    } else if is_word(&lower, "distinct") {
        Ok(UnionType::Distinct)
    } else if is_word(&lower, "except") {
        Ok(UnionType::Except)
    } else {
        Err(
            owned(
                "acceptable union types are: 'all', 'distinct', 'except', and 'intersect'. got invalid type",
            ),
        )
    }
}

/// Reads the kind of a join: nothing, `cross`, `full`, `inner`, `left` or
/// `right`.
pub fn join(kind: String) -> (r: Result<JoinType, String>)
    ensures
        match r {
            Ok(join_type) => join_type_of(kind@) == Some(join_type),
            Err(message) => join_type_of(kind@) is None && message@ == invalid_join_type(),
        },
{
    let lower = lowered(kind.as_str());
    if lower.as_str().unicode_len() == 0 {
        Ok(JoinType::Join)
    } else if is_word(&lower, "cross") {
        Ok(JoinType::CrossJoin)
    } else if is_word(&lower, "full") {
        Ok(JoinType::FullOuterJoin)
    } else if is_word(&lower, "inner") {
        Ok(JoinType::InnerJoin)
    } else if is_word(&lower, "left") {
        Ok(JoinType::LeftJoin)
    } else if is_word(&lower, "right") {
        Ok(JoinType::RightJoin)
    } else {
        Err(
            owned(
                "acceptable join types are: '', 'cross', 'full', 'left', 'right', and 'inner'. got invalid type",
            ),
        )
    }
}

/// Reads the kind of a lateral join, as [`join`] reads the kind of a join.
pub fn join_lateral(kind: String) -> (r: Result<JoinType, String>)
    ensures
        match r {
            Ok(join_type) => join_type_of(kind@) == Some(join_type),
            Err(message) => join_type_of(kind@) is None && message@ == invalid_join_type(),
        },
{
    join(kind)
}

} // verus!
