//! Foreign keys.

use vstd::prelude::*;
use crate::common::PyTableName;
use crate::index::{column_suffix, table_name};
use crate::text::{
    ascii_lower, count_text, decimal_digits, is_word, joined, lowered, optional_text, owned, texts,
};

verus! {

/// What the database does with the rows that refer to a row that is deleted
/// or updated.
#[derive(Clone, Copy, Debug, PartialEq, Eq, Structural)]
pub enum ForeignKeyAction {
    Restrict,
    Cascade,
    SetNull,
    NoAction,
    SetDefault,
}

/// A foreign key action under the name that the host gives it.
#[derive(Clone, Copy, Debug, PartialEq, Eq, Structural)]
pub struct ForeignKeyActionAlias(pub ForeignKeyAction);

/// The action that a name stands for, letter case apart.
pub open spec fn action_of(name: Seq<char>) -> Option<ForeignKeyAction> {
    let lower = ascii_lower(name);
    if lower == "cascade"@ {
        Some(ForeignKeyAction::Cascade)
    } else if lower == "no action"@ {
        Some(ForeignKeyAction::NoAction)
    } else if lower == "restrict"@ {
        Some(ForeignKeyAction::Restrict)
    } else if lower == "set default"@ {
        Some(ForeignKeyAction::SetDefault)
    } else if lower == "set null"@ {
        Some(ForeignKeyAction::SetNull)
    } else {
        None
    }
}

/// The name of an action in SQL.
pub open spec fn action_text(action: ForeignKeyAction) -> Seq<char> {
    match action {
        ForeignKeyAction::Cascade => "CASCADE"@,
        ForeignKeyAction::NoAction => "NO ACTION"@,
        ForeignKeyAction::Restrict => "RESTRICT"@,
        ForeignKeyAction::SetDefault => "SET DEFAULT"@,
        ForeignKeyAction::SetNull => "SET NULL"@,
    }
}

impl ForeignKeyActionAlias {
    /// The action that a name stands for, letter case apart, or the message
    /// for a name that stands for none.
    pub fn from_str(s: &str) -> (r: Result<Self, String>)
        ensures
            match r {
                Ok(alias) => action_of(s@) == Some(alias.0),
                Err(message) => action_of(s@) is None && message@
                    == "unknown foreign key action: "@ + s@,
            },
    {
        let lower = lowered(s);
        if is_word(&lower, "cascade") {
            Ok(ForeignKeyActionAlias(ForeignKeyAction::Cascade))
        } else if is_word(&lower, "no action") {
            Ok(ForeignKeyActionAlias(ForeignKeyAction::NoAction))
        } else if is_word(&lower, "restrict") {
            Ok(ForeignKeyActionAlias(ForeignKeyAction::Restrict))
        } else if is_word(&lower, "set default") {
            Ok(ForeignKeyActionAlias(ForeignKeyAction::SetDefault))
        } else if is_word(&lower, "set null") {
            Ok(ForeignKeyActionAlias(ForeignKeyAction::SetNull))
        } else {
            Err(joined(owned("unknown foreign key action: "), s))
        }
    }

    /// The name of the action in SQL.
    pub fn fmt(&self) -> (r: &'static str)
        ensures
            r@ == action_text(self.0),
    {
        match self.0 {
            ForeignKeyAction::Cascade => "CASCADE",
            ForeignKeyAction::NoAction => "NO ACTION",
            ForeignKeyAction::Restrict => "RESTRICT",
            ForeignKeyAction::SetDefault => "SET DEFAULT",
            ForeignKeyAction::SetNull => "SET NULL",
        }
    }
}

/// What a foreign key is made of: its name, the table and the columns that
/// it refers to, and the columns that refer, of the table that is given or
/// of the table in which the key stands.
#[derive(Debug, PartialEq, Eq)]
pub struct ForeignKeyInner {
    pub name: String,
    pub to_table: PyTableName,
    pub to_columns: Vec<String>,
    pub from_table: Option<PyTableName>,
    pub from_columns: Vec<String>,
    pub on_delete: Option<ForeignKeyActionAlias>,
    pub on_update: Option<ForeignKeyActionAlias>,
}

/// The action that a word that may be missing stands for: none for a
/// missing word. A word that stands for no action is an error.
pub open spec fn optional_action(word: Option<Seq<char>>) -> Result<
    Option<ForeignKeyActionAlias>,
    Seq<char>,
> {
    match word {
        None => Ok(None),
        Some(w) => match action_of(w) {
            Some(action) => Ok(Some(ForeignKeyActionAlias(action))),
            None => Err("unknown foreign key action: "@ + w),
        },
    }
}

/// The name that a foreign key gets where none is given: `fk_`, the name of
/// the referring table and of each referring column after an underscore,
/// then the same of the table and the columns that are referred to.
pub open spec fn foreign_key_name(
    from_table: Seq<char>,
    from_columns: Seq<Seq<char>>,
    to_table: Seq<char>,
    to_columns: Seq<Seq<char>>,
) -> Seq<char> {
    "fk_"@ + from_table + column_suffix(from_columns) + "_"@ + to_table + column_suffix(to_columns)
}

/// The message for two lists of columns of different lengths.
pub open spec fn length_mismatch(from: nat, to: nat) -> Seq<char> {
    "from_columns and to_columns must have same length ("@ + decimal_digits(from) + " != "@
        + decimal_digits(to) + ")"@
}

/// What is wrong with the columns of a foreign key, if anything: a list is
/// empty, the referring one looked at first, or the two differ in length.
pub open spec fn columns_error(from: nat, to: nat) -> Option<Seq<char>> {
    if from == 0 {
        Some("from_columns is empty"@)
    } else if to == 0 {
        Some("to_columns is empty"@)
    } else if from != to {
        Some(length_mismatch(from, to))
    } else {
        None
    }
}

/// What is wrong with the parameters of a foreign key, if anything: the
/// action on deletion is looked at first, then the action on update, then
/// the columns.
pub open spec fn foreign_key_error(
    from: nat,
    to: nat,
    on_delete: Option<Seq<char>>,
    on_update: Option<Seq<char>>,
) -> Option<Seq<char>> {
    match (optional_action(on_delete), optional_action(on_update)) {
        (Err(message), _) => Some(message),
        (Ok(_), Err(message)) => Some(message),
        (Ok(_), Ok(_)) => columns_error(from, to),
    }
}

/// The part of a key's name that the columns give.
pub fn suffix_of(columns: &Vec<String>) -> (r: String)
    ensures
        r@ == column_suffix(texts(*columns)),
{
    let ghost names = texts(*columns);
    let mut s = String::new();
    let mut i: usize = 0;
    assert(names.take(0) =~= Seq::<Seq<char>>::empty());
    while i < columns.len()
        invariant
            0 <= i <= columns.len(),
            names == texts(*columns),
            s@ == column_suffix(names.take(i as int)),
        decreases columns.len() - i,
    {
        proof {
            assert(names.take(i + 1).drop_last() =~= names.take(i as int));
            assert(names.take(i + 1).last() == columns[i as int]@);
        }
        s = joined(s, "_");
        s = joined(s, columns[i].as_str());
        i = i + 1;
    }
    assert(names.take(columns.len() as int) =~= names);
    s
}

/// Reads the action that a word that may be missing stands for.
pub fn read_action(word: &Option<String>) -> (r: Result<Option<ForeignKeyActionAlias>, String>)
    ensures
        match r {
            Ok(action) => optional_action(optional_text(*word)) == Ok::<
                Option<ForeignKeyActionAlias>,
                Seq<char>,
            >(action),
            Err(message) => optional_action(optional_text(*word)) == Err::<
                Option<ForeignKeyActionAlias>,
                Seq<char>,
            >(message@),
        },
{
    match word {
        None => Ok(None),
        Some(w) => match ForeignKeyActionAlias::from_str(w.as_str()) {
            Ok(alias) => Ok(Some(alias)),
            Err(message) => Err(message),
        },
    }
}

/// Checks that the two lists of columns of a foreign key are of one length.
pub fn lengths_agree(from: usize, to: usize) -> (r: Result<(), String>)
    ensures
        match r {
            Ok(_) => from == to,
            Err(message) => from != to && message@ == length_mismatch(from as nat, to as nat),
        },
{
    if from != to {
        let s = owned("from_columns and to_columns must have same length (");
        let s = joined(s, count_text(from).as_str());
        let s = joined(s, " != ");
        let s = joined(s, count_text(to).as_str());
        return Err(joined(s, ")"));
    }
    Ok(())
}

impl ForeignKeyInner {
    /// Makes a foreign key of its parameters. The actions are read from
    /// their words; where no name is given the key gets the name of
    /// [`foreign_key_name`]; the two lists of columns have to be of one
    /// length and not empty.
    pub fn new(
        from_columns: Vec<String>,
        to_columns: Vec<String>,
        to_table: PyTableName,
        from_table: Option<PyTableName>,
        name: Option<String>,
        on_delete: Option<String>,
        on_update: Option<String>,
    ) -> (r: Result<Self, String>)
        ensures
            match r {
                Ok(key) => {
                    &&& foreign_key_error(
                        from_columns.len() as nat,
                        to_columns.len() as nat,
                        optional_text(on_delete),
                        optional_text(on_update),
                    ) is None
                    &&& key.name@ == (match name {
                        Some(given) => given@,
                        None => foreign_key_name(
                            table_name(from_table),
                            texts(from_columns),
                            to_table.name@,
                            texts(to_columns),
                        ),
                    })
                    &&& key.to_table == to_table
                    &&& key.from_table == from_table
                    &&& key.to_columns == to_columns
                    &&& key.from_columns == from_columns
                    &&& Ok::<Option<ForeignKeyActionAlias>, Seq<char>>(key.on_delete)
                        == optional_action(optional_text(on_delete))
                    &&& Ok::<Option<ForeignKeyActionAlias>, Seq<char>>(key.on_update)
                        == optional_action(optional_text(on_update))
                },
                Err(message) => foreign_key_error(
                    from_columns.len() as nat,
                    to_columns.len() as nat,
                    optional_text(on_delete),
                    optional_text(on_update),
                ) == Some(message@),
            },
    {
        let on_delete = match read_action(&on_delete) {
            Ok(action) => action,
            Err(message) => {
                return Err(message);
            },
        };
        let on_update = match read_action(&on_update) {
            Ok(action) => action,
            Err(message) => {
                return Err(message);
            },
        };
        let name = match name {
            Some(given) => given,
            None => {
                let s = match &from_table {
                    Some(table) => joined(owned("fk_"), table.name.as_str()),
                    None => {
                        assert("fk_"@ + Seq::<char>::empty() =~= "fk_"@);
                        owned("fk_")
                    },
                };
                let s = joined(s, suffix_of(&from_columns).as_str());
                let s = joined(s, "_");
                let s = joined(s, to_table.name.as_str());
                let s = joined(s, suffix_of(&to_columns).as_str());
                assert(s@ =~= foreign_key_name(
                    table_name(from_table),
                    texts(from_columns),
                    to_table.name@,
                    texts(to_columns),
                ));
                s
            },
        };
        if from_columns.len() == 0 {
            return Err(owned("from_columns is empty"));
        }
        if to_columns.len() == 0 {
            return Err(owned("to_columns is empty"));
        }
        match lengths_agree(from_columns.len(), to_columns.len()) {
            Ok(_) => {},
            Err(message) => {
                return Err(message);
            },
        }
        Ok(
            ForeignKeyInner {
                name,
                to_table,
                to_columns,
                from_table,
                from_columns,
                on_delete,
                on_update,
            },
        )
    }

    /// Sets the referring columns anew: as many as there are columns
    /// referred to, and not none. On an error the key stays as it is.
    pub fn set_from_columns(&mut self, val: Vec<String>) -> (r: Result<(), String>)
        ensures
            match r {
                Ok(_) => val.len() == old(self).to_columns.len() && val.len() > 0 && *final(self)
                    == (ForeignKeyInner { from_columns: val, ..*old(self) }),
                Err(message) => {
                    &&& *final(self) == *old(self)
                    &&& if val.len() == 0 {
                        message@ == "from_columns cannot be empty"@
                    } else {
                        val.len() != old(self).to_columns.len() && message@ == length_mismatch(
                            val.len() as nat,
                            old(self).to_columns.len() as nat,
                        )
                    }
                },
            },
    {
        if val.len() == 0 {
            return Err(owned("from_columns cannot be empty"));
        }
        match lengths_agree(val.len(), self.to_columns.len()) {
            Ok(_) => {},
            Err(message) => {
                return Err(message);
            },
        }
        self.from_columns = val;
        Ok(())
    }

    /// Sets the columns referred to anew: as many as there are referring
    /// columns, and not none. On an error the key stays as it is.
    pub fn set_to_columns(&mut self, val: Vec<String>) -> (r: Result<(), String>)
        ensures
            match r {
                Ok(_) => val.len() == old(self).from_columns.len() && val.len() > 0 && *final(self)
                    == (ForeignKeyInner { to_columns: val, ..*old(self) }),
                Err(message) => {
                    &&& *final(self) == *old(self)
                    &&& if val.len() == 0 {
                        message@ == "to_columns cannot be empty"@
                    } else {
                        val.len() != old(self).from_columns.len() && message@ == length_mismatch(
                            old(self).from_columns.len() as nat,
                            val.len() as nat,
                        )
                    }
                },
            },
    {
        if val.len() == 0 {
            return Err(owned("to_columns cannot be empty"));
        }
        match lengths_agree(self.from_columns.len(), val.len()) {
            Ok(_) => {},
            Err(message) => {
                return Err(message);
            },
        }
        self.to_columns = val;
        Ok(())
    }

    /// Sets the action on deletion anew, read from its word. On an error the
    /// key stays as it is.
    pub fn set_on_delete(&mut self, val: Option<String>) -> (r: Result<(), String>)
        ensures
            match r {
                Ok(_) => optional_action(optional_text(val)) == Ok::<
                    Option<ForeignKeyActionAlias>,
                    Seq<char>,
                >(final(self).on_delete) && *final(self) == (ForeignKeyInner {
                    on_delete: final(self).on_delete,
                    ..*old(self)
                }),
                Err(message) => optional_action(optional_text(val)) == Err::<
                    Option<ForeignKeyActionAlias>,
                    Seq<char>,
                >(message@) && *final(self) == *old(self),
            },
    {
        match read_action(&val) {
            Ok(action) => {
                self.on_delete = action;
                Ok(())
            },
            Err(message) => Err(message),
        }
    }

    /// Sets the action on update anew, read from its word. On an error the
    /// key stays as it is.
    pub fn set_on_update(&mut self, val: Option<String>) -> (r: Result<(), String>)
        ensures
            match r {
                Ok(_) => optional_action(optional_text(val)) == Ok::<
                    Option<ForeignKeyActionAlias>,
                    Seq<char>,
                >(final(self).on_update) && *final(self) == (ForeignKeyInner {
                    on_update: final(self).on_update,
                    ..*old(self)
                }),
                Err(message) => optional_action(optional_text(val)) == Err::<
                    Option<ForeignKeyActionAlias>,
                    Seq<char>,
                >(message@) && *final(self) == *old(self),
            },
    {
        match read_action(&val) {
            Ok(action) => {
                self.on_update = action;
                Ok(())
            },
            Err(message) => Err(message),
        }
    }
}

} // verus!
