//! Names of columns and tables.

use vstd::prelude::*;
use crate::text::{
    ascii_lower, copy_optional, debug_text, decimal_digits, dotted, is_word, joined, lowered,
    number_text, optional_text, owned, quoted, same_optional, split_dots,
    split_dots_is_not_empty, texts, trimmed, trimmed_text,
};

verus! {

/// The type of the asterisk that stands for all columns.
#[derive(Clone, Copy, Debug, Default, PartialEq, Eq)]
pub struct PyAsteriskType {}

/// The name of a column, or the asterisk that stands for all columns.
#[derive(Debug, PartialEq, Eq)]
pub enum ColumnNameOrAstrisk {
    Astrisk,
    Name(String),
}

/// The mathematical form of a [`ColumnNameOrAstrisk`].
pub enum ColumnNameModel {
    Astrisk,
    Name(Seq<char>),
}

impl View for ColumnNameOrAstrisk {
    type V = ColumnNameModel;

    open spec fn view(&self) -> ColumnNameModel {
        match self {
            ColumnNameOrAstrisk::Astrisk => ColumnNameModel::Astrisk,
            ColumnNameOrAstrisk::Name(name) => ColumnNameModel::Name(name@),
        }
    }
}

impl ColumnNameModel {
    /// The text under which the column is printed: the asterisk bare, a name
    /// quoted.
    pub open spec fn text(self) -> Seq<char> {
        match self {
            ColumnNameModel::Astrisk => "*"@,
            ColumnNameModel::Name(name) => debug_text(name),
        }
    }

    /// The name of the column, the asterisk being its own name.
    pub open spec fn name(self) -> Seq<char> {
        match self {
            ColumnNameModel::Astrisk => "*"@,
            ColumnNameModel::Name(name) => name,
        }
    }
}

impl ColumnNameOrAstrisk {
    /// The text under which the column is printed.
    pub fn fmt(&self) -> (r: String)
        ensures
            r@ == self@.text(),
    {
        match self {
            ColumnNameOrAstrisk::Astrisk => owned("*"),
            ColumnNameOrAstrisk::Name(name) => quoted(name.as_str()),
        }
    }

    /// A copy.
    pub fn duplicate(&self) -> (r: Self)
        ensures
            r@ == self@,
    {
        match self {
            ColumnNameOrAstrisk::Astrisk => ColumnNameOrAstrisk::Astrisk,
            ColumnNameOrAstrisk::Name(name) => ColumnNameOrAstrisk::Name(name.clone()),
        }
    }

    /// Whether two are the same.
    pub fn same(&self, other: &Self) -> (r: bool)
        ensures
            r == (self@ == other@),
    {
        match (self, other) {
            (ColumnNameOrAstrisk::Astrisk, ColumnNameOrAstrisk::Astrisk) => true,
            (ColumnNameOrAstrisk::Name(a), ColumnNameOrAstrisk::Name(b)) => *a == *b,
            _ => false,
        }
    }
}

/// A reference to a column as the engine takes it: by the parts that count.
#[derive(Debug, PartialEq, Eq)]
pub enum ColumnRef {
    Column(String),
    TableColumn(String, String),
    SchemaTableColumn(String, String, String),
    Asterisk,
    TableAsterisk(String),
}

/// The mathematical form of a [`ColumnRef`].
pub enum ColumnRefModel {
    Column(Seq<char>),
    TableColumn(Seq<char>, Seq<char>),
    SchemaTableColumn(Seq<char>, Seq<char>, Seq<char>),
    Asterisk,
    TableAsterisk(Seq<char>),
}

impl View for ColumnRef {
    type V = ColumnRefModel;

    open spec fn view(&self) -> ColumnRefModel {
        match self {
            ColumnRef::Column(name) => ColumnRefModel::Column(name@),
            ColumnRef::TableColumn(table, name) => ColumnRefModel::TableColumn(table@, name@),
            ColumnRef::SchemaTableColumn(schema, table, name) => ColumnRefModel::SchemaTableColumn(
                schema@,
                table@,
                name@,
            ),
            ColumnRef::Asterisk => ColumnRefModel::Asterisk,
            ColumnRef::TableAsterisk(table) => ColumnRefModel::TableAsterisk(table@),
        }
    }
}

impl ColumnRef {
    /// A copy.
    pub fn duplicate(&self) -> (r: Self)
        ensures
            r@ == self@,
    {
        match self {
            ColumnRef::Column(name) => ColumnRef::Column(name.clone()),
            ColumnRef::TableColumn(table, name) => ColumnRef::TableColumn(
                table.clone(),
                name.clone(),
            ),
            ColumnRef::SchemaTableColumn(schema, table, name) => ColumnRef::SchemaTableColumn(
                schema.clone(),
                table.clone(),
                name.clone(),
            ),
            ColumnRef::Asterisk => ColumnRef::Asterisk,
            ColumnRef::TableAsterisk(table) => ColumnRef::TableAsterisk(table.clone()),
        }
    }
}

impl Clone for ColumnRef {
    fn clone(&self) -> (r: Self)
        ensures
            r@ == self@,
    {
        self.duplicate()
    }
}

/// A reference to a column: its name or the asterisk, with the table and
/// the schema where they are given.
#[derive(Debug, PartialEq, Eq)]
pub struct PyColumnRef {
    pub col: ColumnNameOrAstrisk,
    pub table: Option<String>,
    pub schema: Option<String>,
}

/// The mathematical form of a [`PyColumnRef`].
pub struct ColumnRefParts {
    pub col: ColumnNameModel,
    pub table: Option<Seq<char>>,
    pub schema: Option<Seq<char>>,
}

impl View for PyColumnRef {
    type V = ColumnRefParts;

    open spec fn view(&self) -> ColumnRefParts {
        ColumnRefParts {
            col: self.col@,
            table: optional_text(self.table),
            schema: optional_text(self.schema),
        }
    }
}

/// The column that a name stands for: the asterisk for `*`.
pub open spec fn column_of(name: Seq<char>) -> ColumnNameModel {
    if name == "*"@ {
        ColumnNameModel::Astrisk
    } else {
        ColumnNameModel::Name(name)
    }
}

/// The piece of a dotted name that stands `back` places before the last.
pub open spec fn piece(pieces: Seq<Seq<char>>, back: int) -> Option<Seq<char>> {
    if back < pieces.len() {
        Some(pieces[pieces.len() - 1 - back])
    } else {
        None
    }
}

impl ColumnRefParts {
    /// What a text stands for as a reference to a column: `name`,
    /// `table.name` or `schema.table.name`, white space at the ends apart.
    pub open spec fn parse(s: Seq<char>) -> Result<ColumnRefParts, Seq<char>> {
        Self::parse_trimmed(trimmed_text(s))
    }

    /// What a text without white space at its ends stands for as a
    /// reference to a column.
    pub open spec fn parse_trimmed(text: Seq<char>) -> Result<ColumnRefParts, Seq<char>> {
        let pieces = split_dots(text);
        if text.len() == 0 {
            Err("cannot parse an empty string"@)
        } else if pieces.len() > 3 {
            Err("invalid format"@)
        } else {
            Ok(
                ColumnRefParts {
                    col: column_of(pieces.last()),
                    table: piece(pieces, 1),
                    schema: piece(pieces, 2),
                },
            )
        }
    }

    /// The reference as the engine takes it. A schema counts only with a
    /// table, and with the asterisk only the table counts.
    pub open spec fn engine_form(self) -> ColumnRefModel {
        match (self.col, self.table, self.schema) {
            (ColumnNameModel::Name(name), Some(table), Some(schema)) =>
                ColumnRefModel::SchemaTableColumn(schema, table, name),
            (ColumnNameModel::Name(name), Some(table), None) => ColumnRefModel::TableColumn(
                table,
                name,
            ),
            (ColumnNameModel::Name(name), None, _) => ColumnRefModel::Column(name),
            (ColumnNameModel::Astrisk, Some(table), _) => ColumnRefModel::TableAsterisk(table),
            (ColumnNameModel::Astrisk, None, _) => ColumnRefModel::Asterisk,
        }
    }

    /// The parts of a reference of the engine.
    pub open spec fn of_engine(reference: ColumnRefModel) -> ColumnRefParts {
        match reference {
            ColumnRefModel::Asterisk => ColumnRefParts {
                col: ColumnNameModel::Astrisk,
                table: None,
                schema: None,
            },
            ColumnRefModel::TableAsterisk(table) => ColumnRefParts {
                col: ColumnNameModel::Astrisk,
                table: Some(table),
                schema: None,
            },
            ColumnRefModel::SchemaTableColumn(schema, table, name) => ColumnRefParts {
                col: ColumnNameModel::Name(name),
                table: Some(table),
                schema: Some(schema),
            },
            ColumnRefModel::TableColumn(table, name) => ColumnRefParts {
                col: ColumnNameModel::Name(name),
                table: Some(table),
                schema: None,
            },
            ColumnRefModel::Column(name) => ColumnRefParts {
                col: ColumnNameModel::Name(name),
                table: None,
                schema: None,
            },
        }
    }

    /// The printed form.
    pub open spec fn repr(self) -> Seq<char> {
        "<ColumnRef "@ + self.col.text() + (match self.table {
            Some(table) => " table="@ + debug_text(table),
            None => Seq::empty(),
        }) + (match self.schema {
            Some(schema) => " schema="@ + debug_text(schema),
            None => Seq::empty(),
        }) + ">"@
    }
}

/// A reference of the engine, taken apart and put together again, is the
/// reference that it was.
pub proof fn column_ref_round_trip(reference: ColumnRefModel)
    ensures
        ColumnRefParts::of_engine(reference).engine_form() == reference,
{
}

/// The parts of a reference, put together and taken apart again, are the
/// parts that count: those that they were, but for a schema without a table
/// and for a schema beside the asterisk.
pub proof fn column_parts_round_trip(parts: ColumnRefParts)
    ensures
        ColumnRefParts::of_engine(parts.engine_form()) == parts <==> (parts.schema is Some
            ==> parts.table is Some && parts.col is Name),
{
}

impl PyColumnRef {
    /// The reference to the column `name`, of the table and the schema where
    /// they are given. The name is taken as it is, `*` too.
    pub fn new(name: String, table: Option<String>, schema: Option<String>) -> (r: Self)
        ensures
            r@ == (ColumnRefParts {
                col: ColumnNameModel::Name(name@),
                table: optional_text(table),
                schema: optional_text(schema),
            }),
    {
        PyColumnRef { col: ColumnNameOrAstrisk::Name(name), table, schema }
    }

    /// The name of the column, `*` for the asterisk.
    pub fn name(&self) -> (r: String)
        ensures
            r@ == self@.col.name(),
    {
        match &self.col {
            ColumnNameOrAstrisk::Astrisk => owned("*"),
            ColumnNameOrAstrisk::Name(name) => name.clone(),
        }
    }

    /// The name of the table, where one is given.
    pub fn table(&self) -> (r: Option<String>)
        ensures
            optional_text(r) == self@.table,
    {
        copy_optional(&self.table)
    }

    /// The name of the schema, where one is given.
    pub fn schema(&self) -> (r: Option<String>)
        ensures
            optional_text(r) == self@.schema,
    {
        copy_optional(&self.schema)
    }

    /// Reads a reference to a column from a text: `name`, `table.name` or
    /// `schema.table.name`, where `*` as the name stands for all columns.
    pub fn from_str(s: &str) -> (r: Result<Self, String>)
        ensures
            match r {
                Ok(reference) => ColumnRefParts::parse(s@) == Ok::<ColumnRefParts, Seq<char>>(
                    reference@,
                ),
                Err(message) => ColumnRefParts::parse(s@) == Err::<ColumnRefParts, Seq<char>>(
                    message@,
                ),
            },
    {
        let text = trimmed(s);
        Self::from_trimmed(text.as_str())
    }

    /// Reads a reference to a column from a text that has no white space at
    /// its ends: it is cut at its dots, and the pieces are, from the last
    /// backwards, the name, the table and the schema.
    pub fn from_trimmed(text: &str) -> (r: Result<Self, String>)
        ensures
            match r {
                Ok(reference) => ColumnRefParts::parse_trimmed(text@) == Ok::<
                    ColumnRefParts,
                    Seq<char>,
                >(reference@),
                Err(message) => ColumnRefParts::parse_trimmed(text@) == Err::<
                    ColumnRefParts,
                    Seq<char>,
                >(message@),
            },
    {
        if text.unicode_len() == 0 {
            return Err(owned("cannot parse an empty string"));
        }
        let mut pieces = dotted(text);
        proof {
            split_dots_is_not_empty(text@);
        }
        if pieces.len() > 3 {
            return Err(owned("invalid format"));
        }
        let name = pieces.pop().unwrap();
        let table = pieces.pop();
        let schema = pieces.pop();
        let col = if is_word(&name, "*") {
            ColumnNameOrAstrisk::Astrisk
        } else {
            ColumnNameOrAstrisk::Name(name)
        };
        Ok(PyColumnRef { col, table, schema })
    }

    /// Reads a reference to a column from a text. See [`Self::from_str`].
    pub fn parse(string: String) -> (r: Result<Self, String>)
        ensures
            match r {
                Ok(reference) => ColumnRefParts::parse(string@) == Ok::<ColumnRefParts, Seq<char>>(
                    reference@,
                ),
                Err(message) => ColumnRefParts::parse(string@) == Err::<ColumnRefParts, Seq<char>>(
                    message@,
                ),
            },
    {
        Self::from_str(string.as_str())
    }

    /// A copy.
    pub fn copy(&self) -> (r: Self)
        ensures
            r@ == self@,
    {
        PyColumnRef {
            col: self.col.duplicate(),
            table: copy_optional(&self.table),
            schema: copy_optional(&self.schema),
        }
    }

    /// Whether two references have the same parts.
    pub fn __eq__(&self, other: &Self) -> (r: bool)
        ensures
            r == (self@ == other@),
    {
        self.col.same(&other.col) && same_optional(&self.schema, &other.schema) && same_optional(
            &self.table,
            &other.table,
        )
    }

    /// Whether two references differ in a part.
    pub fn __ne__(&self, other: &Self) -> (r: bool)
        ensures
            r == (self@ != other@),
    {
        !self.__eq__(other)
    }

    /// The reference as the engine takes it.
    pub fn into_column_ref(self) -> (r: ColumnRef)
        ensures
            r@ == self@.engine_form(),
    {
        match self.col {
            ColumnNameOrAstrisk::Name(name) => match (self.table, self.schema) {
                (Some(table), Some(schema)) => ColumnRef::SchemaTableColumn(schema, table, name),
                (Some(table), None) => ColumnRef::TableColumn(table, name),
                _ => ColumnRef::Column(name),
            },
            ColumnNameOrAstrisk::Astrisk => match self.table {
                Some(table) => ColumnRef::TableAsterisk(table),
                None => ColumnRef::Asterisk,
            },
        }
    }

    /// The parts of a reference of the engine.
    pub fn from(value: ColumnRef) -> (r: Self)
        ensures
            r@ == ColumnRefParts::of_engine(value@),
    {
        match value {
            ColumnRef::Asterisk => PyColumnRef {
                col: ColumnNameOrAstrisk::Astrisk,
                table: None,
                schema: None,
            },
            ColumnRef::TableAsterisk(table) => PyColumnRef {
                col: ColumnNameOrAstrisk::Astrisk,
                table: Some(table),
                schema: None,
            },
            ColumnRef::SchemaTableColumn(schema, table, name) => PyColumnRef {
                col: ColumnNameOrAstrisk::Name(name),
                table: Some(table),
                schema: Some(schema),
            },
            ColumnRef::TableColumn(table, name) => PyColumnRef {
                col: ColumnNameOrAstrisk::Name(name),
                table: Some(table),
                schema: None,
            },
            ColumnRef::Column(name) => PyColumnRef {
                col: ColumnNameOrAstrisk::Name(name),
                table: None,
                schema: None,
            },
        }
    }

    /// The printed form: the column, then the table and the schema where
    /// they are given, each quoted.
    pub fn __repr__(&self) -> (r: String)
        ensures
            r@ == self@.repr(),
    {
        let mut s = joined(owned("<ColumnRef "), self.col.fmt().as_str());
        let ghost head = s@;
        match &self.table {
            Some(table) => {
                s = joined(s, " table=");
                s = joined(s, quoted(table.as_str()).as_str());
                assert(s@ =~= head + (" table="@ + debug_text(table@)));
            },
            None => {
                assert(s@ =~= head + Seq::<char>::empty());
            },
        }
        let ghost middle = s@;
        match &self.schema {
            Some(schema) => {
                s = joined(s, " schema=");
                s = joined(s, quoted(schema.as_str()).as_str());
                assert(s@ =~= middle + (" schema="@ + debug_text(schema@)));
            },
            None => {
                assert(s@ =~= middle + Seq::<char>::empty());
            },
        }
        joined(s, ">")
    }
}

impl Clone for PyColumnRef {
    fn clone(&self) -> (r: Self)
        ensures
            r@ == self@,
    {
        self.copy()
    }
}

/// A keyword argument: a key, and a text that may be missing.
pub open spec fn keyword(argument: (String, Option<String>)) -> (Seq<char>, Option<Seq<char>>) {
    (argument.0@, optional_text(argument.1))
}

/// The keys and texts of a list of keyword arguments.
pub open spec fn keywords(arguments: Vec<(String, Option<String>)>) -> Seq<
    (Seq<char>, Option<Seq<char>>),
> {
    Seq::new(arguments.len() as nat, |i: int| keyword(arguments[i]))
}

/// The message for a key that stands for no part.
pub open spec fn unexpected_keyword(key: Seq<char>) -> Seq<char> {
    "got an unexpected keyword argument '"@ + key + "'"@
}

impl ColumnRefParts {
    /// The parts with one of them set anew: `name`, `table` or `schema`. A
    /// missing name leaves the column as it is.
    pub open spec fn with(self, key: Seq<char>, value: Option<Seq<char>>) -> Result<
        ColumnRefParts,
        Seq<char>,
    > {
        if key == "name"@ {
            match value {
                Some(name) => Ok(ColumnRefParts { col: ColumnNameModel::Name(name), ..self }),
                None => Ok(self),
            }
        } else if key == "table"@ {
            Ok(ColumnRefParts { table: value, ..self })
        } else if key == "schema"@ {
            Ok(ColumnRefParts { schema: value, ..self })
        } else {
            Err(unexpected_keyword(key))
        }
    }

    /// The parts with the keyword arguments applied one after the other,
    /// up to the first with an unexpected key.
    pub open spec fn with_all(self, arguments: Seq<(Seq<char>, Option<Seq<char>>)>) -> Result<
        ColumnRefParts,
        Seq<char>,
    >
        decreases arguments.len(),
    {
        if arguments.len() == 0 {
            Ok(self)
        } else {
            match self.with_all(arguments.drop_last()) {
                Ok(parts) => parts.with(arguments.last().0, arguments.last().1),
                Err(message) => Err(message),
            }
        }
    }
}

impl PyColumnRef {
    /// A copy with the parts that the keyword arguments name set anew.
    pub fn copy_with(&self, kwds: &Vec<(String, Option<String>)>) -> (r: Result<Self, String>)
        ensures
            match r {
                Ok(reference) => self@.with_all(keywords(*kwds)) == Ok::<ColumnRefParts, Seq<char>>(
                    reference@,
                ),
                Err(message) => self@.with_all(keywords(*kwds)) == Err::<ColumnRefParts, Seq<char>>(
                    message@,
                ),
            },
    {
        let ghost all = keywords(*kwds);
        let mut cloned = self.copy();
        let mut i: usize = 0;
        assert(all.take(0) =~= Seq::<(Seq<char>, Option<Seq<char>>)>::empty());
        while i < kwds.len()
            invariant
                0 <= i <= kwds.len(),
                all == keywords(*kwds),
                self@.with_all(all.take(i as int)) == Ok::<ColumnRefParts, Seq<char>>(cloned@),
            decreases kwds.len() - i,
        {
            proof {
                assert(all.take(i + 1).drop_last() =~= all.take(i as int));
                assert(all.take(i + 1).last() == keyword(kwds[i as int]));
            }
            let key = &kwds[i].0;
            let val = copy_optional(&kwds[i].1);
            if is_word(key, "name") {
                if let Some(x) = val {
                    cloned.col = ColumnNameOrAstrisk::Name(x);
                }
            } else if is_word(key, "table") {
                cloned.table = val;
            } else if is_word(key, "schema") {
                cloned.schema = val;
            } else {
                let message = joined(owned("got an unexpected keyword argument '"), key.as_str());
                proof {
                    with_all_fails_for_good(self@, all, i + 1);
                }
                return Err(joined(message, "'"));
            }
            i = i + 1;
        }
        assert(all.take(kwds.len() as int) =~= all);
        Ok(cloned)
    }
}

/// Once a keyword argument has an unexpected key, those after it count no
/// more.
pub proof fn with_all_fails_for_good(
    parts: ColumnRefParts,
    arguments: Seq<(Seq<char>, Option<Seq<char>>)>,
    k: int,
)
    requires
        0 <= k <= arguments.len(),
        parts.with_all(arguments.take(k)) is Err,
    ensures
        parts.with_all(arguments) == parts.with_all(arguments.take(k)),
    decreases arguments.len() - k,
{
    if k < arguments.len() {
        assert(arguments.take(k + 1).drop_last() =~= arguments.take(k));
        with_all_fails_for_good(parts, arguments, k + 1);
    } else {
        assert(arguments.take(k) =~= arguments);
    }
}

/// A reference to a table as the engine takes it: by the parts that count.
#[derive(Debug, PartialEq, Eq)]
pub enum TableRef {
    Table(String),
    SchemaTable(String, String),
    DatabaseSchemaTable(String, String, String),
    TableAlias(String, String),
    SchemaTableAlias(String, String, String),
    DatabaseSchemaTableAlias(String, String, String, String),
    /// A reference to what is no table: a subquery, a list of values, a
    /// function call.
    Other,
}

/// The mathematical form of a [`TableRef`].
pub enum TableRefModel {
    Table(Seq<char>),
    SchemaTable(Seq<char>, Seq<char>),
    DatabaseSchemaTable(Seq<char>, Seq<char>, Seq<char>),
    TableAlias(Seq<char>, Seq<char>),
    SchemaTableAlias(Seq<char>, Seq<char>, Seq<char>),
    DatabaseSchemaTableAlias(Seq<char>, Seq<char>, Seq<char>, Seq<char>),
    Other,
}

impl View for TableRef {
    type V = TableRefModel;

    open spec fn view(&self) -> TableRefModel {
        match self {
            TableRef::Table(name) => TableRefModel::Table(name@),
            TableRef::SchemaTable(schema, name) => TableRefModel::SchemaTable(schema@, name@),
            TableRef::DatabaseSchemaTable(database, schema, name) =>
                TableRefModel::DatabaseSchemaTable(database@, schema@, name@),
            TableRef::TableAlias(name, alias) => TableRefModel::TableAlias(name@, alias@),
            TableRef::SchemaTableAlias(schema, name, alias) => TableRefModel::SchemaTableAlias(
                schema@,
                name@,
                alias@,
            ),
            TableRef::DatabaseSchemaTableAlias(database, schema, name, alias) =>
                TableRefModel::DatabaseSchemaTableAlias(database@, schema@, name@, alias@),
            TableRef::Other => TableRefModel::Other,
        }
    }
}

/// The name of a table, with the schema, the database and the alias where
/// they are given.
#[derive(Debug, PartialEq, Eq)]
pub struct PyTableName {
    pub name: String,
    pub schema: Option<String>,
    pub database: Option<String>,
    pub alias: Option<String>,
}

/// The mathematical form of a [`PyTableName`].
pub struct TableNameParts {
    pub name: Seq<char>,
    pub schema: Option<Seq<char>>,
    pub database: Option<Seq<char>>,
    pub alias: Option<Seq<char>>,
}

impl View for PyTableName {
    type V = TableNameParts;

    open spec fn view(&self) -> TableNameParts {
        TableNameParts {
            name: self.name@,
            schema: optional_text(self.schema),
            database: optional_text(self.database),
            alias: optional_text(self.alias),
        }
    }
}

impl TableNameParts {
    /// What a text stands for as the name of a table: `name`, `schema.name`
    /// or `database.schema.name`, white space at the ends apart.
    pub open spec fn parse(s: Seq<char>) -> Result<TableNameParts, Seq<char>> {
        Self::parse_trimmed(trimmed_text(s))
    }

    /// What a text without white space at its ends stands for as the name
    /// of a table.
    pub open spec fn parse_trimmed(text: Seq<char>) -> Result<TableNameParts, Seq<char>> {
        let pieces = split_dots(text);
        if text.len() == 0 {
            Err("cannot parse an empty string"@)
        } else if pieces.len() > 3 {
            Err("invalid format"@)
        } else {
            Ok(
                TableNameParts {
                    name: pieces.last(),
                    schema: piece(pieces, 1),
                    database: piece(pieces, 2),
                    alias: None,
                },
            )
        }
    }

    /// The name as the engine takes it. A database counts only with a
    /// schema, and an alias does not count beside a database without one.
    pub open spec fn engine_form(self) -> TableRefModel {
        match (self.schema, self.database, self.alias) {
            (Some(schema), Some(database), Some(alias)) => TableRefModel::DatabaseSchemaTableAlias(
                database,
                schema,
                self.name,
                alias,
            ),
            (Some(schema), None, Some(alias)) => TableRefModel::SchemaTableAlias(
                schema,
                self.name,
                alias,
            ),
            (Some(schema), Some(database), None) => TableRefModel::DatabaseSchemaTable(
                database,
                schema,
                self.name,
            ),
            (Some(schema), None, None) => TableRefModel::SchemaTable(schema, self.name),
            (None, None, Some(alias)) => TableRefModel::TableAlias(self.name, alias),
            _ => TableRefModel::Table(self.name),
        }
    }

    /// The parts of a reference of the engine to a table, and nothing for a
    /// reference to what is no table.
    pub open spec fn of_engine(reference: TableRefModel) -> Option<TableNameParts> {
        match reference {
            TableRefModel::DatabaseSchemaTableAlias(database, schema, name, alias) => Some(
                TableNameParts {
                    name,
                    schema: Some(schema),
                    database: Some(database),
                    alias: Some(alias),
                },
            ),
            TableRefModel::SchemaTableAlias(schema, name, alias) => Some(
                TableNameParts { name, schema: Some(schema), database: None, alias: Some(alias) },
            ),
            TableRefModel::TableAlias(name, alias) => Some(
                TableNameParts { name, schema: None, database: None, alias: Some(alias) },
            ),
            TableRefModel::DatabaseSchemaTable(database, schema, name) => Some(
                TableNameParts {
                    name,
                    schema: Some(schema),
                    database: Some(database),
                    alias: None,
                },
            ),
            TableRefModel::SchemaTable(schema, name) => Some(
                TableNameParts { name, schema: Some(schema), database: None, alias: None },
            ),
            TableRefModel::Table(name) => Some(
                TableNameParts { name, schema: None, database: None, alias: None },
            ),
            TableRefModel::Other => None,
        }
    }

    /// Whether two names are the name of one table: the alias does not count.
    pub open spec fn same_table(self, other: TableNameParts) -> bool {
        self.name == other.name && self.database == other.database && self.schema == other.schema
    }

    /// The printed form.
    pub open spec fn repr(self) -> Seq<char> {
        "<TableName "@ + debug_text(self.name) + (match self.schema {
            Some(schema) => " schema="@ + debug_text(schema),
            None => Seq::empty(),
        }) + (match self.database {
            Some(database) => " database="@ + debug_text(database),
            None => Seq::empty(),
        }) + (match self.alias {
            Some(alias) => " alias="@ + debug_text(alias),
            None => Seq::empty(),
        }) + ">"@
    }

    /// The parts with one of them set anew: `name`, `database`, `schema` or
    /// `alias`. A missing name leaves the name as it is.
    pub open spec fn with(self, key: Seq<char>, value: Option<Seq<char>>) -> Result<
        TableNameParts,
        Seq<char>,
    > {
        if key == "name"@ {
            match value {
                Some(name) => Ok(TableNameParts { name, ..self }),
                None => Ok(self),
            }
        } else if key == "database"@ {
            Ok(TableNameParts { database: value, ..self })
        } else if key == "schema"@ {
            Ok(TableNameParts { schema: value, ..self })
        } else if key == "alias"@ {
            Ok(TableNameParts { alias: value, ..self })
        } else {
            Err(unexpected_keyword(key))
        }
    }

    /// The parts with the keyword arguments applied one after the other,
    /// up to the first with an unexpected key.
    pub open spec fn with_all(self, arguments: Seq<(Seq<char>, Option<Seq<char>>)>) -> Result<
        TableNameParts,
        Seq<char>,
    >
        decreases arguments.len(),
    {
        if arguments.len() == 0 {
            Ok(self)
        } else {
            match self.with_all(arguments.drop_last()) {
                Ok(parts) => parts.with(arguments.last().0, arguments.last().1),
                Err(message) => Err(message),
            }
        }
    }
}

/// A reference of the engine to a table, taken apart and put together
/// again, is the reference that it was.
pub proof fn table_ref_round_trip(reference: TableRefModel)
    requires
        !(reference is Other),
    ensures
        TableNameParts::of_engine(reference) matches Some(parts) && parts.engine_form()
            == reference,
{
}

/// The parts of a table name, put together and taken apart again, are the
/// parts that they were, but for a database without a schema, beside which
/// the alias is lost too.
pub proof fn table_parts_round_trip(parts: TableNameParts)
    ensures
        TableNameParts::of_engine(parts.engine_form()) == Some(parts) <==> (parts.database is Some
            ==> parts.schema is Some),
{
}

/// Once a keyword argument has an unexpected key, those after it count no
/// more.
pub proof fn table_with_all_fails_for_good(
    parts: TableNameParts,
    arguments: Seq<(Seq<char>, Option<Seq<char>>)>,
    k: int,
)
    requires
        0 <= k <= arguments.len(),
        parts.with_all(arguments.take(k)) is Err,
    ensures
        parts.with_all(arguments) == parts.with_all(arguments.take(k)),
    decreases arguments.len() - k,
{
    if k < arguments.len() {
        assert(arguments.take(k + 1).drop_last() =~= arguments.take(k));
        table_with_all_fails_for_good(parts, arguments, k + 1);
    } else {
        assert(arguments.take(k) =~= arguments);
    }
}

impl PyTableName {
    /// The name of the table `name`, with the schema, the database and the
    /// alias where they are given.
    pub fn new(
        name: String,
        schema: Option<String>,
        database: Option<String>,
        alias: Option<String>,
    ) -> (r: Self)
        ensures
            r@ == (TableNameParts {
                name: name@,
                schema: optional_text(schema),
                database: optional_text(database),
                alias: optional_text(alias),
            }),
    {
        PyTableName { name, schema, database, alias }
    }

    /// The name of the table.
    pub fn name(&self) -> (r: String)
        ensures
            r@ == self@.name,
    {
        self.name.clone()
    }

    /// The name of the schema, where one is given.
    pub fn schema(&self) -> (r: Option<String>)
        ensures
            optional_text(r) == self@.schema,
    {
        copy_optional(&self.schema)
    }

    /// The name of the database, where one is given.
    pub fn database(&self) -> (r: Option<String>)
        ensures
            optional_text(r) == self@.database,
    {
        copy_optional(&self.database)
    }

    /// The alias, where one is given.
    pub fn alias(&self) -> (r: Option<String>)
        ensures
            optional_text(r) == self@.alias,
    {
        copy_optional(&self.alias)
    }

    /// Reads the name of a table from a text: `name`, `schema.name` or
    /// `database.schema.name`.
    pub fn from_str(s: &str) -> (r: Result<Self, String>)
        ensures
            match r {
                Ok(table) => TableNameParts::parse(s@) == Ok::<TableNameParts, Seq<char>>(table@),
                Err(message) => TableNameParts::parse(s@) == Err::<TableNameParts, Seq<char>>(
                    message@,
                ),
            },
    {
        let text = trimmed(s);
        Self::from_trimmed(text.as_str())
    }

    /// Reads the name of a table from a text that has no white space at its
    /// ends: it is cut at its dots, and the pieces are, from the last
    /// backwards, the name, the schema and the database.
    pub fn from_trimmed(text: &str) -> (r: Result<Self, String>)
        ensures
            match r {
                Ok(table) => TableNameParts::parse_trimmed(text@) == Ok::<
                    TableNameParts,
                    Seq<char>,
                >(table@),
                Err(message) => TableNameParts::parse_trimmed(text@) == Err::<
                    TableNameParts,
                    Seq<char>,
                >(message@),
            },
    {
        if text.unicode_len() == 0 {
            return Err(owned("cannot parse an empty string"));
        }
        let mut pieces = dotted(text);
        proof {
            split_dots_is_not_empty(text@);
        }
        if pieces.len() > 3 {
            return Err(owned("invalid format"));
        }
        let name = pieces.pop().unwrap();
        let schema = pieces.pop();
        let database = pieces.pop();
        Ok(PyTableName { name, schema, database, alias: None })
    }

    /// Reads the name of a table from a text. See [`Self::from_str`].
    pub fn parse(string: String) -> (r: Result<Self, String>)
        ensures
            match r {
                Ok(table) => TableNameParts::parse(string@) == Ok::<TableNameParts, Seq<char>>(
                    table@,
                ),
                Err(message) => TableNameParts::parse(string@) == Err::<TableNameParts, Seq<char>>(
                    message@,
                ),
            },
    {
        Self::from_str(string.as_str())
    }

    /// A copy.
    pub fn copy(&self) -> (r: Self)
        ensures
            r@ == self@,
    {
        PyTableName {
            name: self.name.clone(),
            schema: copy_optional(&self.schema),
            database: copy_optional(&self.database),
            alias: copy_optional(&self.alias),
        }
    }

    /// A copy with the parts that the keyword arguments name set anew.
    pub fn copy_with(&self, kwds: &Vec<(String, Option<String>)>) -> (r: Result<Self, String>)
        ensures
            match r {
                Ok(table) => self@.with_all(keywords(*kwds)) == Ok::<TableNameParts, Seq<char>>(
                    table@,
                ),
                Err(message) => self@.with_all(keywords(*kwds)) == Err::<TableNameParts, Seq<char>>(
                    message@,
                ),
            },
    {
        let ghost all = keywords(*kwds);
        let mut cloned = self.copy();
        let mut i: usize = 0;
        assert(all.take(0) =~= Seq::<(Seq<char>, Option<Seq<char>>)>::empty());
        while i < kwds.len()
            invariant
                0 <= i <= kwds.len(),
                all == keywords(*kwds),
                self@.with_all(all.take(i as int)) == Ok::<TableNameParts, Seq<char>>(cloned@),
            decreases kwds.len() - i,
        {
            proof {
                assert(all.take(i + 1).drop_last() =~= all.take(i as int));
                assert(all.take(i + 1).last() == keyword(kwds[i as int]));
            }
            let key = &kwds[i].0;
            let val = copy_optional(&kwds[i].1);
            if is_word(key, "name") {
                if let Some(x) = val {
                    cloned.name = x;
                }
            } else if is_word(key, "database") {
                cloned.database = val;
            } else if is_word(key, "schema") {
                cloned.schema = val;
            } else if is_word(key, "alias") {
                cloned.alias = val;
            } else {
                let message = joined(owned("got an unexpected keyword argument '"), key.as_str());
                proof {
                    table_with_all_fails_for_good(self@, all, i + 1);
                }
                return Err(joined(message, "'"));
            }
            i = i + 1;
        }
        assert(all.take(kwds.len() as int) =~= all);
        Ok(cloned)
    }

    /// Whether two names are the name of one table: the alias does not count.
    pub fn __eq__(&self, other: &Self) -> (r: bool)
        ensures
            r == self@.same_table(other@),
    {
        self.name == other.name && same_optional(&self.database, &other.database) && same_optional(
            &self.schema,
            &other.schema,
        )
    }

    /// Whether two names are names of different tables.
    pub fn __ne__(&self, other: &Self) -> (r: bool)
        ensures
            r == !self@.same_table(other@),
    {
        !self.__eq__(other)
    }

    /// The name as the engine takes it.
    pub fn into_table_ref(self) -> (r: TableRef)
        ensures
            r@ == self@.engine_form(),
    {
        match (self.schema, self.database, self.alias) {
            (Some(schema), Some(database), Some(alias)) => TableRef::DatabaseSchemaTableAlias(
                database,
                schema,
                self.name,
                alias,
            ),
            (Some(schema), None, Some(alias)) => TableRef::SchemaTableAlias(schema, self.name, alias),
            (Some(schema), Some(database), None) => TableRef::DatabaseSchemaTable(
                database,
                schema,
                self.name,
            ),
            (Some(schema), None, None) => TableRef::SchemaTable(schema, self.name),
            (None, None, Some(alias)) => TableRef::TableAlias(self.name, alias),
            _ => TableRef::Table(self.name),
        }
    }

    /// The parts of a reference of the engine to a table, or an error for a
    /// reference to what is no table.
    pub fn try_from(value: TableRef) -> (r: Result<Self, ()>)
        ensures
            match r {
                Ok(table) => TableNameParts::of_engine(value@) == Some(table@),
                Err(_) => TableNameParts::of_engine(value@) is None,
            },
    {
        match value {
            TableRef::DatabaseSchemaTableAlias(database, schema, name, alias) => Ok(
                PyTableName {
                    name,
                    schema: Some(schema),
                    database: Some(database),
                    alias: Some(alias),
                },
            ),
            TableRef::SchemaTableAlias(schema, name, alias) => Ok(
                PyTableName { name, schema: Some(schema), database: None, alias: Some(alias) },
            ),
            TableRef::TableAlias(name, alias) => Ok(
                PyTableName { name, schema: None, database: None, alias: Some(alias) },
            ),
            TableRef::DatabaseSchemaTable(database, schema, name) => Ok(
                PyTableName { name, schema: Some(schema), database: Some(database), alias: None },
            ),
            TableRef::SchemaTable(schema, name) => Ok(
                PyTableName { name, schema: Some(schema), database: None, alias: None },
            ),
            TableRef::Table(name) => Ok(
                PyTableName { name, schema: None, database: None, alias: None },
            ),
            TableRef::Other => Err(()),
        }
    }

    /// The printed form: the name, then the schema, the database and the
    /// alias where they are given, each quoted.
    pub fn __repr__(&self) -> (r: String)
        ensures
            r@ == self@.repr(),
    {
        let mut s = joined(owned("<TableName "), quoted(self.name.as_str()).as_str());
        let ghost head = s@;
        match &self.schema {
            Some(schema) => {
                s = joined(s, " schema=");
                s = joined(s, quoted(schema.as_str()).as_str());
                assert(s@ =~= head + (" schema="@ + debug_text(schema@)));
            },
            None => {
                assert(s@ =~= head + Seq::<char>::empty());
            },
        }
        let ghost second = s@;
        match &self.database {
            Some(database) => {
                s = joined(s, " database=");
                s = joined(s, quoted(database.as_str()).as_str());
                assert(s@ =~= second + (" database="@ + debug_text(database@)));
            },
            None => {
                assert(s@ =~= second + Seq::<char>::empty());
            },
        }
        let ghost third = s@;
        match &self.alias {
            Some(alias) => {
                s = joined(s, " alias=");
                s = joined(s, quoted(alias.as_str()).as_str());
                assert(s@ =~= third + (" alias="@ + debug_text(alias@)));
            },
            None => {
                assert(s@ =~= third + Seq::<char>::empty());
            },
        }
        joined(s, ">")
    }
}

impl Clone for PyTableName {
    fn clone(&self) -> (r: Self)
        ensures
            r@ == self@,
    {
        self.copy()
    }
}

/// The order of an index on a column.
#[derive(Clone, Copy, Debug, PartialEq, Eq, Structural)]
pub enum IndexOrder {
    Asc,
    Desc,
}

/// A column of an index: its name, with the length of the prefix and the
/// order where they are given.
#[derive(Debug, PartialEq, Eq)]
pub struct PyIndexColumn {
    pub name: String,
    pub prefix: Option<u32>,
    pub order: Option<IndexOrder>,
}

/// The column as the engine takes it.
#[derive(Debug, PartialEq, Eq)]
pub enum IndexColumn {
    Plain(String),
    Prefixed(String, u32),
    Ordered(String, IndexOrder),
    PrefixedOrdered(String, u32, IndexOrder),
}

/// The order that a word stands for, letter case apart.
pub open spec fn index_order_of(word: Seq<char>) -> Option<IndexOrder> {
    let lower = ascii_lower(word);
    if lower == "asc"@ {
        Some(IndexOrder::Asc)
    } else if lower == "desc"@ {
        Some(IndexOrder::Desc)
    } else {
        None
    }
}

/// The word for an order.
pub open spec fn index_order_text(order: IndexOrder) -> Seq<char> {
    match order {
        IndexOrder::Asc => "asc"@,
        IndexOrder::Desc => "desc"@,
    }
}

/// The message for a word that stands for no order. It shows the word in
/// lower case.
pub open spec fn invalid_index_order(word: Seq<char>) -> Seq<char> {
    "invalid order value, expected 'asc', 'desc' or None; got "@ + debug_text(
        ascii_lower(word),
    )
}

/// The printed form of a column of an index.
pub open spec fn index_column_repr(name: Seq<char>, prefix: Option<u32>, order: Option<IndexOrder>) -> Seq<
    char,
> {
    "<IndexColumn "@ + debug_text(name) + (match prefix {
        Some(p) => " prefix="@ + decimal_digits(p as nat),
        None => Seq::empty(),
    }) + (match order {
        Some(o) => " order='"@ + index_order_text(o) + "'"@,
        None => Seq::empty(),
    }) + ">"@
}

impl PyIndexColumn {
    /// The column `name` of an index, with the order that a word stands
    /// for: `asc`, `desc` or nothing.
    pub fn new(name: String, prefix: Option<u32>, order: Option<String>) -> (r: Result<Self, String>)
        ensures
            match r {
                Ok(column) => {
                    &&& column.name@ == name@
                    &&& column.prefix == prefix
                    &&& match order {
                        Some(word) => index_order_of(word@) is Some && column.order
                            == index_order_of(word@),
                        None => column.order is None,
                    }
                },
                Err(message) => order matches Some(word) && index_order_of(word@) is None
                    && message@ == invalid_index_order(word@),
            },
    {
        let order = match &order {
            Some(word) => {
                let lower = lowered(word.as_str());
                if is_word(&lower, "asc") {
                    Some(IndexOrder::Asc)
                } else if is_word(&lower, "desc") {
                    Some(IndexOrder::Desc)
                } else {
                    let message = owned(
                        "invalid order value, expected 'asc', 'desc' or None; got ",
                    );
                    return Err(joined(message, quoted(lower.as_str()).as_str()));
                }
            },
            None => None,
        };
        Ok(PyIndexColumn { name, prefix, order })
    }

    /// The column `value` of an index, without a prefix and without an order.
    pub fn from(value: &str) -> (r: Self)
        ensures
            r.name@ == value@,
            r.prefix is None,
            r.order is None,
    {
        PyIndexColumn { name: owned(value), prefix: None, order: None }
    }

    /// The name of the column.
    pub fn name(&self) -> (r: String)
        ensures
            r@ == self.name@,
    {
        self.name.clone()
    }

    /// The length of the prefix, where one is given.
    pub fn prefix(&self) -> (r: Option<u32>)
        ensures
            r == self.prefix,
    {
        self.prefix
    }

    /// The word for the order, where one is given.
    pub fn order(&self) -> (r: Option<String>)
        ensures
            match self.order {
                Some(o) => r matches Some(word) && word@ == index_order_text(o),
                None => r is None,
            },
    {
        match self.order {
            Some(IndexOrder::Asc) => Some(owned("asc")),
            Some(IndexOrder::Desc) => Some(owned("desc")),
            None => None,
        }
    }

    /// A copy.
    pub fn copy(&self) -> (r: Self)
        ensures
            r.name@ == self.name@,
            r.prefix == self.prefix,
            r.order == self.order,
    {
        PyIndexColumn { name: self.name.clone(), prefix: self.prefix, order: self.order }
    }

    /// The column as the engine takes it.
    pub fn into_index_column(self) -> (r: IndexColumn)
        ensures
            match (self.prefix, self.order) {
                (Some(p), Some(o)) => r matches IndexColumn::PrefixedOrdered(name, rp, ro)
                    && name@ == self.name@ && rp == p && ro == o,
                (Some(p), None) => r matches IndexColumn::Prefixed(name, rp) && name@ == self.name@
                    && rp == p,
                (None, Some(o)) => r matches IndexColumn::Ordered(name, ro) && name@ == self.name@
                    && ro == o,
                (None, None) => r matches IndexColumn::Plain(name) && name@ == self.name@,
            },
    {
        match (self.prefix, self.order) {
            (Some(p), Some(o)) => IndexColumn::PrefixedOrdered(self.name, p, o),
            (Some(p), None) => IndexColumn::Prefixed(self.name, p),
            (None, Some(o)) => IndexColumn::Ordered(self.name, o),
            (None, None) => IndexColumn::Plain(self.name),
        }
    }

    /// The printed form: the name quoted, then the prefix and the order
    /// where they are given.
    pub fn __repr__(&self) -> (r: String)
        ensures
            r@ == index_column_repr(self.name@, self.prefix, self.order),
    {
        let mut s = joined(owned("<IndexColumn "), quoted(self.name.as_str()).as_str());
        let ghost head = s@;
        match self.prefix {
            Some(p) => {
                s = joined(s, " prefix=");
                s = joined(s, number_text(p).as_str());
                assert(s@ =~= head + (" prefix="@ + decimal_digits(p as nat)));
            },
            None => {
                assert(s@ =~= head + Seq::<char>::empty());
            },
        }
        let ghost middle = s@;
        match self.order {
            Some(IndexOrder::Asc) => {
                s = joined(s, " order='asc'");
                proof {
                    reveal_strlit(" order='asc'");
                    reveal_strlit(" order='");
                    reveal_strlit("asc");
                    reveal_strlit("'");
                }
                assert(s@ =~= middle + (" order='"@ + "asc"@ + "'"@));
            },
            Some(IndexOrder::Desc) => {
                s = joined(s, " order='desc'");
                proof {
                    reveal_strlit(" order='desc'");
                    reveal_strlit(" order='");
                    reveal_strlit("desc");
                    reveal_strlit("'");
                }
                assert(s@ =~= middle + (" order='"@ + "desc"@ + "'"@));
            },
            None => {
                assert(s@ =~= middle + Seq::<char>::empty());
            },
        }
        joined(s, ">")
    }
}

impl Clone for PyIndexColumn {
    fn clone(&self) -> (r: Self)
        ensures
            r.name@ == self.name@,
            r.prefix == self.prefix,
            r.order == self.order,
    {
        self.copy()
    }
}

} // verus!
