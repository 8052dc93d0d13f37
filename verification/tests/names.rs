use rapidquery::backend::{into_query_builder, into_schema_builder, Backend};
use rapidquery::column::LazyColumnRef;
use rapidquery::common::{
    ColumnNameOrAstrisk, ColumnRef, IndexColumn, IndexOrder, PyColumnRef, PyIndexColumn,
    PyTableName, TableRef,
};
use rapidquery::foreign_key::{ForeignKeyAction, ForeignKeyActionAlias, ForeignKeyInner};
use rapidquery::index::{IndexInner, IndexOptions, IndexType, IndexTypeAlias};
use rapidquery::parameters::OptionalParam;
use rapidquery::query::order::{NullOrdering, Order, OrderClause};
use rapidquery::query::select::{join, join_lateral, lock, union, JoinType, LockBehavior, LockType, UnionType};
use rapidquery::query::window::{frame, Frame, FrameClause, FrameType, PyWindowFrame};

fn s(text: &str) -> String {
    text.to_string()
}

fn some(text: &str) -> Option<String> {
    Some(text.to_string())
}

#[test]
fn backend_names_are_exact() {
    assert_eq!(into_query_builder("sqlite"), Ok(Backend::Sqlite));
    assert_eq!(into_query_builder("mysql"), Ok(Backend::Mysql));
    assert_eq!(into_query_builder("postgresql"), Ok(Backend::Postgres));
    assert_eq!(into_query_builder("postgres"), Ok(Backend::Postgres));
    assert_eq!(into_schema_builder("postgres"), Ok(Backend::Postgres));
    assert_eq!(into_query_builder("SQLite"), Err(s("invalid backend value, got SQLite")));
    assert_eq!(into_schema_builder(""), Err(s("invalid backend value, got ")));
    assert_eq!(into_query_builder("oracle"), Err(s("invalid backend value, got oracle")));
}

#[test]
fn foreign_key_actions_are_read_in_any_case() {
    let read = |text| ForeignKeyActionAlias::from_str(text).map(|alias| alias.0);
    assert_eq!(read("cascade"), Ok(ForeignKeyAction::Cascade));
    assert_eq!(read("CASCADE"), Ok(ForeignKeyAction::Cascade));
    assert_eq!(read("No Action"), Ok(ForeignKeyAction::NoAction));
    assert_eq!(read("restrict"), Ok(ForeignKeyAction::Restrict));
    assert_eq!(read("SET default"), Ok(ForeignKeyAction::SetDefault));
    assert_eq!(read("set null"), Ok(ForeignKeyAction::SetNull));
    assert_eq!(read("Set  Null"), Err(s("unknown foreign key action: Set  Null")));
    assert_eq!(read("C\u{c4}SCADE"), Err(s("unknown foreign key action: C\u{c4}SCADE")));
}

#[test]
fn foreign_key_actions_are_written_in_upper_case() {
    assert_eq!(ForeignKeyActionAlias(ForeignKeyAction::Cascade).fmt(), "CASCADE");
    assert_eq!(ForeignKeyActionAlias(ForeignKeyAction::NoAction).fmt(), "NO ACTION");
    assert_eq!(ForeignKeyActionAlias(ForeignKeyAction::Restrict).fmt(), "RESTRICT");
    assert_eq!(ForeignKeyActionAlias(ForeignKeyAction::SetDefault).fmt(), "SET DEFAULT");
    assert_eq!(ForeignKeyActionAlias(ForeignKeyAction::SetNull).fmt(), "SET NULL");
}

#[test]
fn index_types_keep_an_unknown_name_as_it_is() {
    assert_eq!(IndexTypeAlias::from(s("HASH")).0, IndexType::Hash);
    assert_eq!(IndexTypeAlias::from(s("Full Text")).0, IndexType::FullText);
    assert_eq!(IndexTypeAlias::from(s("btree")).0, IndexType::BTree);
    assert_eq!(IndexTypeAlias::from(s("GiST")).0, IndexType::Custom(s("GiST")));
    assert_eq!(IndexTypeAlias::from(s("GiST")).fmt(), "GiST");
    assert_eq!(IndexTypeAlias(IndexType::BTree).fmt(), "BTREE");
    assert_eq!(IndexTypeAlias(IndexType::FullText).fmt(), "FULL TEXT");
    assert_eq!(IndexTypeAlias(IndexType::Hash).fmt(), "HASH");
}

fn index_on(table: Option<&str>, columns: &[&str]) -> IndexInner {
    IndexInner {
        name: String::new(),
        columns: columns.iter().map(|c| PyIndexColumn::from(c)).collect(),
        table: table.map(|t| PyTableName::from_str(t).unwrap()),
        options: IndexInner::options_of(false, true, false, false),
        index_type: Some(IndexTypeAlias::from(s("btree"))),
        included: vec![s("extra")],
    }
}

#[test]
fn index_names_are_made_of_table_and_columns() {
    let mut index = index_on(Some("public.users"), &["id", "name"]);
    index.regenerate_name();
    assert_eq!(index.name, "ix_users_id_name");
    assert_eq!(index.included, vec![s("extra")]);
    assert_eq!(index.options, 2);
    let mut index = index_on(Some("users"), &[]);
    index.regenerate_name();
    assert_eq!(index.name, "ix_users");
    let mut index = index_on(None, &["a"]);
    index.name = s("old");
    index.regenerate_name();
    assert_eq!(index.name, "ix__a");
}

#[test]
fn index_options_are_set_one_by_one() {
    assert_eq!(IndexInner::options_of(true, true, true, true), 15);
    assert_eq!(IndexInner::options_of(false, false, false, false), 0);
    assert_eq!(IndexInner::options_of(true, false, false, true), 9);
    let mut index = index_on(None, &["a"]);
    assert!(index.has(IndexOptions::Unique) && !index.has(IndexOptions::Primary));
    index.set(IndexOptions::Primary, true);
    index.set(IndexOptions::Unique, false);
    index.set(IndexOptions::IfNotExists, false);
    assert!(index.has(IndexOptions::Primary) && !index.has(IndexOptions::Unique));
    assert_eq!(index.options, 1);
}

#[test]
fn optional_parameters_tell_undefined_from_defined() {
    let undefined: OptionalParam<u8> = OptionalParam::Undefined;
    assert!(undefined.is_undefined());
    let defined = OptionalParam::Defined(Some(3u8));
    assert!(!defined.is_undefined());
    assert_eq!(defined.unwrap_unchecked(), Some(3));
}

#[test]
fn order_clauses_are_read_in_any_case() {
    assert_eq!(
        OrderClause::from_parameters(s("ASC"), None),
        Ok(OrderClause { order: Order::Asc, null_order: None })
    );
    assert_eq!(
        OrderClause::from_parameters(s("desc"), some("First")),
        Ok(OrderClause { order: Order::Desc, null_order: Some(NullOrdering::First) })
    );
    assert_eq!(
        OrderClause::from_parameters(s("asc"), some("LAST")),
        Ok(OrderClause { order: Order::Asc, null_order: Some(NullOrdering::Last) })
    );
}

#[test]
fn order_clauses_name_the_word_that_is_wrong() {
    assert_eq!(
        OrderClause::from_parameters(s("Up"), some("sideways")),
        Err(s("invalid order value, expected 'asc' or 'desc'; got \"up\""))
    );
    assert_eq!(
        OrderClause::from_parameters(s("asc"), some("Middle")),
        Err(s("invalid order value, expected 'first', 'last' or None; got \"middle\""))
    );
}

#[test]
fn order_clauses_are_written_after_the_expression() {
    assert_eq!(OrderClause { order: Order::Asc, null_order: None }.fmt(), " ASC");
    assert_eq!(
        OrderClause { order: Order::Desc, null_order: Some(NullOrdering::First) }.fmt(),
        " DESCNULLS FIRST"
    );
    assert_eq!(
        OrderClause { order: Order::Asc, null_order: Some(NullOrdering::Last) }.fmt(),
        " ASCNULLS LAST"
    );
}

#[test]
fn column_references_are_read_from_dotted_names() {
    let one = PyColumnRef::from_str(" id ").unwrap();
    assert_eq!(one, PyColumnRef { col: ColumnNameOrAstrisk::Name(s("id")), table: None, schema: None });
    let two = PyColumnRef::parse(s("users.id")).unwrap();
    assert_eq!(two.name(), "id");
    assert_eq!(two.table(), some("users"));
    assert_eq!(two.schema(), None);
    let three = PyColumnRef::from_str("public.users.*").unwrap();
    assert_eq!(three.col, ColumnNameOrAstrisk::Astrisk);
    assert_eq!(three.name(), "*");
    assert_eq!(three.table(), some("users"));
    assert_eq!(three.schema(), some("public"));
    let empty_piece = PyColumnRef::from_str("a..b").unwrap();
    assert_eq!(empty_piece.table(), some(""));
    assert_eq!(empty_piece.schema(), some("a"));
}

#[test]
fn column_references_reject_what_is_no_name() {
    assert_eq!(PyColumnRef::from_str(""), Err(s("cannot parse an empty string")));
    assert_eq!(PyColumnRef::from_str(" \t\n"), Err(s("cannot parse an empty string")));
    assert_eq!(PyColumnRef::from_str("a.b.c.d"), Err(s("invalid format")));
    assert_eq!(PyColumnRef::from_str("..."), Err(s("invalid format")));
}

#[test]
fn column_references_take_the_form_of_the_engine() {
    let named = |table: Option<&str>, schema: Option<&str>| {
        PyColumnRef::new(s("id"), table.map(s), schema.map(s))
    };
    assert_eq!(named(None, None).into_column_ref(), ColumnRef::Column(s("id")));
    assert_eq!(named(Some("t"), None).into_column_ref(), ColumnRef::TableColumn(s("t"), s("id")));
    assert_eq!(
        named(Some("t"), Some("p")).into_column_ref(),
        ColumnRef::SchemaTableColumn(s("p"), s("t"), s("id"))
    );
    assert_eq!(named(None, Some("p")).into_column_ref(), ColumnRef::Column(s("id")));
    let all = PyColumnRef::from_str("*").unwrap();
    assert_eq!(all.into_column_ref(), ColumnRef::Asterisk);
    let all = PyColumnRef::from_str("p.t.*").unwrap();
    assert_eq!(all.into_column_ref(), ColumnRef::TableAsterisk(s("t")));
    let literal = PyColumnRef::new(s("*"), None, None);
    assert_eq!(literal.into_column_ref(), ColumnRef::Column(s("*")));
}

#[test]
fn column_references_come_back_from_the_engine() {
    for reference in [
        ColumnRef::Asterisk,
        ColumnRef::TableAsterisk(s("t")),
        ColumnRef::Column(s("c")),
        ColumnRef::TableColumn(s("t"), s("c")),
        ColumnRef::SchemaTableColumn(s("p"), s("t"), s("c")),
    ] {
        assert_eq!(PyColumnRef::from(reference.clone()).into_column_ref(), reference);
    }
}

#[test]
fn column_references_compare_and_print_by_their_parts() {
    let a = PyColumnRef::from_str("p.t.c").unwrap();
    let b = PyColumnRef::new(s("c"), some("t"), some("p"));
    let c = PyColumnRef::new(s("c"), some("t"), None);
    assert!(a.__eq__(&b) && !a.__ne__(&b));
    assert!(!a.__eq__(&c) && a.__ne__(&c));
    assert_eq!(a.copy(), a);
    assert_eq!(a.clone(), b);
    assert_eq!(a.__repr__(), "<ColumnRef \"c\" table=\"t\" schema=\"p\">");
    assert_eq!(c.__repr__(), "<ColumnRef \"c\" table=\"t\">");
    assert_eq!(PyColumnRef::from_str("*").unwrap().__repr__(), "<ColumnRef *>");
    assert_eq!(
        PyColumnRef::new(s("a\"b"), None, some("s")).__repr__(),
        "<ColumnRef \"a\\\"b\" schema=\"s\">"
    );
}

#[test]
fn column_references_are_copied_with_new_parts() {
    let a = PyColumnRef::from_str("t.c").unwrap();
    let changed = a
        .copy_with(&vec![(s("name"), some("d")), (s("schema"), some("p")), (s("table"), None)])
        .unwrap();
    assert_eq!(changed, PyColumnRef::new(s("d"), None, some("p")));
    let kept = a.copy_with(&vec![(s("name"), None)]).unwrap();
    assert_eq!(kept, a);
    assert_eq!(a.copy_with(&vec![]).unwrap(), a);
    let error = a.copy_with(&vec![(s("table"), some("u")), (s("alias"), some("x")), (s("zzz"), None)]);
    assert_eq!(error, Err(s("got an unexpected keyword argument 'alias'")));
}

#[test]
fn table_names_are_read_from_dotted_names() {
    let one = PyTableName::from_str("users").unwrap();
    assert_eq!(one, PyTableName::new(s("users"), None, None, None));
    let two = PyTableName::parse(s(" public.users\n")).unwrap();
    assert_eq!(two.name(), "users");
    assert_eq!(two.schema(), some("public"));
    assert_eq!(two.database(), None);
    assert_eq!(two.alias(), None);
    let three = PyTableName::from_str("db.public.users").unwrap();
    assert_eq!(three, PyTableName::new(s("users"), some("public"), some("db"), None));
    assert_eq!(PyTableName::from_str("  "), Err(s("cannot parse an empty string")));
    assert_eq!(PyTableName::from_str("a.b.c.d"), Err(s("invalid format")));
}

#[test]
fn table_names_take_the_form_of_the_engine() {
    let table = |schema: Option<&str>, database: Option<&str>, alias: Option<&str>| {
        PyTableName::new(s("t"), schema.map(s), database.map(s), alias.map(s)).into_table_ref()
    };
    assert_eq!(table(None, None, None), TableRef::Table(s("t")));
    assert_eq!(table(Some("p"), None, None), TableRef::SchemaTable(s("p"), s("t")));
    assert_eq!(
        table(Some("p"), Some("d"), None),
        TableRef::DatabaseSchemaTable(s("d"), s("p"), s("t"))
    );
    assert_eq!(table(None, None, Some("a")), TableRef::TableAlias(s("t"), s("a")));
    assert_eq!(
        table(Some("p"), None, Some("a")),
        TableRef::SchemaTableAlias(s("p"), s("t"), s("a"))
    );
    assert_eq!(
        table(Some("p"), Some("d"), Some("a")),
        TableRef::DatabaseSchemaTableAlias(s("d"), s("p"), s("t"), s("a"))
    );
    assert_eq!(table(None, Some("d"), None), TableRef::Table(s("t")));
    assert_eq!(table(None, Some("d"), Some("a")), TableRef::Table(s("t")));
}

#[test]
fn table_names_come_back_from_the_engine() {
    assert_eq!(
        PyTableName::try_from(TableRef::SchemaTableAlias(s("p"), s("t"), s("a"))),
        Ok(PyTableName::new(s("t"), some("p"), None, some("a")))
    );
    assert_eq!(
        PyTableName::try_from(TableRef::DatabaseSchemaTable(s("d"), s("p"), s("t"))),
        Ok(PyTableName::new(s("t"), some("p"), some("d"), None))
    );
    assert_eq!(PyTableName::try_from(TableRef::Other), Err(()));
}

#[test]
fn table_names_compare_without_the_alias() {
    let a = PyTableName::new(s("t"), some("p"), None, some("a"));
    let b = PyTableName::new(s("t"), some("p"), None, None);
    let c = PyTableName::new(s("t"), None, None, some("a"));
    assert!(a.__eq__(&b) && !a.__ne__(&b));
    assert!(!a.__eq__(&c) && a.__ne__(&c));
    assert_eq!(a.clone(), a);
    assert_eq!(a.__repr__(), "<TableName \"t\" schema=\"p\" alias=\"a\">");
    assert_eq!(
        PyTableName::new(s("t"), some("p"), some("d"), some("a")).__repr__(),
        "<TableName \"t\" schema=\"p\" database=\"d\" alias=\"a\">"
    );
    assert_eq!(PyTableName::new(s("t"), None, None, None).__repr__(), "<TableName \"t\">");
}

#[test]
fn table_names_are_copied_with_new_parts() {
    let a = PyTableName::from_str("p.t").unwrap();
    let changed = a
        .copy_with(&vec![
            (s("alias"), some("x")),
            (s("database"), some("d")),
            (s("schema"), None),
            (s("name"), some("u")),
            (s("name"), None),
        ])
        .unwrap();
    assert_eq!(changed, PyTableName::new(s("u"), None, some("d"), some("x")));
    let error = a.copy_with(&vec![(s("table"), some("u"))]);
    assert_eq!(error, Err(s("got an unexpected keyword argument 'table'")));
}

#[test]
fn lock_clauses_are_read_in_any_case() {
    assert_eq!(lock(s("exclusive"), None), Ok((LockType::Update, None)));
    assert_eq!(lock(s("SHARED"), some("NoWait")), Ok((LockType::Share, Some(LockBehavior::Nowait))));
    assert_eq!(lock(s("shared"), some("skip")), Ok((LockType::Share, Some(LockBehavior::SkipLocked))));
    assert_eq!(
        lock(s("update"), some("whatever")),
        Err(s("acceptable lock type are: 'exclusive' and 'shared'. got invalid type"))
    );
    assert_eq!(
        lock(s("shared"), some("skip locked")),
        Err(s("acceptable lock behavior are: 'nowait' and 'skip'. got invalid behavior"))
    );
}

#[test]
fn union_types_are_read_in_any_case() {
    assert_eq!(union(s("ALL")), Ok(UnionType::All));
    assert_eq!(union(s("intersect")), Ok(UnionType::Intersect));
    assert_eq!(union(s("Distinct")), Ok(UnionType::Distinct));
    assert_eq!(union(s("except")), Ok(UnionType::Except));
    assert_eq!(
        union(s("")),
        Err(s("acceptable union types are: 'all', 'distinct', 'except', and 'intersect'. got invalid type"))
    );
}

#[test]
fn join_types_are_read_in_any_case() {
    assert_eq!(join(s("")), Ok(JoinType::Join));
    assert_eq!(join(s("CROSS")), Ok(JoinType::CrossJoin));
    assert_eq!(join(s("full")), Ok(JoinType::FullOuterJoin));
    assert_eq!(join(s("Inner")), Ok(JoinType::InnerJoin));
    assert_eq!(join_lateral(s("left")), Ok(JoinType::LeftJoin));
    assert_eq!(join_lateral(s("right")), Ok(JoinType::RightJoin));
    assert_eq!(
        join(s("outer")),
        Err(s("acceptable join types are: '', 'cross', 'full', 'left', 'right', and 'inner'. got invalid type"))
    );
}

#[test]
fn window_frames_are_read_in_any_case() {
    assert_eq!(
        frame(s("ROWS"), PyWindowFrame::unbounded_preceding(), Some(PyWindowFrame::current_row())),
        Ok(FrameClause {
            unit: FrameType::Rows,
            start: Frame::UnboundedPreceding,
            end: Some(Frame::CurrentRow),
        })
    );
    assert_eq!(
        frame(s("range"), PyWindowFrame::preceding(3), None),
        Ok(FrameClause { unit: FrameType::Range, start: Frame::Preceding(3), end: None })
    );
    assert_eq!(PyWindowFrame::following(2).0, Frame::Following(2));
    assert_eq!(PyWindowFrame::unbounded_following().0, Frame::UnboundedFollowing);
    assert_eq!(
        frame(s("Groups"), PyWindowFrame::current_row(), None),
        Err(s("invalid frame type, expected 'rows' or 'range'; got \"groups\""))
    );
}

#[test]
fn index_columns_read_their_order_in_any_case() {
    let column = PyIndexColumn::new(s("email"), Some(10), some("DESC")).unwrap();
    assert_eq!(column.name(), "email");
    assert_eq!(column.prefix(), Some(10));
    assert_eq!(column.order(), some("desc"));
    assert_eq!(column.__repr__(), "<IndexColumn \"email\" prefix=10 order='desc'>");
    assert_eq!(column.clone(), column);
    let column = PyIndexColumn::new(s("email"), None, some("asc")).unwrap();
    assert_eq!(column.order(), some("asc"));
    assert_eq!(column.__repr__(), "<IndexColumn \"email\" order='asc'>");
    let column = PyIndexColumn::new(s("e"), Some(4_294_967_295), None).unwrap();
    assert_eq!(column.__repr__(), "<IndexColumn \"e\" prefix=4294967295>");
    assert_eq!(PyIndexColumn::new(s("e"), Some(0), None).unwrap().__repr__(), "<IndexColumn \"e\" prefix=0>");
    assert_eq!(PyIndexColumn::from("id").__repr__(), "<IndexColumn \"id\">");
    assert_eq!(
        PyIndexColumn::new(s("e"), None, some("Down")),
        Err(s("invalid order value, expected 'asc', 'desc' or None; got \"down\""))
    );
}

#[test]
fn index_columns_take_the_form_of_the_engine() {
    let make = |prefix, order| PyIndexColumn { name: s("c"), prefix, order }.into_index_column();
    assert_eq!(make(None, None), IndexColumn::Plain(s("c")));
    assert_eq!(make(Some(3), None), IndexColumn::Prefixed(s("c"), 3));
    assert_eq!(make(None, Some(IndexOrder::Asc)), IndexColumn::Ordered(s("c"), IndexOrder::Asc));
    assert_eq!(
        make(Some(3), Some(IndexOrder::Desc)),
        IndexColumn::PrefixedOrdered(s("c"), 3, IndexOrder::Desc)
    );
}

#[test]
fn lazy_column_references_are_worked_out_once() {
    let mut alone = LazyColumnRef::Unset;
    assert_eq!(alone.with_name("id"), ColumnRef::Column(s("id")));
    assert_eq!(alone, LazyColumnRef::ColumnRef(ColumnRef::Column(s("id"))));
    assert_eq!(alone.with_name("other"), ColumnRef::Column(s("id")));
    let mut of_table = LazyColumnRef::TableName(PyTableName::from_str("users").unwrap());
    assert_eq!(of_table.clone_ref(), of_table);
    assert_eq!(of_table.with_name("id"), ColumnRef::TableColumn(s("users"), s("id")));
    let mut of_schema = LazyColumnRef::TableName(PyTableName::from_str("db.public.users").unwrap());
    assert_eq!(
        of_schema.with_name("id"),
        ColumnRef::SchemaTableColumn(s("public"), s("users"), s("id"))
    );
    assert_eq!(
        of_schema.with_name("name"),
        ColumnRef::SchemaTableColumn(s("public"), s("users"), s("id"))
    );
}

#[test]
fn lazy_column_references_are_renamed_once_worked_out() {
    let mut unset = LazyColumnRef::Unset;
    unset.set_name("x");
    assert_eq!(unset, LazyColumnRef::Unset);
    let mut table = LazyColumnRef::TableName(PyTableName::from_str("t").unwrap());
    table.set_name("x");
    assert_eq!(table, LazyColumnRef::TableName(PyTableName::from_str("t").unwrap()));
    let mut column = LazyColumnRef::ColumnRef(ColumnRef::SchemaTableColumn(s("p"), s("t"), s("c")));
    column.set_name("x");
    assert_eq!(
        column,
        LazyColumnRef::ColumnRef(ColumnRef::SchemaTableColumn(s("p"), s("t"), s("x")))
    );
    let mut column = LazyColumnRef::ColumnRef(ColumnRef::TableColumn(s("t"), s("c")));
    column.set_name("x");
    assert_eq!(column, LazyColumnRef::ColumnRef(ColumnRef::TableColumn(s("t"), s("x"))));
    let mut column = LazyColumnRef::ColumnRef(ColumnRef::Column(s("c")));
    column.set_name("x");
    assert_eq!(column, LazyColumnRef::ColumnRef(ColumnRef::Column(s("x"))));
    let mut all = LazyColumnRef::ColumnRef(ColumnRef::TableAsterisk(s("t")));
    all.set_name("x");
    assert_eq!(all, LazyColumnRef::ColumnRef(ColumnRef::TableAsterisk(s("t"))));
}

fn key(
    from: &[&str],
    to: &[&str],
    from_table: Option<&str>,
    name: Option<&str>,
    on_delete: Option<&str>,
    on_update: Option<&str>,
) -> Result<ForeignKeyInner, String> {
    ForeignKeyInner::new(
        from.iter().map(|c| s(c)).collect(),
        to.iter().map(|c| s(c)).collect(),
        PyTableName::from_str("public.users").unwrap(),
        from_table.map(|t| PyTableName::from_str(t).unwrap()),
        name.map(s),
        on_delete.map(s),
        on_update.map(s),
    )
}

#[test]
fn foreign_keys_get_a_name_of_tables_and_columns() {
    let made = key(&["user_id", "org"], &["id", "org"], Some("posts"), None, None, None).unwrap();
    assert_eq!(made.name, "fk_posts_user_id_org_users_id_org");
    assert_eq!(made.on_delete, None);
    let made = key(&["user_id"], &["id"], None, None, Some("Cascade"), Some("SET NULL")).unwrap();
    assert_eq!(made.name, "fk__user_id_users_id");
    assert_eq!(made.on_delete, Some(ForeignKeyActionAlias(ForeignKeyAction::Cascade)));
    assert_eq!(made.on_update, Some(ForeignKeyActionAlias(ForeignKeyAction::SetNull)));
    let made = key(&["a"], &["b"], None, Some("mine"), None, None).unwrap();
    assert_eq!(made.name, "mine");
    assert_eq!(made.from_columns, vec![s("a")]);
    assert_eq!(made.to_columns, vec![s("b")]);
}

#[test]
fn foreign_keys_report_the_first_thing_that_is_wrong() {
    assert_eq!(
        key(&[], &[], None, None, Some("explode"), Some("implode")),
        Err(s("unknown foreign key action: explode"))
    );
    assert_eq!(
        key(&[], &[], None, None, Some("cascade"), Some("implode")),
        Err(s("unknown foreign key action: implode"))
    );
    assert_eq!(key(&[], &[], None, None, None, None), Err(s("from_columns is empty")));
    assert_eq!(key(&["a"], &[], None, None, None, None), Err(s("to_columns is empty")));
    assert_eq!(
        key(&["a", "b", "c", "d", "e", "f", "g", "h", "i", "j", "k"], &["a"], None, None, None, None),
        Err(s("from_columns and to_columns must have same length (11 != 1)"))
    );
}

#[test]
fn foreign_keys_keep_their_lists_of_one_length() {
    let mut made = key(&["a", "b"], &["c", "d"], None, None, None, None).unwrap();
    assert_eq!(made.set_from_columns(vec![]), Err(s("from_columns cannot be empty")));
    assert_eq!(
        made.set_from_columns(vec![s("x")]),
        Err(s("from_columns and to_columns must have same length (1 != 2)"))
    );
    assert_eq!(made.set_to_columns(vec![]), Err(s("to_columns cannot be empty")));
    assert_eq!(
        made.set_to_columns(vec![s("x"), s("y"), s("z")]),
        Err(s("from_columns and to_columns must have same length (2 != 3)"))
    );
    assert_eq!(made.from_columns, vec![s("a"), s("b")]);
    assert_eq!(made.set_from_columns(vec![s("x"), s("y")]), Ok(()));
    assert_eq!(made.set_to_columns(vec![s("p"), s("q")]), Ok(()));
    assert_eq!(made.from_columns, vec![s("x"), s("y")]);
    assert_eq!(made.to_columns, vec![s("p"), s("q")]);
}

#[test]
fn foreign_keys_read_their_actions_anew() {
    let mut made = key(&["a"], &["b"], None, None, Some("restrict"), None).unwrap();
    assert_eq!(made.set_on_delete(some("no action")), Ok(()));
    assert_eq!(made.on_delete, Some(ForeignKeyActionAlias(ForeignKeyAction::NoAction)));
    assert_eq!(made.set_on_update(some("Set Default")), Ok(()));
    assert_eq!(made.on_update, Some(ForeignKeyActionAlias(ForeignKeyAction::SetDefault)));
    assert_eq!(made.set_on_update(some("oops")), Err(s("unknown foreign key action: oops")));
    assert_eq!(made.on_update, Some(ForeignKeyActionAlias(ForeignKeyAction::SetDefault)));
    assert_eq!(made.set_on_delete(None), Ok(()));
    assert_eq!(made.on_delete, None);
}

#[test]
fn trimmed_names_are_cut_at_their_dots() {
    assert_eq!(
        PyColumnRef::from_trimmed("a.b"),
        Ok(PyColumnRef::new(s("b"), some("a"), None))
    );
    assert_eq!(
        PyColumnRef::from_trimmed(" a"),
        Ok(PyColumnRef::new(s(" a"), None, None))
    );
    assert_eq!(PyColumnRef::from_trimmed(""), Err(s("cannot parse an empty string")));
    assert_eq!(
        PyTableName::from_trimmed("a.b "),
        Ok(PyTableName::new(s("b "), some("a"), None, None))
    );
    assert_eq!(PyTableName::from_trimmed("."), Ok(PyTableName::new(s(""), some(""), None, None)));
    assert_eq!(PyTableName::from_trimmed("1.2.3.4"), Err(s("invalid format")));
}
