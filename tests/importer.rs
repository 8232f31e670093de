use csv2db::classify::is_str;
use csv2db::config::{connection_url, resolve_args, ArgOverrides, Args};
use csv2db::driver::Importer;
use csv2db::format::{format_insert, Column, RowError};
use csv2db::schema::{column_name, columns_from_describe, describe_query, type_keyword};
use csv2db::text::{push_decimal, same_text};

fn col(name: &str, tpe: &str) -> Column {
    Column { name: name.to_string(), tpe: tpe.to_string() }
}

fn rec(fields: &[&str]) -> Vec<String> {
    fields.iter().map(|f| f.to_string()).collect()
}

fn users() -> Vec<Column> {
    vec![col("id", "int"), col("name", "varchar")]
}

#[test]
fn formats_users_scenario() {
    let r = format_insert("test", "users", &users(), &rec(&["1", "Alice"]));
    assert_eq!(r, Ok("INSERT INTO test.users (id,name) VALUES(1,'Alice');".to_string()));
}

#[test]
fn formatting_twice_gives_same_text() {
    let cols = users();
    let r = rec(&["7", "Bob"]);
    assert_eq!(format_insert("db", "t", &cols, &r), format_insert("db", "t", &cols, &r));
}

#[test]
fn quotes_only_non_numeric_columns() {
    let cols = vec![
        col("a", "int"),
        col("b", "double"),
        col("c", "bigint"),
        col("d", "decimal"),
        col("e", "text"),
        col("f", "date"),
    ];
    let r = format_insert("d", "t", &cols, &rec(&["1", "2.5", "3", "4.25", "x", "2020-09-02"]));
    assert_eq!(
        r,
        Ok("INSERT INTO d.t (a,b,c,d,e,f) VALUES(1,2.5,3,4.25,'x','2020-09-02');".to_string())
    );
}

#[test]
fn single_column_has_no_comma() {
    let r = format_insert("d", "t", &vec![col("n", "varchar")], &rec(&["v"]));
    assert_eq!(r, Ok("INSERT INTO d.t (n) VALUES('v');".to_string()));
}

#[test]
fn empty_table_and_record() {
    let r = format_insert("d", "t", &vec![], &vec![]);
    assert_eq!(r, Ok("INSERT INTO d.t () VALUES();".to_string()));
}

#[test]
fn field_values_are_kept_verbatim() {
    let r = format_insert("d", "t", &users(), &rec(&["", "O'Hara, Jr"]));
    assert_eq!(r, Ok("INSERT INTO d.t (id,name) VALUES(,'O'Hara, Jr');".to_string()));
}

#[test]
fn short_record_is_a_mismatch() {
    let r = format_insert("test", "users", &users(), &rec(&["1"]));
    assert_eq!(r, Err(RowError::FieldCountMismatch { expected: 2, found: 1 }));
}

#[test]
fn long_record_is_a_mismatch() {
    let r = format_insert("test", "users", &users(), &rec(&["1", "a", "b"]));
    assert_eq!(r, Err(RowError::FieldCountMismatch { expected: 2, found: 3 }));
}

#[test]
fn mismatch_message_names_both_counts() {
    let e = RowError::FieldCountMismatch { expected: 12, found: 1 };
    assert_eq!(e.message(), "record has 1 fields but the table has 12 columns");
}

#[test]
fn header_row_is_skipped_when_asked() {
    let mut imp = Importer::new("test".to_string(), "users".to_string(), users(), true);
    assert_eq!(imp.on_record(&Ok(rec(&["id", "name"]))), None);
    assert_eq!(
        imp.on_record(&Ok(rec(&["1", "Alice"]))),
        Some("INSERT INTO test.users (id,name) VALUES(1,'Alice');".to_string())
    );
    assert_eq!(
        imp.on_record(&Ok(rec(&["2", "Bob"]))),
        Some("INSERT INTO test.users (id,name) VALUES(2,'Bob');".to_string())
    );
}

#[test]
fn every_record_is_processed_without_header() {
    let mut imp = Importer::new("test".to_string(), "users".to_string(), users(), false);
    assert_eq!(
        imp.on_record(&Ok(rec(&["1", "Alice"]))),
        Some("INSERT INTO test.users (id,name) VALUES(1,'Alice');".to_string())
    );
    assert_eq!(
        imp.on_record(&Ok(rec(&["2", "Bob"]))),
        Some("INSERT INTO test.users (id,name) VALUES(2,'Bob');".to_string())
    );
}

#[test]
fn skipped_header_may_be_malformed() {
    let mut imp = Importer::new("d".to_string(), "t".to_string(), users(), true);
    assert_eq!(imp.on_record(&Err("bad header".to_string())), None);
    assert_eq!(imp.on_record(&Err("bad line".to_string())), Some("bad line".to_string()));
}

#[test]
fn parse_error_is_printed_and_stream_continues() {
    let mut imp = Importer::new("test".to_string(), "users".to_string(), users(), false);
    let msg = "CSV error: record 1 (line: 2, byte: 10): unbalanced quote".to_string();
    assert_eq!(imp.on_record(&Err(msg.clone())), Some(msg));
    assert_eq!(
        imp.on_record(&Ok(rec(&["3", "Carol"]))),
        Some("INSERT INTO test.users (id,name) VALUES(3,'Carol');".to_string())
    );
}

#[test]
fn short_record_prints_diagnostic_and_continues() {
    let mut imp = Importer::new("test".to_string(), "users".to_string(), users(), false);
    assert_eq!(
        imp.on_record(&Ok(rec(&["1"]))),
        Some("record has 1 fields but the table has 2 columns".to_string())
    );
    assert_eq!(
        imp.on_record(&Ok(rec(&["2", "Dan"]))),
        Some("INSERT INTO test.users (id,name) VALUES(2,'Dan');".to_string())
    );
}

#[test]
fn type_keyword_cuts_suffix_and_quotes() {
    assert_eq!(type_keyword("'int(11)'"), "int");
    assert_eq!(type_keyword("'varchar(255)'"), "varchar");
    assert_eq!(type_keyword("'text'"), "text");
    assert_eq!(type_keyword("double"), "double");
    assert_eq!(type_keyword("decimal(10,2) unsigned"), "decimal");
    assert_eq!(type_keyword("'enum('a','b')'"), "enum");
    assert_eq!(type_keyword("(11)"), "");
    assert_eq!(type_keyword("''"), "");
    assert_eq!(type_keyword(""), "");
}

#[test]
fn type_keyword_never_keeps_paren_or_edge_quote() {
    for raw in ["'int(11)'", "'''x'''", "set('a')", "'bigint(20) unsigned'", "'", "((", "a'b"] {
        let t = type_keyword(raw);
        assert!(!t.contains('('));
        assert!(!t.starts_with('\''));
        assert!(!t.ends_with('\''));
    }
}

#[test]
fn column_name_turns_quotes_into_backticks() {
    assert_eq!(column_name("'id'"), "`id`");
    assert_eq!(column_name("plain"), "plain");
    assert_eq!(column_name("it's"), "it`s");
    assert_eq!(column_name(""), "");
}

#[test]
fn columns_keep_description_order() {
    let rows = vec![
        ("'id'".to_string(), "'int(11)'".to_string()),
        ("'name'".to_string(), "'varchar(64)'".to_string()),
    ];
    let cols = columns_from_describe(&rows);
    assert_eq!(cols.len(), 2);
    assert_eq!(cols[0].name, "`id`");
    assert_eq!(cols[0].tpe, "int");
    assert_eq!(cols[1].name, "`name`");
    assert_eq!(cols[1].tpe, "varchar");
    let r = format_insert("test", "users", &cols, &rec(&["1", "Alice"]));
    assert_eq!(r, Ok("INSERT INTO test.users (`id`,`name`) VALUES(1,'Alice');".to_string()));
}

#[test]
fn numeric_keywords_are_not_quoted() {
    for t in ["tinyint", "smallint", "mediumint", "int", "integer", "bigint", "float", "double",
        "real", "decimal", "numeric"] {
        assert!(!is_str(t), "{}", t);
    }
    for t in ["varchar", "char", "text", "date", "datetime", "", "INT", "int(11)"] {
        assert!(is_str(t), "{}", t);
    }
}

#[test]
fn describe_query_uses_configured_table() {
    let mut args = Args::new();
    args.db = "shop".to_string();
    args.tb = "orders".to_string();
    assert_eq!(describe_query(&args), "DESCRIBE shop.orders");
}

#[test]
fn connection_url_joins_parts() {
    let mut args = Args::new();
    args.user = "root".to_string();
    args.pwd = "pw".to_string();
    args.host = "localhost".to_string();
    args.port = "3306".to_string();
    args.db = "test".to_string();
    assert_eq!(connection_url(&args), "mysql://root:pw@localhost:3306/test");
}

#[test]
fn new_args_are_empty() {
    let a = Args::new();
    assert_eq!(a.host, "");
    assert_eq!(a.port, "");
    assert_eq!(a.user, "");
    assert_eq!(a.pwd, "");
    assert_eq!(a.db, "");
    assert_eq!(a.tb, "");
    assert!(!a.skip_headers);
}

#[test]
fn command_line_wins_over_file() {
    let mut base = Args::new();
    base.host = "filehost".to_string();
    base.port = "3306".to_string();
    base.db = "filedb".to_string();
    let over = ArgOverrides {
        host: Some("clihost".to_string()),
        port: None,
        user: Some("me".to_string()),
        pwd: None,
        db: None,
        tb: Some("t".to_string()),
        skip_headers: true,
    };
    let r = resolve_args(base, over);
    assert_eq!(r.host, "clihost");
    assert_eq!(r.port, "3306");
    assert_eq!(r.user, "me");
    assert_eq!(r.pwd, "");
    assert_eq!(r.db, "filedb");
    assert_eq!(r.tb, "t");
    assert!(r.skip_headers);
}

#[test]
fn file_skip_headers_kept_without_flag() {
    let mut base = Args::new();
    base.skip_headers = true;
    let over = ArgOverrides {
        host: None,
        port: None,
        user: None,
        pwd: None,
        db: None,
        tb: None,
        skip_headers: false,
    };
    assert!(resolve_args(base, over).skip_headers);
}

#[test]
fn decimal_text() {
    let mut s = String::from("n=");
    push_decimal(&mut s, 0);
    push_decimal(&mut s, 1);
    push_decimal(&mut s, 907);
    assert_eq!(s, "n=01907");
    let mut m = String::new();
    push_decimal(&mut m, usize::MAX);
    assert_eq!(m, usize::MAX.to_string());
}

#[test]
fn same_text_compares_characters() {
    assert!(same_text("abc", "abc"));
    assert!(!same_text("abc", "abd"));
    assert!(!same_text("ab", "abc"));
    assert!(same_text("", ""));
}
