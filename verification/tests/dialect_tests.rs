use sqlx_type::dialect::{placeholder_style, schema_dialect, Dialect, PlaceholderStyle};

#[test]
fn first_line_marker_selects_postgres() {
    let src = "-- sql-product: postgres\nCREATE TABLE t (id INT NOT NULL);\n";
    assert_eq!(schema_dialect(src), Dialect::PostgreSQL);
}

#[test]
fn no_marker_defaults_to_mariadb() {
    let src = "CREATE TABLE t (id INT NOT NULL);\n";
    assert_eq!(schema_dialect(src), Dialect::MariaDB);
    assert_eq!(schema_dialect(""), Dialect::MariaDB);
}

#[test]
fn marker_counts_on_the_first_line_only() {
    let src = "CREATE TABLE t (id INT);\n-- sql-product: postgres\n";
    assert_eq!(schema_dialect(src), Dialect::MariaDB);
}

#[test]
fn marker_without_a_line_feed_still_counts() {
    assert_eq!(schema_dialect("-- sql-product: postgres"), Dialect::PostgreSQL);
}

#[test]
fn partial_marker_does_not_count() {
    assert_eq!(schema_dialect("-- sql-product: post\n"), Dialect::MariaDB);
}

#[test]
fn placeholder_style_per_dialect() {
    assert_eq!(placeholder_style(&Dialect::MariaDB), PlaceholderStyle::QuestionMark);
    assert_eq!(placeholder_style(&Dialect::PostgreSQL), PlaceholderStyle::Dollar);
}
