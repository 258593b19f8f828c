use pgpool::SqlIterator;

fn split(s: &str) -> Vec<&str> {
    let mut it = SqlIterator::new(s);
    let mut out = Vec::new();
    while let Some(stmt) = it.next() {
        out.push(stmt);
    }
    out
}

#[test]
fn splits_on_semicolons() {
    assert_eq!(split("  SELECT 1; SELECT 2;  "), vec!["SELECT 1", " SELECT 2"]);
}

#[test]
fn text_after_the_last_semicolon_is_not_returned() {
    assert_eq!(split("SELECT 1; SELECT 2"), vec!["SELECT 1"]);
    assert_eq!(split(""), Vec::<&str>::new());
}

#[test]
fn dollar_blocks_keep_semicolons() {
    assert_eq!(
        split("CREATE FUNCTION f() AS $$ BEGIN; END; $$; SELECT 1;"),
        vec!["CREATE FUNCTION f() AS $$ BEGIN; END; $$", " SELECT 1"]
    );
}

#[test]
fn line_comments_hide_semicolons() {
    assert_eq!(split("SELECT 1 -- a; b\n;SELECT 2;"), vec!["SELECT 1 -- a; b\n", "SELECT 2"]);
}

#[test]
fn non_ascii_text_is_kept_whole() {
    assert_eq!(split("SELECT 'é;ü';"), vec!["SELECT 'é", "ü'"]);
}
