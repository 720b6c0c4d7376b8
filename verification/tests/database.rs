use webpage_hit_counter::db_settings::{
    db_settings_from_env, Recycling, PG_DBNAME_VAR, PG_HOST_VAR, PG_PASSWORD_VAR, PG_USER_VAR,
    POOL_MAX_SIZE, POOL_RECYCLING,
};
use webpage_hit_counter::hit_count::{hit_count_from_reply, SELECT_COUNT_QUERY};

fn s(text: &str) -> Option<String> {
    Some(text.to_string())
}

#[test]
fn no_row_means_zero_hits() {
    assert_eq!(hit_count_from_reply(None), 0);
}

#[test]
fn first_row_gives_the_count() {
    assert_eq!(hit_count_from_reply(Some(17)), 17);
    assert_eq!(hit_count_from_reply(Some(0)), 0);
    assert_eq!(hit_count_from_reply(Some(-3)), -3);
}

#[test]
fn query_reads_count_by_page() {
    assert_eq!(SELECT_COUNT_QUERY, "SELECT count from hit_counter where webpage_id = $1");
}

#[test]
fn settings_from_complete_environment() {
    let settings = db_settings_from_env(s("localhost"), s("admin"), s("webpage_hit_counter"), s("pw"))
        .unwrap();
    assert_eq!(settings.host, "localhost");
    assert_eq!(settings.user, "admin");
    assert_eq!(settings.dbname, "webpage_hit_counter");
    assert_eq!(settings.password, "pw");
}

#[test]
fn first_missing_variable_is_reported() {
    let missing = |r: Result<_, String>| r.err().unwrap();
    assert_eq!(missing(db_settings_from_env(None, None, None, None)), "PG.HOST");
    assert_eq!(missing(db_settings_from_env(s("h"), None, None, s("p"))), "PG.USER");
    assert_eq!(missing(db_settings_from_env(s("h"), s("u"), None, None)), "PG.DBNAME");
    assert_eq!(missing(db_settings_from_env(s("h"), s("u"), s("d"), None)), "PG.PASSWORD");
}

#[test]
fn environment_variable_names() {
    assert_eq!(PG_HOST_VAR, "PG.HOST");
    assert_eq!(PG_USER_VAR, "PG.USER");
    assert_eq!(PG_DBNAME_VAR, "PG.DBNAME");
    assert_eq!(PG_PASSWORD_VAR, "PG.PASSWORD");
}

#[test]
fn pool_settings() {
    assert_eq!(POOL_MAX_SIZE, 16);
    assert_eq!(POOL_RECYCLING, Recycling::Fast);
}
