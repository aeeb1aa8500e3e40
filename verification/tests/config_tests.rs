use daily_server::config::ServerConfig;
use daily_server::database::DatabaseRow;

#[test]
fn default_config_values() {
    let config = ServerConfig::default_config();
    assert_eq!(config.port, 3000);
    assert_eq!(config.log_filename, "logs/server.log");
    assert_eq!(config.ignore_filename, ".ignore");
    assert_eq!(config.daily_seed_cache_db, "seed_cache");
    assert_eq!(config.forbidden_filename, "forbidden.html");
    assert_eq!(config.not_found_filename, "not_found.html");
    assert_eq!(config.unauthorized_filename, "unauthorized.html");
    assert_eq!(config.maximum_row_query, 100);
}

#[test]
fn empty_and_new_rows() {
    let empty = DatabaseRow::empty();
    assert_eq!((empty.id, empty.score), (0, 0));
    assert!(empty.name.is_empty() && empty.extra_data.is_empty() && empty.date.is_empty());
    let row = DatabaseRow::new(41);
    assert_eq!(row.id, 41);
    assert!(row.name.is_empty());
}
