use daily_server::config::ServerConfig;
use daily_server::response::HttpStatus;
use daily_server::uri::{
    classify_uri, file_in_ignore_list, plan_get_response, remove_first_char, site_path,
    uri_is_sanitized, IgnoreList, UriValidity,
};
use std::path::Path;

fn fake_ignore_list() -> IgnoreList {
    IgnoreList::new("/tmp".to_string(), vec![".env".to_string()])
}

/// Classifies `uri` with the facts about the file system that a request sees.
fn classify(uri: &str, list: &IgnoreList) -> UriValidity {
    let ignore_path = remove_first_char(uri);
    let is_dir = Path::new(&ignore_path).is_dir();
    let exists = Path::new(&site_path(uri)).exists();
    classify_uri(uri.to_string(), list, is_dir, exists)
}

#[test]
fn test_classify_uri() {
    let list = fake_ignore_list();
    assert_eq!(classify("/asd/../../asd", &list), UriValidity::Malicious);
    assert_eq!(classify("/asdasda/dsasdad/asdasdad/asd", &list), UriValidity::DoesNotExist);
    assert_eq!(classify("/.env", &list), UriValidity::InIgnoreList);
}

#[test]
fn test_file_in_ignore_list() {
    let list = fake_ignore_list();
    assert!(file_in_ignore_list(&list, ".env", Path::new(".env").is_dir()));
}

#[test]
fn ignore_list_leaves_other_files_alone() {
    let list = fake_ignore_list();
    assert!(!file_in_ignore_list(&list, "index.html", false));
    assert!(file_in_ignore_list(&list, "config/.env", false));
    let dirs = IgnoreList::new("/tmp".to_string(), vec!["# comment".to_string(), "secret/".to_string()]);
    assert!(file_in_ignore_list(&dirs, "secret", true));
    assert!(!file_in_ignore_list(&dirs, "secret", false));
}

#[test]
fn root_uri_asks_for_the_index_page() {
    assert_eq!(site_path("/"), "site/index.html");
    assert_eq!(site_path(""), "site/index.html");
    assert_eq!(site_path("/game.js"), "site/game.js");
}

#[test]
fn existing_file_is_valid() {
    let list = fake_ignore_list();
    assert_eq!(
        classify_uri("/scores.html".to_string(), &list, false, true),
        UriValidity::Valid("site/scores.html".to_string())
    );
    assert_eq!(
        classify_uri("/".to_string(), &list, true, true),
        UriValidity::Valid("site/index.html".to_string())
    );
}

#[test]
fn traversal_wins_over_every_other_fact() {
    let list = fake_ignore_list();
    assert_eq!(classify_uri("/..".to_string(), &list, true, true), UriValidity::Malicious);
    assert_eq!(classify_uri("/a/..b".to_string(), &list, false, true), UriValidity::Malicious);
    assert_eq!(
        classify_uri("/a/.b".to_string(), &list, false, true),
        UriValidity::Valid("site/a/.b".to_string())
    );
}

#[test]
fn sanitized_means_no_double_dot() {
    assert!(uri_is_sanitized(&"site/a.b/c.d".to_string()));
    assert!(!uri_is_sanitized(&"site/../x".to_string()));
    assert!(!uri_is_sanitized(&"..".to_string()));
    assert!(uri_is_sanitized(&".".to_string()));
    assert!(uri_is_sanitized(&String::new()));
}

#[test]
fn first_char_is_removed() {
    assert_eq!(remove_first_char("/.env"), ".env");
    assert_eq!(remove_first_char(""), "");
    assert_eq!(remove_first_char("é!"), "!");
}

#[test]
fn each_classification_has_its_page() {
    let config = ServerConfig::default_config();
    let plan = plan_get_response(UriValidity::Valid("site/a.html".to_string()), &config);
    assert_eq!((plan.status, plan.file.as_str()), (HttpStatus::Success, "site/a.html"));
    let plan = plan_get_response(UriValidity::InIgnoreList, &config);
    assert_eq!((plan.status, plan.file.as_str()), (HttpStatus::Unauthorized, "unauthorized.html"));
    let plan = plan_get_response(UriValidity::DoesNotExist, &config);
    assert_eq!((plan.status, plan.file.as_str()), (HttpStatus::NotFound, "not_found.html"));
    let plan = plan_get_response(UriValidity::Malicious, &config);
    assert_eq!((plan.status, plan.file.as_str()), (HttpStatus::Forbidden, "forbidden.html"));
}
