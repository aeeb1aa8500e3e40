use daily_server::api::{
    api_get_route, api_post_route, build_highscore_query, leaderboard_response,
    payload_too_large_response, prepare_submission, seed_response, submission_row,
    submit_response, ApiRoute, HighscoreQuery, SubmitRequest,
};
use daily_server::database::DatabaseRow;
use daily_server::date::is_date_iso8601;
use daily_server::response::{
    general_error_response, internal_error_response, not_found_response, ApiBody, ApiResponse,
    HttpStatus,
};

fn error(status: HttpStatus, message: &str) -> ApiResponse {
    ApiResponse { status, body: ApiBody::Error(message.to_string()) }
}

fn submission(seed: i64) -> SubmitRequest {
    SubmitRequest {
        name: "ada".to_string(),
        extra_data: "{\"class\":\"rogue\"}".to_string(),
        score: 321,
        daily_seed: seed,
    }
}

#[test]
fn routes_are_matched_exactly() {
    assert_eq!(api_post_route("/api/v1/submit"), ApiRoute::Submit);
    assert_eq!(api_post_route("/api/v1/submit/"), ApiRoute::NotFound);
    assert_eq!(api_post_route("/api/v1/daily-seed"), ApiRoute::NotFound);
    assert_eq!(api_get_route("/api/v1/daily-seed"), ApiRoute::DailySeed);
    assert_eq!(api_get_route("/api/v1/leaderboard"), ApiRoute::Leaderboard);
    assert_eq!(api_get_route("/api/v1/submit"), ApiRoute::NotFound);
    assert_eq!(api_get_route("/api"), ApiRoute::NotFound);
}

#[test]
fn leaderboard_sql_for_a_valid_query() {
    let query = HighscoreQuery { starting_index: 20, count: 10, date: "2026-12-31".to_string() };
    assert_eq!(
        build_highscore_query(&query, 100),
        Ok("SELECT * FROM users WHERE date == \"2026-12-31\" ORDER BY score DESC LIMIT 10 OFFSET 20;"
            .to_string())
    );
    let negative_offset = HighscoreQuery { starting_index: -3, count: 1, date: "2026-01-02".to_string() };
    assert_eq!(
        build_highscore_query(&negative_offset, 100),
        Ok("SELECT * FROM users WHERE date == \"2026-01-02\" ORDER BY score DESC LIMIT 1 OFFSET -3;"
            .to_string())
    );
}

#[test]
fn leaderboard_rejects_too_many_rows() {
    let query = HighscoreQuery { starting_index: 0, count: 101, date: "bad".to_string() };
    assert_eq!(
        build_highscore_query(&query, 100),
        Err(error(HttpStatus::BadRequest, "maximum amount of rows query-able at once is 100"))
    );
    let query = HighscoreQuery { starting_index: 0, count: 100, date: "2026-12-31".to_string() };
    assert!(build_highscore_query(&query, 100).is_ok());
}

#[test]
fn leaderboard_rejects_negative_counts() {
    let query = HighscoreQuery { starting_index: 0, count: -1, date: "2026-12-31".to_string() };
    assert_eq!(
        build_highscore_query(&query, 100),
        Err(error(HttpStatus::BadRequest, "count must not be negative."))
    );
    let query = HighscoreQuery { starting_index: 0, count: 0, date: "2026-12-31".to_string() };
    assert!(build_highscore_query(&query, 100).is_ok());
}

#[test]
fn leaderboard_reports_bad_date_before_negative_count() {
    let query = HighscoreQuery { starting_index: 0, count: -1, date: "bad".to_string() };
    assert_eq!(
        build_highscore_query(&query, 100),
        Err(error(HttpStatus::BadRequest, "Invalid date format, must be ISO-8601 formatted."))
    );
}

#[test]
fn leaderboard_rejects_bad_dates() {
    let query = HighscoreQuery { starting_index: 0, count: 5, date: "2026-12-31\" OR 1".to_string() };
    assert!(!is_date_iso8601(query.date.clone()));
    assert_eq!(
        build_highscore_query(&query, 100),
        Err(error(HttpStatus::BadRequest, "Invalid date format, must be ISO-8601 formatted."))
    );
}

#[test]
fn leaderboard_response_carries_rows_or_error() {
    let mut row = DatabaseRow::new(4);
    row.score = 9;
    let response = leaderboard_response(Ok(vec![row.clone()]));
    assert_eq!(response, ApiResponse { status: HttpStatus::Success, body: ApiBody::Scores(vec![row]) });
    assert_eq!(
        leaderboard_response(Err("Timed out".to_string())),
        error(HttpStatus::InternalServerError, "Error: Timed out")
    );
}

#[test]
fn seed_response_carries_seed_or_error() {
    assert_eq!(
        seed_response(Ok(-17)),
        ApiResponse { status: HttpStatus::Success, body: ApiBody::Seed(-17) }
    );
    assert_eq!(
        seed_response(Err("disk full".to_string())),
        error(HttpStatus::InternalServerError, "Error: disk full")
    );
}

#[test]
fn submission_with_current_seed_becomes_a_row() {
    let row = submission_row(submission(55), Some(55), "2026-12-31".to_string()).unwrap();
    assert_eq!(
        row,
        DatabaseRow {
            id: 0,
            name: "ada".to_string(),
            extra_data: "{\"class\":\"rogue\"}".to_string(),
            score: 321,
            date: "2026-12-31".to_string(),
        }
    );
    let dated_today = prepare_submission(submission(55), Some(55)).unwrap();
    assert!(is_date_iso8601(dated_today.date.clone()));
    assert_eq!(dated_today.score, 321);
}

#[test]
fn submission_with_stale_seed_conflicts() {
    assert_eq!(
        submission_row(submission(54), Some(55), "2026-12-31".to_string()),
        Err(error(HttpStatus::Conflict, "Daily seed is out of date."))
    );
    assert_eq!(
        prepare_submission(submission(1), None),
        Err(error(HttpStatus::Conflict, "Daily seed is out of date."))
    );
    assert!(submission_row(submission(0), None, "2026-12-31".to_string()).is_ok());
}

#[test]
fn submit_response_carries_id_or_error() {
    assert_eq!(
        submit_response(Ok(12)),
        ApiResponse { status: HttpStatus::Success, body: ApiBody::Submitted(12) }
    );
    assert_eq!(
        submit_response(Err("channel closed".to_string())),
        error(HttpStatus::InternalServerError, "channel closed")
    );
}

#[test]
fn error_responses_share_one_shape() {
    assert_eq!(payload_too_large_response(4096), error(HttpStatus::BadRequest, "Maximum request size is 4096 bytes"));
    assert_eq!(not_found_response(), error(HttpStatus::NotFound, "Not found."));
    assert_eq!(internal_error_response("boom".to_string()), error(HttpStatus::InternalServerError, "boom"));
    assert_eq!(
        general_error_response(HttpStatus::Unauthorized, "no".to_string()),
        error(HttpStatus::Unauthorized, "no")
    );
}

#[test]
fn status_codes() {
    assert_eq!(HttpStatus::Success.code(), 200);
    assert_eq!(HttpStatus::BadRequest.code(), 400);
    assert_eq!(HttpStatus::Unauthorized.code(), 401);
    assert_eq!(HttpStatus::Forbidden.code(), 403);
    assert_eq!(HttpStatus::NotFound.code(), 404);
    assert_eq!(HttpStatus::Conflict.code(), 409);
    assert_eq!(HttpStatus::InternalServerError.code(), 500);
}
