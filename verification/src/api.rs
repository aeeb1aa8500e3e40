//! The decisions of the JSON API: routing, leaderboard queries, score
//! submissions and the responses they lead to.

use vstd::prelude::*;
use crate::database::DatabaseRow;
use crate::date::{get_date, is_clock_date_text, is_date_iso8601, is_iso_date_text};
use crate::response::{
    general_error_response,
    is_error_response,
    uses_error_format,
    ApiBody,
    ApiResponse,
    HttpStatus,
};
use crate::text::{int_text, nat_text, push_int_text, push_nat_text};

verus! {

/// The API endpoints.
#[derive(Clone, Copy, Debug, PartialEq, Eq, Structural)]
pub enum ApiRoute {
    /// `POST /api/v1/submit`
    Submit,
    /// `GET /api/v1/daily-seed`
    DailySeed,
    /// `GET /api/v1/leaderboard`
    Leaderboard,
    /// Any other path under `/api`.
    NotFound,
}

/// Whether two strings hold the same characters.
fn text_equals(a: &str, b: &str) -> (equal: bool)
    ensures
        equal == (a@ == b@),
{
    a.to_owned() == b.to_owned()
}

/// The endpoint a POST request to `path` reaches.
pub fn api_post_route(path: &str) -> (route: ApiRoute)
    ensures
        route == (if path@ == "/api/v1/submit"@ {
            ApiRoute::Submit
        } else {
            ApiRoute::NotFound
        }),
{
    if text_equals(path, "/api/v1/submit") {
        ApiRoute::Submit
    } else {
        ApiRoute::NotFound
    }
}

/// The endpoint a GET request to `path` reaches.
pub fn api_get_route(path: &str) -> (route: ApiRoute)
    ensures
        route == (if path@ == "/api/v1/daily-seed"@ {
            ApiRoute::DailySeed
        } else if path@ == "/api/v1/leaderboard"@ {
            ApiRoute::Leaderboard
        } else {
            ApiRoute::NotFound
        }),
{
    if text_equals(path, "/api/v1/daily-seed") {
        ApiRoute::DailySeed
    } else if text_equals(path, "/api/v1/leaderboard") {
        ApiRoute::Leaderboard
    } else {
        ApiRoute::NotFound
    }
}

/// The answer to a daily-seed request: the seed, or 500 with the error.
pub fn seed_response(seed: Result<i64, String>) -> (response: ApiResponse)
    ensures
        uses_error_format(response),
        seed matches Ok(s) ==> response == (ApiResponse {
            status: HttpStatus::Success,
            body: ApiBody::Seed(s),
        }),
        seed matches Err(e) ==> is_error_response(
            response,
            HttpStatus::InternalServerError,
            "Error: "@ + e@,
        ),
{
    match seed {
        Ok(s) => ApiResponse { status: HttpStatus::Success, body: ApiBody::Seed(s) },
        Err(e) => {
            let mut message = "Error: ".to_string();
            message.append(e.as_str());
            general_error_response(HttpStatus::InternalServerError, message)
        },
    }
}

/// A leaderboard request, as encoded in the URI's query.
#[derive(Debug, PartialEq)]
pub struct HighscoreQuery {
    /// Position in the sorted leaderboard of the first row returned.
    pub starting_index: i32,
    /// Number of rows asked for.
    pub count: i32,
    /// Day of the leaderboard, `YYYY-MM-DD`.
    pub date: String,
}

/// The message for requests that ask for more rows than allowed.
pub open spec fn too_many_rows_message(maximum_row_query: i32) -> Seq<char> {
    "maximum amount of rows query-able at once is "@ + int_text(maximum_row_query as int)
}

/// The message for requests that ask for a negative number of rows.
pub open spec fn negative_count_message() -> Seq<char> {
    "count must not be negative."@
}

/// The message for requests whose date is malformed.
pub open spec fn invalid_date_message() -> Seq<char> {
    "Invalid date format, must be ISO-8601 formatted."@
}

/// The SQL that reads one page of a day's leaderboard, best score first.
pub open spec fn highscore_sql(date: Seq<char>, count: i32, starting_index: i32) -> Seq<char> {
    "SELECT * FROM users WHERE date == \""@ + date + "\" ORDER BY score DESC LIMIT "@ + int_text(
        count as int,
    ) + " OFFSET "@ + int_text(starting_index as int) + ";"@
}

/// Whether `s` ends with `suffix`.
pub open spec fn ends_with(s: Seq<char>, suffix: Seq<char>) -> bool {
    suffix.len() <= s.len() && s.subrange(s.len() - suffix.len(), s.len() as int) == suffix
}

/// Whether `s` begins with `prefix`.
pub open spec fn starts_with(s: Seq<char>, prefix: Seq<char>) -> bool {
    prefix.len() <= s.len() && s.subrange(0, prefix.len() as int) == prefix
}

/// The page bounds of a leaderboard query: at most `count` rows, skipping
/// the first `starting_index` rows of the sorted leaderboard.
pub open spec fn page_clause(count: i32, starting_index: i32) -> Seq<char> {
    " LIMIT "@ + int_text(count as int) + " OFFSET "@ + int_text(starting_index as int) + ";"@
}

/// The day's rows, best score first.
pub open spec fn day_ranking_clause(date: Seq<char>) -> Seq<char> {
    "SELECT * FROM users WHERE date == \""@ + date + "\" ORDER BY score DESC"@
}

/// The leaderboard SQL selects the requested day's rows best score first and
/// ends with the page bounds taken verbatim from the request: `LIMIT` is the
/// count and `OFFSET` the starting index, for every count and index, so the
/// first page (`starting_index` 0) starts at the best score. Two requests
/// for the same day differ only in their page bounds.
pub proof fn lemma_highscore_sql_pages(
    date: Seq<char>,
    count: i32,
    starting_index: i32,
    other_count: i32,
    other_index: i32,
)
    ensures
        starts_with(highscore_sql(date, count, starting_index), day_ranking_clause(date)),
        ends_with(highscore_sql(date, count, starting_index), page_clause(count, starting_index)),
        ends_with(
            highscore_sql(date, count, starting_index),
            " OFFSET "@ + int_text(starting_index as int) + ";"@,
        ),
        highscore_sql(date, count, starting_index).len() == day_ranking_clause(date).len()
            + page_clause(count, starting_index).len(),
        highscore_sql(date, other_count, other_index).subrange(
            0,
            day_ranking_clause(date).len() as int,
        ) == highscore_sql(date, count, starting_index).subrange(
            0,
            day_ranking_clause(date).len() as int,
        ),
{
    reveal_strlit("\" ORDER BY score DESC LIMIT ");
    reveal_strlit("\" ORDER BY score DESC");
    reveal_strlit(" LIMIT ");
    assert("\" ORDER BY score DESC LIMIT "@ =~= "\" ORDER BY score DESC"@ + " LIMIT "@);
    let head = day_ranking_clause(date);
    let sql = highscore_sql(date, count, starting_index);
    let page = page_clause(count, starting_index);
    assert(sql =~= head + page);
    assert(sql.subrange(0, head.len() as int) =~= head);
    assert(sql.subrange(sql.len() - page.len(), sql.len() as int) =~= page);
    let offset = " OFFSET "@ + int_text(starting_index as int) + ";"@;
    assert(page =~= (" LIMIT "@ + int_text(count as int)) + offset);
    assert(sql.subrange(sql.len() - offset.len(), sql.len() as int) =~= offset);
    let other = highscore_sql(date, other_count, other_index);
    assert(other =~= head + page_clause(other_count, other_index));
    assert(other.subrange(0, head.len() as int) =~= head);
}

/// Checks a leaderboard request and builds the SQL that answers it; a
/// request for more than `maximum_row_query` rows, with a malformed date or
/// for a negative number of rows (which SQL's `LIMIT` would read as no limit
/// at all) is answered with 400, in that order.
pub fn build_highscore_query(query: &HighscoreQuery, maximum_row_query: i32) -> (sql: Result<String, ApiResponse>)
    ensures
        sql is Ok <==> 0 <= query.count <= maximum_row_query && is_iso_date_text(query.date@),
        sql matches Ok(text) ==> text@ == highscore_sql(query.date@, query.count, query.starting_index),
        sql matches Ok(text) ==> starts_with(text@, day_ranking_clause(query.date@)) && ends_with(
            text@,
            page_clause(query.count, query.starting_index),
        ),
        query.count > maximum_row_query ==> (sql matches Err(response) && is_error_response(
            response,
            HttpStatus::BadRequest,
            too_many_rows_message(maximum_row_query),
        )),
        query.count <= maximum_row_query && !is_iso_date_text(query.date@) ==> (sql matches Err(
            response,
        ) && is_error_response(response, HttpStatus::BadRequest, invalid_date_message())),
        query.count < 0 && query.count <= maximum_row_query && is_iso_date_text(query.date@) ==> (
        sql matches Err(response)
            && is_error_response(response, HttpStatus::BadRequest, negative_count_message())),
        sql matches Err(response) ==> uses_error_format(response),
{
    if query.count > maximum_row_query {
        let mut message = "maximum amount of rows query-able at once is ".to_string();
        push_int_text(&mut message, maximum_row_query as i64);
        return Err(general_error_response(HttpStatus::BadRequest, message));
    }
    if !is_date_iso8601(query.date.clone()) {
        return Err(
            general_error_response(
                HttpStatus::BadRequest,
                "Invalid date format, must be ISO-8601 formatted.".to_string(),
            ),
        );
    }
    if query.count < 0 {
        return Err(
            general_error_response(HttpStatus::BadRequest, "count must not be negative.".to_string()),
        );
    }
    let mut sql = "SELECT * FROM users WHERE date == \"".to_string();
    sql.append(query.date.as_str());
    sql.append("\" ORDER BY score DESC LIMIT ");
    push_int_text(&mut sql, query.count as i64);
    sql.append(" OFFSET ");
    push_int_text(&mut sql, query.starting_index as i64);
    sql.append(";");
    proof {
        lemma_highscore_sql_pages(query.date@, query.count, query.starting_index, 0, 0);
    }
    Ok(sql)
}

/// A date that passes the date check holds only digits and dashes, so the
/// text a client sends as a leaderboard date cannot close the quoted string
/// it is placed in within the SQL.
pub proof fn lemma_checked_date_has_no_quote(date: Seq<char>)
    requires
        is_iso_date_text(date),
    ensures
        forall|i: int| 0 <= i < date.len() ==> #[trigger] date[i] != '"' && date[i] != '\\',
{
    assert forall|i: int| 0 <= i < date.len() implies #[trigger] date[i] != '"' && date[i] != '\\' by {
        assert(i == 0 || i == 1 || i == 2 || i == 3 || i == 4 || i == 5 || i == 6 || i == 7 || i
            == 8 || i == 9);
    }
}

/// The answer to a leaderboard read: the rows, or 500 with the error.
pub fn leaderboard_response(rows: Result<Vec<DatabaseRow>, String>) -> (response: ApiResponse)
    ensures
        uses_error_format(response),
        rows matches Ok(r) ==> response == (ApiResponse {
            status: HttpStatus::Success,
            body: ApiBody::Scores(r),
        }),
        rows matches Err(e) ==> is_error_response(
            response,
            HttpStatus::InternalServerError,
            "Error: "@ + e@,
        ),
{
    match rows {
        Ok(r) => ApiResponse { status: HttpStatus::Success, body: ApiBody::Scores(r) },
        Err(e) => {
            let mut message = "Error: ".to_string();
            message.append(e.as_str());
            general_error_response(HttpStatus::InternalServerError, message)
        },
    }
}

/// A score submission, as sent in the body of `POST /api/v1/submit`.
#[derive(Debug, PartialEq)]
pub struct SubmitRequest {
    pub name: String,
    pub extra_data: String,
    pub score: i64,
    /// The seed the run was played with; it must still be today's seed.
    pub daily_seed: i64,
}

/// The message for submissions whose seed is no longer the daily seed.
pub open spec fn stale_seed_message() -> Seq<char> {
    "Daily seed is out of date."@
}

/// The seed a submission is held against: today's seed, or 0 when it could
/// not be obtained.
pub open spec fn expected_seed(current_seed: Option<i64>) -> i64 {
    match current_seed {
        Some(s) => s,
        None => 0,
    }
}

/// Turns a submission into the row to store, dated `date`, if its seed is
/// the current one; otherwise answers 409.
pub fn submission_row(submission: SubmitRequest, current_seed: Option<i64>, date: String) -> (row: Result<DatabaseRow, ApiResponse>)
    ensures
        row is Ok <==> submission.daily_seed == expected_seed(current_seed),
        row matches Ok(r) ==> r == (DatabaseRow {
            id: 0,
            name: submission.name,
            extra_data: submission.extra_data,
            score: submission.score,
            date: date,
        }),
        row matches Err(response) ==> is_error_response(
            response,
            HttpStatus::Conflict,
            stale_seed_message(),
        ) && uses_error_format(response),
{
    let expected = match current_seed {
        Some(s) => s,
        None => 0,
    };
    if submission.daily_seed != expected {
        return Err(
            general_error_response(HttpStatus::Conflict, "Daily seed is out of date.".to_string()),
        );
    }
    Ok(
        DatabaseRow {
            id: 0,
            name: submission.name,
            extra_data: submission.extra_data,
            score: submission.score,
            date,
        },
    )
}

/// The message for submissions that arrive while the clock cannot be read.
pub open spec fn clock_unavailable_message() -> Seq<char> {
    "The current date cannot be read."@
}

/// Turns a submission into the row to store, dated today (UTC), if its seed
/// is the current one; otherwise answers 409. When the clock cannot be read
/// the submission is answered with 500.
pub fn prepare_submission(submission: SubmitRequest, current_seed: Option<i64>) -> (row: Result<DatabaseRow, ApiResponse>)
    ensures
        row is Ok ==> submission.daily_seed == expected_seed(current_seed),
        submission.daily_seed != expected_seed(current_seed) ==> (row matches Err(response)
            && is_error_response(response, HttpStatus::Conflict, stale_seed_message())),
        submission.daily_seed == expected_seed(current_seed) ==> (row is Ok || (row matches Err(
            response,
        ) && is_error_response(
            response,
            HttpStatus::InternalServerError,
            clock_unavailable_message(),
        ))),
        row matches Ok(r) ==> r.id == 0 && r.name == submission.name && r.extra_data
            == submission.extra_data && r.score == submission.score && is_clock_date_text(r.date@),
        row matches Err(response) ==> uses_error_format(response),
{
    match get_date() {
        Some(date) => submission_row(submission, current_seed, date),
        None => {
            let expected = match current_seed {
                Some(s) => s,
                None => 0,
            };
            if submission.daily_seed != expected {
                Err(
                    general_error_response(
                        HttpStatus::Conflict,
                        "Daily seed is out of date.".to_string(),
                    ),
                )
            } else {
                Err(
                    general_error_response(
                        HttpStatus::InternalServerError,
                        "The current date cannot be read.".to_string(),
                    ),
                )
            }
        },
    }
}

/// The answer once a submission has been written: its ID, or 500 with the error.
pub fn submit_response(written: Result<i64, String>) -> (response: ApiResponse)
    ensures
        uses_error_format(response),
        written matches Ok(id) ==> response == (ApiResponse {
            status: HttpStatus::Success,
            body: ApiBody::Submitted(id),
        }),
        written matches Err(e) ==> is_error_response(
            response,
            HttpStatus::InternalServerError,
            e@,
        ),
{
    match written {
        Ok(id) => ApiResponse { status: HttpStatus::Success, body: ApiBody::Submitted(id) },
        Err(e) => general_error_response(HttpStatus::InternalServerError, e),
    }
}

/// The message for request bodies above the size limit.
pub open spec fn payload_too_large_message(limit: usize) -> Seq<char> {
    "Maximum request size is "@ + nat_text(limit as nat) + " bytes"@
}

/// The answer to a request whose body exceeds `limit` bytes: 400.
pub fn payload_too_large_response(limit: usize) -> (response: ApiResponse)
    ensures
        is_error_response(response, HttpStatus::BadRequest, payload_too_large_message(limit)),
        uses_error_format(response),
{
    let mut message = "Maximum request size is ".to_string();
    push_nat_text(&mut message, limit as u64);
    message.append(" bytes");
    general_error_response(HttpStatus::BadRequest, message)
}

} // verus!
