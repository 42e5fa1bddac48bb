use mdb_search::db::tmdb::{extract_year, SearchData, SearchResult, TheMovieDatabase};
use mdb_search::{Error, Style};

fn style() -> Style {
    Style { title: true, year: true, id: true }
}

fn row(id: Option<i32>, title: Option<&str>, overview: Option<&str>, date: Option<&str>) -> SearchResult {
    SearchResult {
        id,
        title: title.map(String::from),
        overview: overview.map(String::from),
        release_date: date.map(String::from),
    }
}

#[test]
fn year_from_release_date() {
    assert_eq!(extract_year("1983-05-25"), Some(1983));
}

#[test]
fn year_needs_a_dash() {
    assert_eq!(extract_year("1983"), None);
    assert_eq!(extract_year(""), None);
}

#[test]
fn year_with_unreadable_prefix_is_absent() {
    assert_eq!(extract_year("abcd-01-01"), None);
    assert_eq!(extract_year("-05-25"), None);
    assert_eq!(extract_year("99999-01-01"), None);
}

#[test]
fn row_missing_title_is_excluded() {
    let data = SearchData {
        results: Some(vec![
            row(Some(603), Some("The Matrix"), Some("A hacker."), Some("1999-03-31")),
            row(Some(604), None, Some("No title here."), Some("2003-05-15")),
        ]),
        status_message: None,
        status_code: None,
    };
    let movies = TheMovieDatabase.normalize(style(), data).unwrap();
    assert_eq!(movies.len(), 1);
    assert_eq!(movies[0].title, "The Matrix");
}

#[test]
fn row_missing_id_or_overview_is_excluded() {
    let data = SearchData {
        results: Some(vec![
            row(None, Some("A"), Some("a"), None),
            row(Some(1), Some("B"), None, None),
            row(Some(2), Some("C"), Some("c"), None),
        ]),
        status_message: None,
        status_code: None,
    };
    let movies = TheMovieDatabase.normalize(style(), data).unwrap();
    assert_eq!(movies.len(), 1);
    assert_eq!(movies[0].title, "C");
}

#[test]
fn release_date_drives_the_year_and_absence_keeps_the_row() {
    let data = SearchData {
        results: Some(vec![
            row(Some(11), Some("Star Wars"), Some("Far away."), Some("1983-05-25")),
            row(Some(12), Some("Undated"), Some("No date."), None),
        ]),
        status_message: None,
        status_code: None,
    };
    let movies = TheMovieDatabase.normalize(style(), data).unwrap();
    assert_eq!(movies.len(), 2);
    assert_eq!(movies[0].year, Some(1983));
    assert_eq!(movies[1].year, None);
}

#[test]
fn id_is_stringified_and_tag_is_set() {
    let data = SearchData {
        results: Some(vec![row(Some(603), Some("The Matrix"), Some("A hacker."), None)]),
        status_message: None,
        status_code: None,
    };
    let movies = TheMovieDatabase.normalize(style(), data).unwrap();
    assert_eq!(movies[0].id, "603");
    assert_eq!(movies[0].db, "tmdbid");
    assert_eq!(movies[0].desc, "A hacker.");
}

#[test]
fn status_message_fails_the_query_and_status_code_is_ignored() {
    let data = SearchData {
        results: Some(vec![row(Some(1), Some("A"), Some("a"), None)]),
        status_message: Some(String::from("Invalid API key")),
        status_code: Some(7),
    };
    match TheMovieDatabase.normalize(style(), data) {
        Err(Error::ProviderReported(msg)) => assert_eq!(msg, "Invalid API key"),
        _ => panic!("expected a provider-reported error"),
    }
}

#[test]
fn status_code_alone_fails_with_its_stringified_value() {
    let data = SearchData {
        results: None,
        status_message: None,
        status_code: Some(7),
    };
    match TheMovieDatabase.normalize(style(), data) {
        Err(Error::ProviderReported(msg)) => assert_eq!(msg, "7"),
        _ => panic!("expected a provider-reported error"),
    }
}

#[test]
fn negative_status_code_is_rendered_with_a_sign() {
    let data = SearchData {
        results: None,
        status_message: None,
        status_code: Some(-3),
    };
    match TheMovieDatabase.normalize(style(), data) {
        Err(Error::ProviderReported(msg)) => assert_eq!(msg, "-3"),
        _ => panic!("expected a provider-reported error"),
    }
}
