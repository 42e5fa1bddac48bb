use mdb_search::db::imdb::{extract_year, InternetMovieDatabase, SearchData, SearchResult};
use mdb_search::{Error, Style};

fn style() -> Style {
    Style { title: true, year: true, id: false }
}

fn row(id: &str, result_type: &str, title: &str, description: &str) -> SearchResult {
    SearchResult {
        id: String::from(id),
        result_type: String::from(result_type),
        title: String::from(title),
        description: String::from(description),
    }
}

#[test]
fn year_from_parenthesized_prefix() {
    assert_eq!(extract_year("(1980) Sequel to..."), Some(1980));
}

#[test]
fn year_direct_prefix_wins() {
    assert_eq!(extract_year("1980 A Sequel"), Some(1980));
}

#[test]
fn year_absent_from_unrelated_text() {
    assert_eq!(extract_year("Unrelated text"), None);
}

#[test]
fn year_direct_prefix_preferred_over_parenthesized() {
    assert_eq!(extract_year("2005 (1999) rerelease"), Some(2005));
}

#[test]
fn year_short_description() {
    assert_eq!(extract_year("19"), None);
    assert_eq!(extract_year(""), None);
    assert_eq!(extract_year("1980"), Some(1980));
}

#[test]
fn year_accepts_a_leading_plus_as_parse_does() {
    assert_eq!(extract_year("+980 reissue"), Some(980));
}

#[test]
fn tv_series_rows_are_excluded() {
    let data = SearchData {
        results: Some(vec![
            row("tt1", "Movie", "A", "1980 first"),
            row("tt2", "TVSeries", "B", "1990 second"),
            row("tt3", "Movie", "C", "no year"),
        ]),
        error_message: String::new(),
    };
    let movies = InternetMovieDatabase.normalize(style(), data).unwrap();
    assert_eq!(movies.len(), 2);
    assert_eq!(movies[0].title, "A");
    assert_eq!(movies[0].year, Some(1980));
    assert_eq!(movies[0].id, "tt1");
    assert_eq!(movies[0].db, "imdbid");
    assert_eq!(movies[1].title, "C");
    assert_eq!(movies[1].year, None);
}

#[test]
fn error_message_fails_the_whole_query() {
    let data = SearchData {
        results: Some(vec![row("tt1", "Movie", "A", "1980 first")]),
        error_message: String::from("invalid api key"),
    };
    let r = InternetMovieDatabase.normalize(style(), data);
    match r {
        Err(Error::ProviderReported(msg)) => assert_eq!(msg, "invalid api key"),
        _ => panic!("expected a provider-reported error"),
    }
}

#[test]
fn missing_result_list_yields_no_movies() {
    let data = SearchData { results: None, error_message: String::new() };
    let movies = InternetMovieDatabase.normalize(style(), data).unwrap();
    assert!(movies.is_empty());
}

#[test]
fn movies_keep_provider_order() {
    let data = SearchData {
        results: Some(vec![
            row("tt9", "Movie", "Z", ""),
            row("tt1", "Movie", "A", ""),
            row("tt5", "Movie", "M", ""),
        ]),
        error_message: String::new(),
    };
    let movies = InternetMovieDatabase.normalize(style(), data).unwrap();
    let ids: Vec<&str> = movies.iter().map(|m| m.id.as_str()).collect();
    assert_eq!(ids, vec!["tt9", "tt1", "tt5"]);
}
