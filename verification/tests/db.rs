use mdb_search::db::imdb::InternetMovieDatabase;
use mdb_search::db::tmdb::TheMovieDatabase;
use mdb_search::db::{databases, label, Database, MovieDatabase};

#[test]
fn registry_lists_both_databases_in_order() {
    let all = databases();
    assert_eq!(all, vec![Database::Imdb, Database::Tmdb]);
}

#[test]
fn descriptor_names() {
    assert_eq!(InternetMovieDatabase.name(), "IMDb");
    assert_eq!(InternetMovieDatabase.full_name(), "Internet Movie Database");
    assert_eq!(InternetMovieDatabase.id_name(), "imdbid");
    assert_eq!(TheMovieDatabase.name(), "TMDB");
    assert_eq!(TheMovieDatabase.full_name(), "The Movie Database");
    assert_eq!(TheMovieDatabase.id_name(), "tmdbid");
}

#[test]
fn registry_tags_delegate_to_the_descriptors() {
    assert_eq!(Database::Imdb.name(), "IMDb");
    assert_eq!(Database::Tmdb.name(), "TMDB");
    assert_eq!(Database::Imdb.id_name(), "imdbid");
    assert_eq!(Database::Tmdb.id_name(), "tmdbid");
}

#[test]
fn selection_labels() {
    assert_eq!(label(&InternetMovieDatabase), "IMDb - Internet Movie Database");
    assert_eq!(label(&TheMovieDatabase), "TMDB - The Movie Database");
    assert_eq!(label(&Database::Imdb), "IMDb - Internet Movie Database");
}

#[test]
fn imdb_search_url_percent_encodes_the_search_text() {
    let url = InternetMovieDatabase.search_url("KEY", "star wars");
    assert_eq!(url, "https://imdb-api.com/en/API/SearchMovie/KEY/star%20wars");
}

#[test]
fn tmdb_search_url_percent_encodes_the_search_text() {
    let url = TheMovieDatabase.search_url("KEY", "a&b c");
    assert_eq!(url, "https://api.themoviedb.org/3/search/movie?api_key=KEY&query=a%26b%20c");
}

#[test]
fn plain_search_text_passes_through_unencoded() {
    let url = Database::Tmdb.search_url("KEY", "matrix");
    assert_eq!(url, "https://api.themoviedb.org/3/search/movie?api_key=KEY&query=matrix");
}

#[test]
fn error_messages_carry_their_text() {
    assert_eq!(mdb_search::Error::Transport(String::from("no route")).message(), "no route");
    assert_eq!(mdb_search::Error::Decode(String::from("bad json")).message(), "bad json");
    assert_eq!(mdb_search::Error::ProviderReported(String::from("quota")).message(), "quota");
}
