use super::{percent_encoded, MovieDatabase};
use crate::error::Error;
use crate::movie::Movie;
use crate::style::Style;
use crate::text::parse_u16_spec;
use vstd::prelude::*;
use vstd::string::StrSliceExecFns;
use vstd::string::StringExecFns;

verus! {

pub struct InternetMovieDatabase;

/// The decoded shape of one IMDb search response.
pub struct SearchData {
    pub results: Option<Vec<SearchResult>>,
    pub error_message: String,
}

/// One row of an IMDb search response.
pub struct SearchResult {
    pub id: String,
    pub result_type: String,
    pub title: String,
    pub description: String,
}

/// An absent result list stands for an empty one.
pub open spec fn rows_of(results: Option<Vec<SearchResult>>) -> Seq<SearchResult> {
    match results {
        Some(v) => v@,
        None => Seq::empty(),
    }
}

/// Only rows typed exactly `Movie` survive normalization.
pub open spec fn is_movie_row(s: SearchResult) -> bool {
    s.result_type@ == "Movie"@
}

pub open spec fn kept_rows(rs: Seq<SearchResult>) -> Seq<SearchResult> {
    rs.filter(|s: SearchResult| is_movie_row(s))
}

/// The year-extraction heuristic over a description. The direct-prefix rule
/// is tried first and wins: the first four characters read as an integer.
/// Only when it fails is a `(year)` prefix accepted. The precedence looks ad
/// hoc but compensates for inconsistent upstream description formats and
/// must be preserved exactly.
pub open spec fn imdb_year(d: Seq<char>) -> Option<u16> {
    if d.len() >= 4 && parse_u16_spec(d.take(4)) is Some {
        parse_u16_spec(d.take(4))
    } else if d.len() >= 6 && d[0] == '(' && d[5] == ')' && parse_u16_spec(d.subrange(1, 5))
        is Some {
        parse_u16_spec(d.subrange(1, 5))
    } else {
        None
    }
}

/// How one normalized movie relates to the row it came from.
pub open spec fn movie_matches_row(m: Movie, s: SearchResult, style: Style) -> bool {
    &&& m.id@ == s.id@
    &&& m.title@ == s.title@
    &&& m.desc@ == s.description@
    &&& m.year == imdb_year(s.description@)
    &&& m.db@ == "imdbid"@
    &&& m.style == style
}

/// Apply the year-extraction heuristic to one description.
pub fn extract_year(desc: &str) -> (y: Option<u16>)
    ensures
        y == imdb_year(desc@),
{
    let n = desc.unicode_len();
    if n >= 4 {
        let p = crate::text::parse_u16(desc.substring_char(0, 4));
        if p.is_some() {
            return p;
        }
    }
    if n >= 6 && desc.get_char(0) == '(' && desc.get_char(5) == ')' {
        return crate::text::parse_u16(desc.substring_char(1, 5));
    }
    None
}

impl InternetMovieDatabase {
    /// Turn one decoded IMDb response into the unified movie list: fail with
    /// the provider's message when one is present (discarding any results in
    /// the same payload), otherwise keep the movie-typed rows in order.
    pub fn normalize(&self, style: Style, data: SearchData) -> (r: Result<Vec<Movie>, Error>)
        ensures
            data.error_message@.len() > 0 ==> r == Err::<Vec<Movie>, Error>(
                Error::ProviderReported(data.error_message),
            ),
            data.error_message@.len() == 0 ==> r is Ok && {
                let kept = kept_rows(rows_of(data.results));
                &&& r->Ok_0@.len() == kept.len()
                &&& forall|i: int|
                    0 <= i < kept.len() ==> movie_matches_row(
                        #[trigger] r->Ok_0@[i],
                        kept[i],
                        style,
                    )
            },
    {
        if !data.error_message.as_str().is_empty() {
            return Err(Error::ProviderReported(data.error_message));
        }
        let movie_tag = String::from_str("Movie");
        let mut out: Vec<Movie> = Vec::new();
        match data.results {
            None => {
                proof {
                    reveal(Seq::filter);
                }
            },
            Some(rs) => {
                let mut i: usize = 0;
                proof {
                    reveal(Seq::filter);
                    assert(rs@.take(0) =~= Seq::<SearchResult>::empty());
                }
                while i < rs.len()
                    invariant
                        i <= rs.len(),
                        movie_tag@ == "Movie"@,
                        out@.len() == kept_rows(rs@.take(i as int)).len(),
                        forall|j: int|
                            0 <= j < out@.len() ==> movie_matches_row(
                                #[trigger] out@[j],
                                kept_rows(rs@.take(i as int))[j],
                                style,
                            ),
                    decreases rs.len() - i,
                {
                    let s = &rs[i];
                    let ghost pre = rs@.take(i as int);
                    let ghost post = rs@.take(i as int + 1);
                    proof {
                        reveal(Seq::filter);
                        assert(post.drop_last() =~= pre);
                        assert(post.last() == rs@[i as int]);
                    }
                    if s.result_type == movie_tag {
                        let year = extract_year(s.description.as_str());
                        out.push(
                            Movie {
                                id: s.id.clone(),
                                title: s.title.clone(),
                                desc: s.description.clone(),
                                year,
                                db: "imdbid",
                                style,
                            },
                        );
                        proof {
                            assert(kept_rows(post) =~= kept_rows(pre).push(rs@[i as int]));
                        }
                    } else {
                        proof {
                            assert(kept_rows(post) =~= kept_rows(pre));
                        }
                    }
                    i += 1;
                }
                proof {
                    assert(rs@.take(rs@.len() as int) =~= rs@);
                }
            },
        }
        Ok(out)
    }
}

impl MovieDatabase for InternetMovieDatabase {
    open spec fn spec_name(&self) -> Seq<char> {
        "IMDb"@
    }

    open spec fn spec_full_name(&self) -> Seq<char> {
        "Internet Movie Database"@
    }

    open spec fn spec_id_name(&self) -> Seq<char> {
        "imdbid"@
    }

    open spec fn spec_search_url(&self, api_key: Seq<char>, search: Seq<char>) -> Seq<char> {
        "https://imdb-api.com/en/API/SearchMovie/"@ + api_key + "/"@ + percent_encoded(search)
    }

    fn name(&self) -> (r: &'static str) {
        "IMDb"
    }

    fn full_name(&self) -> (r: &'static str) {
        "Internet Movie Database"
    }

    fn id_name(&self) -> (r: &'static str) {
        "imdbid"
    }

    fn search_url(&self, api_key: &str, search: &str) -> (r: String) {
        let mut url = String::from_str("https://imdb-api.com/en/API/SearchMovie/");
        url.append(api_key);
        url.append("/");
        url.append(super::encode_component(search).as_str());
        url
    }
}

} // verus!
